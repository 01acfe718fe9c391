//! A snapshot of the jobs of one build, and the predicates over it.
//!
//! A snapshot is built whole from one answer of the status service and is
//! never changed afterwards. Everything here is a pure function of the
//! snapshot's view.

use vstd::prelude::*;
use crate::error::{Error, ErrorView};
use crate::role::{is_leader, leads};
use crate::text::{optional_str, optional_text};

verus! {

/// A single job and relevant information.
#[derive(Debug, PartialEq, Eq)]
pub struct MatrixElement {
    finished_at: Option<String>,
    result: Option<u32>,
    number: String,
    id: Option<u32>,
}

/// The mathematical value of a [`MatrixElement`].
pub struct MatrixElementView {
    /// The marker of completion. Its presence says that the job finished;
    /// its text says nothing more.
    pub finished_at: Option<Seq<char>>,
    /// The exit code of the job: 0 for success. It counts only when
    /// `finished_at` is present.
    pub result: Option<u32>,
    /// The job number, `<build>.<index>`.
    pub number: Seq<char>,
    /// The job's identifier at the status service.
    pub id: Option<u32>,
}

impl MatrixElementView {
    /// The job was run on the build leader.
    pub open spec fn is_leader(self) -> bool {
        leads(self.number)
    }

    /// The job finished, whatever its result.
    pub open spec fn is_finished(self) -> bool {
        self.finished_at is Some
    }

    /// The job finished with the exit code 0. A result without the marker
    /// of completion may be stale and does not count.
    pub open spec fn is_succeeded(self) -> bool {
        self.is_finished() && self.result == Some(0u32)
    }
}

impl View for MatrixElement {
    type V = MatrixElementView;

    closed spec fn view(&self) -> MatrixElementView {
        MatrixElementView {
            finished_at: optional_text(self.finished_at),
            result: self.result,
            number: self.number@,
            id: self.id,
        }
    }
}

impl MatrixElement {
    /// A job as the status service reports it.
    pub fn new(
        finished_at: Option<String>,
        result: Option<u32>,
        number: String,
        id: Option<u32>,
    ) -> (job: MatrixElement)
        ensures
            job@ == (MatrixElementView {
                finished_at: optional_text(finished_at),
                result,
                number: number@,
                id,
            }),
    {
        MatrixElement { finished_at, result, number, id }
    }

    /// The marker of completion, if the job has finished.
    pub fn finished_at(&self) -> (marker: Option<&str>)
        ensures
            optional_str(marker) == self@.finished_at,
    {
        match &self.finished_at {
            Some(marker) => Some(marker.as_str()),
            None => None,
        }
    }

    /// The exit code that the job reported, if any. It counts only for a
    /// job that has finished.
    pub fn result(&self) -> (code: Option<u32>)
        ensures
            code == self@.result,
    {
        self.result
    }

    /// The job number, `<build>.<index>`.
    pub fn number(&self) -> (number: &str)
        ensures
            number@ == self@.number,
    {
        self.number.as_str()
    }

    /// The job's identifier at the status service, if it reported one.
    pub fn remote_id(&self) -> (id: Option<u32>)
        ensures
            id == self@.id,
    {
        self.id
    }

    /// Get the id of the job. The job must have one.
    pub fn id(&self) -> (id: u32)
        requires
            self@.id is Some,
        ensures
            Some(id) == self@.id,
    {
        self.id.unwrap()
    }

    /// Check if the job was run on the build leader.
    pub fn is_leader(&self) -> (leader: bool)
        ensures
            leader == self@.is_leader(),
    {
        is_leader(self.number.as_str())
    }

    /// Check if the job finished and succeeded.
    pub fn is_succeeded(&self) -> (succeeded: bool)
        ensures
            succeeded == self@.is_succeeded(),
            succeeded ==> self@.is_finished(),
    {
        if !self.is_finished() {
            return false;
        }
        match self.result {
            None => false,
            Some(code) => code == 0,
        }
    }

    /// Check if the job finished.
    pub fn is_finished(&self) -> (finished: bool)
        ensures
            finished == self@.is_finished(),
    {
        self.finished_at.is_some()
    }
}

/// The views of a sequence of jobs, in the same order.
pub open spec fn job_views(jobs: Seq<MatrixElement>) -> Seq<MatrixElementView> {
    Seq::new(jobs.len(), |at: int| jobs[at]@)
}

/// A list of jobs: the snapshot of one build.
#[derive(Debug, PartialEq, Eq)]
pub struct Matrix {
    id: u32,
    matrix: Vec<MatrixElement>,
}

/// The mathematical value of a [`Matrix`].
pub struct MatrixView {
    /// The build's identifier.
    pub id: u32,
    /// The jobs, in the order of the snapshot.
    pub jobs: Seq<MatrixElementView>,
}

impl MatrixView {
    /// Every job that is not the leader finished.
    pub open spec fn others_finished(self) -> bool {
        forall|at: int|
            0 <= at < self.jobs.len() && !(#[trigger] self.jobs[at]).is_leader()
                ==> self.jobs[at].is_finished()
    }

    /// Every job that is not the leader finished with the exit code 0.
    pub open spec fn others_succeeded(self) -> bool {
        forall|at: int|
            0 <= at < self.jobs.len() && !(#[trigger] self.jobs[at]).is_leader()
                ==> self.jobs[at].is_succeeded()
    }

    /// No job of the snapshot is a peer: each one is the leader.
    pub open spec fn has_no_peers(self) -> bool {
        forall|at: int| 0 <= at < self.jobs.len() ==> (#[trigger] self.jobs[at]).is_leader()
    }
}

impl View for Matrix {
    type V = MatrixView;

    closed spec fn view(&self) -> MatrixView {
        MatrixView { id: self.id, jobs: job_views(self.matrix@) }
    }
}

/// The message of the error for a snapshot without jobs.
pub open spec fn empty_matrix_message() -> Seq<char> {
    "The build matrix holds no job"@
}

impl Matrix {
    /// A snapshot holds at least one job: the leader itself.
    #[verifier::type_invariant]
    spec fn holds_a_job(&self) -> bool {
        self.matrix@.len() >= 1
    }

    /// The snapshot of the build `id` with these jobs, in this order.
    ///
    /// A build has at least one job, so an empty list is refused as a
    /// malformed answer.
    pub fn new(id: u32, jobs: Vec<MatrixElement>) -> (made: Result<Matrix, Error>)
        ensures
            match made {
                Ok(matrix) => jobs@.len() >= 1 && matrix@ == (MatrixView {
                    id,
                    jobs: job_views(jobs@),
                }),
                Err(error) => jobs@.len() == 0 && error@ == ErrorView::Generic(
                    empty_matrix_message(),
                ),
            },
    {
        if jobs.len() == 0 {
            return Err(Error::from_str("The build matrix holds no job"));
        }
        Ok(Matrix { id, matrix: jobs })
    }

    /// The build's identifier.
    pub fn build_id(&self) -> (id: u32)
        ensures
            id == self@.id,
    {
        self.id
    }

    /// Get the build matrix: the jobs, in the order of the snapshot.
    pub fn builds(&self) -> (jobs: &[MatrixElement])
        ensures
            job_views(jobs@) == self@.jobs,
            jobs@.len() >= 1,
    {
        proof {
            use_type_invariant(self);
        }
        self.matrix.as_slice()
    }

    /// Check that all non-leader jobs finished.
    pub fn others_finished(&self) -> (finished: bool)
        ensures
            finished == self@.others_finished(),
    {
        let mut at: usize = 0;
        while at < self.matrix.len()
            invariant
                at <= self.matrix@.len(),
                forall|seen: int|
                    0 <= seen < at && !(#[trigger] self@.jobs[seen]).is_leader()
                        ==> self@.jobs[seen].is_finished(),
            decreases self.matrix@.len() - at,
        {
            let job = &self.matrix[at];
            assert(job@ == self@.jobs[at as int]);
            if !job.is_leader() && !job.is_finished() {
                return false;
            }
            at += 1;
        }
        true
    }

    /// Check that all non-leader jobs succeeded.
    pub fn others_succeeded(&self) -> (succeeded: bool)
        ensures
            succeeded == self@.others_succeeded(),
            succeeded ==> self@.others_finished(),
    {
        let mut at: usize = 0;
        while at < self.matrix.len()
            invariant
                at <= self.matrix@.len(),
                forall|seen: int|
                    0 <= seen < at && !(#[trigger] self@.jobs[seen]).is_leader()
                        ==> self@.jobs[seen].is_succeeded(),
            decreases self.matrix@.len() - at,
        {
            let job = &self.matrix[at];
            assert(job@ == self@.jobs[at as int]);
            if !job.is_leader() && !job.is_succeeded() {
                return false;
            }
            at += 1;
        }
        proof {
            lemma_succeeded_implies_finished(self@);
        }
        true
    }
}

/// A job that succeeded has finished. The converse does not hold: a job may
/// finish with a nonzero result, or with none.
pub proof fn lemma_job_succeeded_implies_finished(job: MatrixElementView)
    ensures
        job.is_succeeded() ==> job.is_finished(),
{
}

/// Where no job of the snapshot is a peer, all peers have finished and all
/// have succeeded.
pub proof fn lemma_no_peers(matrix: MatrixView)
    requires
        matrix.has_no_peers(),
    ensures
        matrix.others_finished(),
        matrix.others_succeeded(),
{
}

/// Where all peers succeeded, all peers finished.
pub proof fn lemma_succeeded_implies_finished(matrix: MatrixView)
    ensures
        matrix.others_succeeded() ==> matrix.others_finished(),
{
}

/// The predicates see nothing of a snapshot but its view: two snapshots
/// built from the same answer give the same results, however often they are
/// asked.
pub proof fn lemma_same_view_same_results(first: Matrix, second: Matrix)
    requires
        first@ == second@,
    ensures
        first@.others_finished() == second@.others_finished(),
        first@.others_succeeded() == second@.others_succeeded(),
{
}

} // verus!
