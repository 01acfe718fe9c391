//! Which job of a build is the leader.
//!
//! A job number has the form `<build>.<index>`. The status service numbers
//! the jobs of a build from 1 in the order in which they were declared, and
//! the first of them is the leader. Leadership is therefore read from the job
//! number alone: the job is the leader when the part of its number that
//! follows the last separator is exactly `1`.

use vstd::prelude::*;

verus! {

/// The character that separates the build's number from the job's index.
pub const SEPARATOR: char = '.';

/// Position `at` of `job` holds a separator, and no later position does.
pub open spec fn is_last_separator(job: Seq<char>, at: int) -> bool {
    &&& 0 <= at < job.len()
    &&& job[at] == SEPARATOR
    &&& forall|later: int| at < later < job.len() ==> job[later] != SEPARATOR
}

/// The job number holds a separator somewhere.
pub open spec fn has_separator(job: Seq<char>) -> bool {
    exists|at: int| is_last_separator(job, at)
}

/// The ordinal of a job: what follows the last separator of its number, or
/// the whole number where it holds no separator.
pub open spec fn ordinal(job: Seq<char>) -> Seq<char> {
    if has_separator(job) {
        let at = choose|at: int| is_last_separator(job, at);
        job.subrange(at + 1, job.len() as int)
    } else {
        job
    }
}

/// The leadership rule: the ordinal of the job is `1`.
pub open spec fn leads(job: Seq<char>) -> bool {
    ordinal(job) == seq!['1']
}

/// A job number has at most one last separator, so the ordinal is what
/// follows it.
pub proof fn lemma_ordinal_follows(job: Seq<char>, at: int)
    requires
        is_last_separator(job, at),
    ensures
        has_separator(job),
        ordinal(job) == job.subrange(at + 1, job.len() as int),
{
    let chosen = choose|at: int| is_last_separator(job, at);
    assert(chosen == at) by {
        if chosen < at {
            assert(job[at] == SEPARATOR);
        } else if at < chosen {
            assert(job[chosen] == SEPARATOR);
        }
    }
}

/// A job number in which no position holds a separator is its own ordinal.
pub proof fn lemma_ordinal_without_separator(job: Seq<char>)
    requires
        forall|at: int| 0 <= at < job.len() ==> job[at] != SEPARATOR,
    ensures
        !has_separator(job),
        ordinal(job) == job,
{
}

/// The rule without its definitions: a job leads exactly when its number
/// ends in `1` and that `1` is the whole number or stands directly behind a
/// separator.
pub proof fn lemma_leads_by_last_two(job: Seq<char>)
    ensures
        leads(job) <==> {
            &&& job.len() >= 1
            &&& job[job.len() - 1] == '1'
            &&& (job.len() == 1 || job[job.len() - 2] == SEPARATOR)
        },
{
    let n = job.len() as int;
    if has_separator(job) {
        let at = choose|at: int| is_last_separator(job, at);
        let tail = job.subrange(at + 1, n);
        assert(ordinal(job) == tail);
        if tail == seq!['1'] {
            assert(tail.len() == 1);
            assert(at == n - 2);
            assert(tail[0] == job[n - 1]);
        }
        if n >= 1 && job[n - 1] == '1' && (n == 1 || job[n - 2] == SEPARATOR) {
            assert(at != n - 1);
            assert(n >= 2);
            assert(at == n - 2) by {
                if at < n - 2 {
                    assert(job[n - 2] == SEPARATOR);
                }
            }
            assert(tail =~= seq!['1']);
        }
    } else {
        assert(ordinal(job) == job);
        if job == seq!['1'] {
            assert(job.len() == 1);
            assert(job[0] == '1');
        }
        if n >= 1 && job[n - 1] == '1' && (n == 1 || job[n - 2] == SEPARATOR) {
            if n >= 2 {
                assert(is_last_separator(job, n - 2));
            }
            assert(job =~= seq!['1']);
        }
    }
}

/// A job number whose last character is a separator has an empty ordinal
/// and does not lead.
pub proof fn lemma_empty_ordinal_does_not_lead(job: Seq<char>)
    requires
        job.len() >= 1,
        job.last() == SEPARATOR,
    ensures
        ordinal(job) == Seq::<char>::empty(),
        !leads(job),
{
    assert(is_last_separator(job, job.len() - 1));
    lemma_ordinal_follows(job, job.len() - 1);
    assert(ordinal(job).len() == 0);
}

/// A job number without a separator leads only if it is `1` itself.
pub proof fn lemma_bare_number_leads_iff_one(job: Seq<char>)
    requires
        forall|at: int| 0 <= at < job.len() ==> job[at] != SEPARATOR,
    ensures
        leads(job) <==> job == seq!['1'],
{
    lemma_ordinal_without_separator(job);
}

/// Whether the job with this number is the leader of its build.
pub fn is_leader(job: &str) -> (leader: bool)
    ensures
        leader == leads(job@),
{
    proof {
        lemma_leads_by_last_two(job@);
    }
    let n: usize = job.unicode_len();
    if n == 0 {
        return false;
    }
    if job.get_char(n - 1) != '1' {
        return false;
    }
    if n == 1 {
        return true;
    }
    job.get_char(n - 2) == SEPARATOR
}

} // verus!
