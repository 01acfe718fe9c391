//! The wait protocol of the leader, one transition at a time.
//!
//! The leader blocks until every other job of the build has finished and
//! then reports whether all of them succeeded. Between two decisions the
//! caller does the work that needs the outside world: it fetches a snapshot
//! or sleeps. The protocol is therefore a machine: the caller hands in the
//! state and what happened, and gets back the next state and what to do.
//!
//! ```text
//! NotLeaderGuard --(follower)------------------------------> Aborted(NotLeader)
//! NotLeaderGuard --(leader)--> Polling
//! Polling     --(snapshot, peers running)--> Polling      [sleep, then fetch]
//! Polling     --(snapshot, peers finished)-> Confirming   [fetch once more]
//! Polling     --(fetch failed)-------------> Aborted(error)
//! Confirming  --(snapshot, peers succeeded)-> Succeeded
//! Confirming  --(snapshot, a peer failed)---> Failed
//! Confirming  --(fetch failed)-------------> Aborted(error)
//! ```
//!
//! The machine has no bound on the number of polls: it ends when the build
//! does, or when a fetch fails.

use vstd::prelude::*;
use crate::config::{Build, BuildView};
use crate::error::{Error, ErrorView};
use crate::matrix::{Matrix, MatrixView};

verus! {

/// Where the wait protocol stands.
#[derive(Debug, PartialEq, Eq)]
pub enum WaitState {
    /// Nothing has happened yet: the role is checked first.
    NotLeaderGuard,
    /// The leader waits for its peers to finish.
    Polling,
    /// The peers have finished; a fresh snapshot is read for their results.
    Confirming,
    /// Every peer finished and succeeded.
    Succeeded,
    /// Every peer finished, and at least one did not succeed.
    Failed,
    /// The wait ended early with this error.
    Aborted(Error),
}

/// The mathematical value of a [`WaitState`].
pub enum WaitStateView {
    NotLeaderGuard,
    Polling,
    Confirming,
    Succeeded,
    Failed,
    Aborted(ErrorView),
}

/// What the caller reports to the protocol.
#[derive(Debug, PartialEq, Eq)]
pub enum WaitEvent {
    /// Nothing to report: the wait begins, or a sleep has ended.
    Ready,
    /// A fetch has ended, with a snapshot or with an error.
    Fetched(Result<Matrix, Error>),
}

/// The mathematical value of a [`WaitEvent`].
pub enum WaitEventView {
    Ready,
    Fetched(Result<MatrixView, ErrorView>),
}

/// What the caller has to do before it reports again.
#[derive(Debug, Clone, Copy, PartialEq, Eq)]
pub enum WaitAction {
    /// Fetch a fresh snapshot and report it.
    Fetch,
    /// Sleep for this many seconds and report that nothing happened.
    Sleep(u64),
    /// Nothing: the wait has ended, and the state holds its outcome.
    Stop,
}

impl View for WaitState {
    type V = WaitStateView;

    open spec fn view(&self) -> WaitStateView {
        match self {
            WaitState::NotLeaderGuard => WaitStateView::NotLeaderGuard,
            WaitState::Polling => WaitStateView::Polling,
            WaitState::Confirming => WaitStateView::Confirming,
            WaitState::Succeeded => WaitStateView::Succeeded,
            WaitState::Failed => WaitStateView::Failed,
            WaitState::Aborted(error) => WaitStateView::Aborted(error@),
        }
    }
}

impl View for WaitEvent {
    type V = WaitEventView;

    open spec fn view(&self) -> WaitEventView {
        match self {
            WaitEvent::Ready => WaitEventView::Ready,
            WaitEvent::Fetched(Ok(matrix)) => WaitEventView::Fetched(Ok(matrix@)),
            WaitEvent::Fetched(Err(error)) => WaitEventView::Fetched(Err(error@)),
        }
    }
}

impl WaitStateView {
    /// The wait has ended in this state.
    pub open spec fn is_terminal(self) -> bool {
        self is Succeeded || self is Failed || self is Aborted
    }

    /// What the wait came to: nothing while it is under way, else success
    /// or the error that ended it.
    pub open spec fn outcome(self) -> Option<Result<(), ErrorView>> {
        match self {
            WaitStateView::Succeeded => Some(Ok(())),
            WaitStateView::Failed => Some(Err(ErrorView::FailedBuilds)),
            WaitStateView::Aborted(error) => Some(Err(error)),
            _ => None,
        }
    }
}

/// One transition of the wait protocol.
///
/// The guard looks at the role and at nothing else. While polling or
/// confirming, a report without a snapshot asks for the fetch again. A state
/// in which the wait has ended is never left.
pub open spec fn transition(build: BuildView, state: WaitStateView, event: WaitEventView) -> (
    WaitStateView,
    WaitAction,
) {
    match state {
        WaitStateView::NotLeaderGuard => if build.is_leader() {
            (WaitStateView::Polling, WaitAction::Fetch)
        } else {
            (WaitStateView::Aborted(ErrorView::NotLeader), WaitAction::Stop)
        },
        WaitStateView::Polling => match event {
            WaitEventView::Ready => (WaitStateView::Polling, WaitAction::Fetch),
            WaitEventView::Fetched(Err(error)) => (WaitStateView::Aborted(error), WaitAction::Stop),
            WaitEventView::Fetched(Ok(matrix)) => if matrix.others_finished() {
                (WaitStateView::Confirming, WaitAction::Fetch)
            } else {
                (WaitStateView::Polling, WaitAction::Sleep(build.polling_interval))
            },
        },
        WaitStateView::Confirming => match event {
            WaitEventView::Ready => (WaitStateView::Confirming, WaitAction::Fetch),
            WaitEventView::Fetched(Err(error)) => (WaitStateView::Aborted(error), WaitAction::Stop),
            WaitEventView::Fetched(Ok(matrix)) => if matrix.others_succeeded() {
                (WaitStateView::Succeeded, WaitAction::Stop)
            } else {
                (WaitStateView::Failed, WaitAction::Stop)
            },
        },
        _ => (state, WaitAction::Stop),
    }
}

/// The state that a run of the protocol reaches: the transitions for the
/// reported events, taken one after the other from `state`.
pub open spec fn state_after(
    build: BuildView,
    state: WaitStateView,
    events: Seq<WaitEventView>,
) -> WaitStateView
    decreases events.len(),
{
    if events.len() == 0 {
        state
    } else {
        transition(build, state_after(build, state, events.drop_last()), events.last()).0
    }
}

/// A job that is not the leader is turned away at the guard: the wait ends
/// with `NotLeader`, whatever was reported, and no fetch is asked for.
pub proof fn lemma_follower_is_turned_away(build: BuildView, event: WaitEventView)
    requires
        !build.is_leader(),
    ensures
        transition(build, WaitStateView::NotLeaderGuard, event) == (
            WaitStateView::Aborted(ErrorView::NotLeader),
            WaitAction::Stop,
        ),
{
}

/// A fetch that fails ends the wait at once, with the error of the fetch:
/// the protocol asks for no retry.
pub proof fn lemma_failed_fetch_ends_wait(
    build: BuildView,
    state: WaitStateView,
    error: ErrorView,
)
    requires
        state is Polling || state is Confirming,
    ensures
        transition(build, state, WaitEventView::Fetched(Err(error))) == (
            WaitStateView::Aborted(error),
            WaitAction::Stop,
        ),
{
}

/// The caller is told to stop exactly when the wait has ended, and the
/// wait has ended exactly when the state holds an outcome.
pub proof fn lemma_stop_iff_ended(build: BuildView, state: WaitStateView, event: WaitEventView)
    ensures
        transition(build, state, event).1 is Stop <==> transition(
            build,
            state,
            event,
        ).0.is_terminal(),
        state.is_terminal() <==> state.outcome() is Some,
{
}

/// A state in which the wait has ended is never left, whatever is reported
/// afterwards.
pub proof fn lemma_ended_is_final(
    build: BuildView,
    state: WaitStateView,
    events: Seq<WaitEventView>,
)
    requires
        state.is_terminal(),
    ensures
        state_after(build, state, events) == state,
    decreases events.len(),
{
    if events.len() > 0 {
        lemma_ended_is_final(build, state, events.drop_last());
    }
}

/// The wait succeeds only on a confirming snapshot in which every peer has
/// finished and succeeded.
pub proof fn lemma_success_is_confirmed(
    build: BuildView,
    state: WaitStateView,
    event: WaitEventView,
)
    requires
        !(state is Succeeded),
        transition(build, state, event).0 is Succeeded,
    ensures
        state is Confirming,
        event matches WaitEventView::Fetched(Ok(matrix)) && matrix.others_succeeded()
            && matrix.others_finished(),
{
}

/// The protocol sleeps only while it polls, only after a snapshot in which
/// a peer is still running, and only for the configured interval.
pub proof fn lemma_sleep_is_between_polls(
    build: BuildView,
    state: WaitStateView,
    event: WaitEventView,
)
    requires
        transition(build, state, event).1 is Sleep,
    ensures
        state is Polling,
        transition(build, state, event) == (
            WaitStateView::Polling,
            WaitAction::Sleep(build.polling_interval),
        ),
        event matches WaitEventView::Fetched(Ok(matrix)) && !matrix.others_finished(),
{
}

/// What the confirming fetch decides: nothing while its answer is
/// outstanding, else success, `FailedBuilds` or the error of the fetch.
pub open spec fn confirmed(answers: Seq<Result<MatrixView, ErrorView>>) -> Option<
    Result<(), ErrorView>,
> {
    if answers.len() == 0 {
        None
    } else {
        match answers[0] {
            Err(error) => Some(Err(error)),
            Ok(matrix) => if matrix.others_succeeded() {
                Some(Ok(()))
            } else {
                Some(Err(ErrorView::FailedBuilds))
            },
        }
    }
}

/// What the polling loop comes to on the answers of its fetches, taken in
/// order: the first error ends it; the first snapshot in which the peers
/// have finished hands over to the confirming fetch; nothing is decided
/// while the answers run out before that.
pub open spec fn polled(answers: Seq<Result<MatrixView, ErrorView>>) -> Option<
    Result<(), ErrorView>,
>
    decreases answers.len(),
{
    if answers.len() == 0 {
        None
    } else {
        match answers[0] {
            Err(error) => Some(Err(error)),
            Ok(matrix) => if matrix.others_finished() {
                confirmed(answers.skip(1))
            } else {
                polled(answers.skip(1))
            },
        }
    }
}

/// What the blocking wait of this job comes to, given the answers that its
/// fetches get: `NotLeader` at once for a job that is not the leader, else
/// what the polling loop comes to.
pub open spec fn waited(build: BuildView, answers: Seq<Result<MatrixView, ErrorView>>) -> Option<
    Result<(), ErrorView>,
> {
    if build.is_leader() {
        polled(answers)
    } else {
        Some(Err(ErrorView::NotLeader))
    }
}

/// The state in which a caller ends that drives the protocol as
/// [`Build::wait_for_others`] asks: it reports `event` in `state`, answers
/// each fetch with the next of `answers`, reports nothing after each
/// sleep, and halts when told to stop or when the answers have run out.
pub open spec fn driven(
    build: BuildView,
    state: WaitStateView,
    event: WaitEventView,
    answers: Seq<Result<MatrixView, ErrorView>>,
) -> WaitStateView
    decreases answers.len(), (if event is Ready { 0nat } else { 1nat }),
{
    let (next, action) = transition(build, state, event);
    match action {
        WaitAction::Stop => next,
        WaitAction::Fetch => if answers.len() == 0 {
            next
        } else {
            driven(build, next, WaitEventView::Fetched(answers[0]), answers.skip(1))
        },
        WaitAction::Sleep(_) => driven(build, next, WaitEventView::Ready, answers),
    }
}

/// Driven from the confirming state, the protocol decides what the
/// confirming fetch decides.
pub proof fn lemma_driven_confirms(
    build: BuildView,
    answer: Result<MatrixView, ErrorView>,
    rest: Seq<Result<MatrixView, ErrorView>>,
)
    ensures
        driven(
            build,
            WaitStateView::Confirming,
            WaitEventView::Fetched(answer),
            rest,
        ).outcome() == confirmed(seq![answer] + rest),
{
}

/// Driven from the polling state, the protocol comes to what the polling
/// loop comes to.
pub proof fn lemma_driven_polls(
    build: BuildView,
    answer: Result<MatrixView, ErrorView>,
    rest: Seq<Result<MatrixView, ErrorView>>,
)
    ensures
        driven(build, WaitStateView::Polling, WaitEventView::Fetched(answer), rest).outcome()
            == polled(seq![answer] + rest),
    decreases rest.len(),
{
    let answers = seq![answer] + rest;
    let start = WaitStateView::Polling;
    assert(answers[0] == answer);
    assert(answers.skip(1) == rest);
    match answer {
        Err(error) => {
            assert(driven(build, start, WaitEventView::Fetched(answer), rest)
                == WaitStateView::Aborted(error));
            assert(polled(answers) == Some(Err::<(), ErrorView>(error)));
        },
        Ok(matrix) => {
            if matrix.others_finished() {
                if rest.len() > 0 {
                    assert(seq![rest[0]] + rest.skip(1) == rest);
                    lemma_driven_confirms(build, rest[0], rest.skip(1));
                    assert(driven(build, start, WaitEventView::Fetched(answer), rest) == driven(
                        build,
                        WaitStateView::Confirming,
                        WaitEventView::Fetched(rest[0]),
                        rest.skip(1),
                    ));
                } else {
                    assert(driven(build, start, WaitEventView::Fetched(answer), rest)
                        == WaitStateView::Confirming);
                }
                assert(polled(answers) == confirmed(rest));
            } else {
                let slept = driven(build, start, WaitEventView::Ready, rest);
                assert(driven(build, start, WaitEventView::Fetched(answer), rest) == slept);
                if rest.len() > 0 {
                    assert(seq![rest[0]] + rest.skip(1) == rest);
                    lemma_driven_polls(build, rest[0], rest.skip(1));
                    assert(slept == driven(
                        build,
                        start,
                        WaitEventView::Fetched(rest[0]),
                        rest.skip(1),
                    ));
                } else {
                    assert(slept == start);
                }
                assert(polled(answers) == polled(rest));
            }
        },
    }
}

/// The protocol, driven from its beginning, comes to exactly what the
/// blocking wait comes to: the machine and the loop are one rule.
pub proof fn lemma_driven_is_waited(
    build: BuildView,
    answers: Seq<Result<MatrixView, ErrorView>>,
)
    ensures
        driven(build, WaitStateView::NotLeaderGuard, WaitEventView::Ready, answers).outcome()
            == waited(build, answers),
{
    if build.is_leader() && answers.len() > 0 {
        assert(seq![answers[0]] + answers.skip(1) == answers);
        lemma_driven_polls(build, answers[0], answers.skip(1));
    }
}

impl WaitState {
    /// The state in which every wait begins.
    pub fn new() -> (state: WaitState)
        ensures
            state@ == WaitStateView::NotLeaderGuard,
    {
        WaitState::NotLeaderGuard
    }

    /// Whether the wait has ended in this state.
    pub fn is_terminal(&self) -> (ended: bool)
        ensures
            ended == self@.is_terminal(),
    {
        match self {
            WaitState::Succeeded => true,
            WaitState::Failed => true,
            WaitState::Aborted(_) => true,
            _ => false,
        }
    }

    /// What the wait came to: `None` while it is under way, else success or
    /// the error that ended it.
    pub fn outcome(self) -> (outcome: Option<Result<(), Error>>)
        ensures
            match outcome {
                None => self@.outcome() is None,
                Some(Ok(_)) => self@.outcome() == Some(Ok::<(), ErrorView>(())),
                Some(Err(error)) => self@.outcome() == Some(Err::<(), ErrorView>(error@)),
            },
    {
        match self {
            WaitState::Succeeded => Some(Ok(())),
            WaitState::Failed => Some(Err(Error::FailedBuilds)),
            WaitState::Aborted(error) => Some(Err(error)),
            _ => None,
        }
    }
}

impl Build {
    /// Wait for all non-leader jobs to finish: one transition of the wait.
    ///
    /// Begin with [`WaitState::new`] and [`WaitEvent::Ready`]. Do what the
    /// returned action says, report what came of it together with the
    /// returned state, and go on until the action is [`WaitAction::Stop`].
    /// The state then holds the outcome: success, `Error::NotLeader` for a
    /// job that is not the leader, `Error::FailedBuilds` if at least one
    /// peer did not succeed, or the error of the fetch that failed.
    pub fn wait_for_others(&self, state: WaitState, event: WaitEvent) -> (next: (
        WaitState,
        WaitAction,
    ))
        ensures
            (next.0@, next.1) == transition(self@, state@, event@),
    {
        match state {
            WaitState::NotLeaderGuard => {
                if self.is_leader() {
                    (WaitState::Polling, WaitAction::Fetch)
                } else {
                    (WaitState::Aborted(Error::NotLeader), WaitAction::Stop)
                }
            },
            WaitState::Polling => match event {
                WaitEvent::Ready => (WaitState::Polling, WaitAction::Fetch),
                WaitEvent::Fetched(Err(error)) => (WaitState::Aborted(error), WaitAction::Stop),
                WaitEvent::Fetched(Ok(matrix)) => {
                    if matrix.others_finished() {
                        (WaitState::Confirming, WaitAction::Fetch)
                    } else {
                        (WaitState::Polling, WaitAction::Sleep(self.polling_interval()))
                    }
                },
            },
            WaitState::Confirming => match event {
                WaitEvent::Ready => (WaitState::Confirming, WaitAction::Fetch),
                WaitEvent::Fetched(Err(error)) => (WaitState::Aborted(error), WaitAction::Stop),
                WaitEvent::Fetched(Ok(matrix)) => {
                    if matrix.others_succeeded() {
                        (WaitState::Succeeded, WaitAction::Stop)
                    } else {
                        (WaitState::Failed, WaitAction::Stop)
                    }
                },
            },
            WaitState::Succeeded => (WaitState::Succeeded, WaitAction::Stop),
            WaitState::Failed => (WaitState::Failed, WaitAction::Stop),
            WaitState::Aborted(error) => (WaitState::Aborted(error), WaitAction::Stop),
        }
    }
}

} // verus!
