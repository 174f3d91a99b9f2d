//! The life of one simulated transaction: start, operate, resolve.
//!
//! A [`Lifecycle`] never performs a call. It names the call that is due,
//! and moves on when it is told that the call has come back. One call is due
//! at a time, so the calls of a lifecycle go out strictly one after another.

use crate::backend::{Call, CallFailure, StartFailure, TransactionHandle, CALL_DEADLINE_MILLIS};
use crate::strategy::{Resolution, Strategy};
use vstd::prelude::*;

verus! {

/// How many times a lifecycle repeats its pair of operation calls.
pub const OPERATION_ROUNDS: u32 = 2;

/// How many operation calls a lifecycle issues: in each round a single
/// operation, then a batch.
pub const OPERATION_CALLS: u32 = 4;

/// How a lifecycle that held a transaction left it.
#[derive(Clone, Copy, Debug, PartialEq, Eq, Structural)]
pub enum Completion {
    Committed,
    RolledBack,
    AbandonedBeforeResolution,
}

/// The final word on one lifecycle.
#[derive(Clone, Copy, Debug, PartialEq, Eq, Structural)]
pub enum LifecycleOutcome {
    /// The start call yielded no handle.
    NoTransaction,
    /// The lifecycle held a transaction and went through all its calls.
    Completed(Completion),
}

/// Where a lifecycle stands.
#[derive(Clone, Debug, PartialEq, Eq)]
pub enum Stage {
    /// The start call is due.
    Start,
    /// The transaction is open; `completed` operation calls have come back.
    Operating { handle: TransactionHandle, completed: u32 },
    /// All operations have come back; the commit or rollback is due.
    Resolving { handle: TransactionHandle, resolution: Resolution },
    /// Nothing is due any more.
    Done { outcome: LifecycleOutcome },
}

/// Everything that determines what a lifecycle does next.
#[derive(Clone, Debug, PartialEq, Eq)]
pub struct LifecycleState {
    /// The position of the lifecycle within its round.
    pub index: u32,
    pub strategy: Strategy,
    pub timeout_millis: u32,
    pub max_wait_millis: u32,
    pub stage: Stage,
}

/// The operation call at a position: a single operation at even positions, a batch at odd ones.
pub open spec fn operation_call(handle: TransactionHandle, position: int) -> Call {
    if position % 2 == 0 {
        Call::SingleOperation { handle }
    } else {
        Call::BatchOperation { handle }
    }
}

/// The calls that resolve a transaction: one commit, one rollback, or none at all.
pub open spec fn resolving_calls(handle: TransactionHandle, resolution: Resolution) -> Seq<Call> {
    match resolution {
        Resolution::Commit => seq![Call::Commit { handle }],
        Resolution::Rollback => seq![Call::Rollback { handle }],
        Resolution::Abandon => Seq::empty(),
    }
}

/// Every call of a lifecycle that follows a successful start, in order.
pub open spec fn script(handle: TransactionHandle, resolution: Resolution) -> Seq<Call> {
    Seq::new(OPERATION_CALLS as nat, |position: int| operation_call(handle, position))
        + resolving_calls(handle, resolution)
}

/// How a transaction was left, given how it was to be resolved.
pub open spec fn completion_of(resolution: Resolution) -> Completion {
    match resolution {
        Resolution::Commit => Completion::Committed,
        Resolution::Rollback => Completion::RolledBack,
        Resolution::Abandon => Completion::AbandonedBeforeResolution,
    }
}

impl LifecycleState {
    /// The state of a lifecycle that has not issued anything yet.
    pub open spec fn fresh(
        index: u32,
        strategy: Strategy,
        timeout_millis: u32,
        max_wait_millis: u32,
    ) -> LifecycleState {
        LifecycleState { index, strategy, timeout_millis, max_wait_millis, stage: Stage::Start }
    }

    /// How this lifecycle resolves its transaction.
    pub open spec fn resolution(self) -> Resolution {
        self.strategy.resolution(self.index)
    }

    /// The states that a lifecycle can be in.
    pub open spec fn wf(self) -> bool {
        match self.stage {
            Stage::Start => true,
            Stage::Operating { handle, completed } => completed < OPERATION_CALLS,
            Stage::Resolving { handle, resolution } => resolution == self.resolution()
                && resolution != Resolution::Abandon,
            Stage::Done { outcome } => outcome == LifecycleOutcome::NoTransaction || outcome
                == LifecycleOutcome::Completed(completion_of(self.resolution())),
        }
    }

    /// The calls that this lifecycle is still certain to issue, in order.
    /// Before the start call has come back, that is the start call alone.
    pub open spec fn remaining_calls(self) -> Seq<Call> {
        match self.stage {
            Stage::Start => seq![
                Call::Start {
                    timeout_millis: self.timeout_millis,
                    max_wait_millis: self.max_wait_millis,
                },
            ],
            Stage::Operating { handle, completed } => script(handle, self.resolution()).skip(
                completed as int,
            ),
            Stage::Resolving { handle, resolution } => resolving_calls(handle, resolution),
            Stage::Done { outcome } => Seq::empty(),
        }
    }

    /// The call that is due, if any.
    pub open spec fn due_call(self) -> Option<Call> {
        if self.remaining_calls().len() > 0 {
            Some(self.remaining_calls()[0])
        } else {
            None
        }
    }

    /// The outcome, once the lifecycle is done.
    pub open spec fn outcome(self) -> Option<LifecycleOutcome> {
        match self.stage {
            Stage::Done { outcome } => Some(outcome),
            _ => None,
        }
    }

    /// The stage of a lifecycle that holds `handle` once `completed` of its
    /// operation calls have come back: more operations while any is left,
    /// then the resolving call, or the end where the transaction is abandoned.
    pub open spec fn stage_after_operations(
        self,
        handle: TransactionHandle,
        completed: int,
    ) -> Stage {
        if completed < OPERATION_CALLS {
            Stage::Operating { handle, completed: completed as u32 }
        } else if self.resolution() == Resolution::Abandon {
            Stage::Done {
                outcome: LifecycleOutcome::Completed(Completion::AbandonedBeforeResolution),
            }
        } else {
            Stage::Resolving { handle, resolution: self.resolution() }
        }
    }

    /// The state after the start call has come back with `reply`. A handle
    /// opens the operations; a failure ends the lifecycle on the spot. Where
    /// no start call is due the state stays as it is.
    pub open spec fn after_start(
        self,
        reply: Result<TransactionHandle, StartFailure>,
    ) -> LifecycleState {
        match self.stage {
            Stage::Start => match reply {
                Ok(handle) => LifecycleState {
                    stage: Stage::Operating { handle, completed: 0 },
                    ..self
                },
                Err(_) => LifecycleState {
                    stage: Stage::Done { outcome: LifecycleOutcome::NoTransaction },
                    ..self
                },
            },
            _ => self,
        }
    }

    /// The state after the due operation, commit or rollback call has come
    /// back, whatever it came back with. Where no such call is due the state
    /// stays as it is.
    pub open spec fn after_call(self) -> LifecycleState {
        match self.stage {
            Stage::Operating { handle, completed } => LifecycleState {
                stage: self.stage_after_operations(handle, completed + 1),
                ..self
            },
            Stage::Resolving { handle, resolution } => LifecycleState {
                stage: Stage::Done {
                    outcome: LifecycleOutcome::Completed(completion_of(resolution)),
                },
                ..self
            },
            _ => self,
        }
    }
}

/// One simulated transaction, from its start call to its outcome.
#[derive(Debug)]
pub struct Lifecycle {
    state: LifecycleState,
}

impl View for Lifecycle {
    type V = LifecycleState;

    closed spec fn view(&self) -> LifecycleState {
        self.state
    }
}

impl Lifecycle {
    /// A lifecycle at position `index` of its round, with nothing issued yet.
    pub fn new(index: u32, strategy: Strategy, timeout_millis: u32, max_wait_millis: u32) -> (fresh:
        Lifecycle)
        ensures
            fresh@ == LifecycleState::fresh(index, strategy, timeout_millis, max_wait_millis),
            fresh@.wf(),
    {
        Lifecycle {
            state: LifecycleState {
                index,
                strategy,
                timeout_millis,
                max_wait_millis,
                stage: Stage::Start,
            },
        }
    }

    /// The position of this lifecycle within its round.
    pub fn index(&self) -> (index: u32)
        ensures
            index == self@.index,
    {
        self.state.index
    }

    /// A copy of the state, for inspection and reporting.
    pub fn state(&self) -> (state: LifecycleState)
        ensures
            state == self@,
    {
        LifecycleState {
            index: self.state.index,
            strategy: self.state.strategy,
            timeout_millis: self.state.timeout_millis,
            max_wait_millis: self.state.max_wait_millis,
            stage: match &self.state.stage {
                Stage::Start => Stage::Start,
                Stage::Operating { handle, completed } => Stage::Operating {
                    handle: handle.clone(),
                    completed: *completed,
                },
                Stage::Resolving { handle, resolution } => Stage::Resolving {
                    handle: handle.clone(),
                    resolution: *resolution,
                },
                Stage::Done { outcome } => Stage::Done { outcome: *outcome },
            },
        }
    }

    /// The call that is due: the first of the remaining calls, or `None`
    /// once the lifecycle is done.
    pub fn pending_call(&self) -> (call: Option<Call>)
        requires
            self@.wf(),
        ensures
            call == self@.due_call(),
            call is None <==> self@.stage is Done,
    {
        match &self.state.stage {
            Stage::Start => Some(
                Call::Start {
                    timeout_millis: self.state.timeout_millis,
                    max_wait_millis: self.state.max_wait_millis,
                },
            ),
            Stage::Operating { handle, completed } => {
                if *completed % 2 == 0 {
                    Some(Call::SingleOperation { handle: handle.clone() })
                } else {
                    Some(Call::BatchOperation { handle: handle.clone() })
                }
            },
            Stage::Resolving { handle, resolution } => match resolution {
                Resolution::Rollback => Some(Call::Rollback { handle: handle.clone() }),
                _ => Some(Call::Commit { handle: handle.clone() }),
            },
            Stage::Done { .. } => None,
        }
    }

    /// Takes in what the start call came back with.
    ///
    /// With a handle the operations begin. With a failure the lifecycle is
    /// done, its outcome is `NoTransaction`, and no further call is ever due.
    pub fn complete_start(&mut self, reply: Result<TransactionHandle, StartFailure>)
        requires
            old(self)@.wf(),
        ensures
            final(self)@ == old(self)@.after_start(reply),
            final(self)@.wf(),
    {
        if let Stage::Start = &self.state.stage {
            match reply {
                Ok(handle) => {
                    self.state.stage = Stage::Operating { handle, completed: 0 };
                },
                Err(_) => {
                    self.state.stage = Stage::Done { outcome: LifecycleOutcome::NoTransaction };
                },
            }
        }
    }

    /// Takes in what the due operation, commit or rollback call came back with.
    ///
    /// A failed or timed-out call counts as complete: the lifecycle moves on
    /// exactly as after a success, and `reply` does not change where it goes.
    pub fn complete_call(&mut self, reply: Result<(), CallFailure>)
        requires
            old(self)@.wf(),
        ensures
            final(self)@ == old(self)@.after_call(),
            final(self)@.wf(),
    {
        let next = match &self.state.stage {
            Stage::Operating { handle, completed } => {
                if *completed + 1 < OPERATION_CALLS {
                    Some(Stage::Operating { handle: handle.clone(), completed: *completed + 1 })
                } else {
                    match self.state.strategy.decide(self.state.index) {
                        Resolution::Abandon => Some(
                            Stage::Done {
                                outcome: LifecycleOutcome::Completed(
                                    Completion::AbandonedBeforeResolution,
                                ),
                            },
                        ),
                        resolution => Some(Stage::Resolving { handle: handle.clone(), resolution }),
                    }
                }
            },
            Stage::Resolving { handle, resolution } => Some(
                Stage::Done {
                    outcome: LifecycleOutcome::Completed(
                        match resolution {
                            Resolution::Commit => Completion::Committed,
                            Resolution::Rollback => Completion::RolledBack,
                            Resolution::Abandon => Completion::AbandonedBeforeResolution,
                        },
                    ),
                },
            ),
            _ => None,
        };
        if let Some(stage) = next {
            self.state.stage = stage;
        }
    }

    /// Whether nothing is due any more.
    pub fn is_done(&self) -> (done: bool)
        ensures
            done == (self@.stage is Done),
    {
        match &self.state.stage {
            Stage::Done { .. } => true,
            _ => false,
        }
    }

    /// The outcome, once the lifecycle is done.
    pub fn outcome(&self) -> (outcome: Option<LifecycleOutcome>)
        ensures
            outcome == self@.outcome(),
    {
        match &self.state.stage {
            Stage::Done { outcome } => Some(*outcome),
            _ => None,
        }
    }
}

impl LifecycleState {
    /// The state after `count` further operation, commit or rollback calls have come back.
    pub open spec fn after_calls(self, count: nat) -> LifecycleState
        decreases count,
    {
        if count == 0 {
            self
        } else {
            self.after_call().after_calls((count - 1) as nat)
        }
    }
}

/// After a successful start a lifecycle issues two rounds of a single
/// operation and a batch, and then at most one resolving call.
pub proof fn lemma_script_shape(handle: TransactionHandle, resolution: Resolution)
    ensures
        script(handle, resolution) == seq![
            Call::SingleOperation { handle },
            Call::BatchOperation { handle },
            Call::SingleOperation { handle },
            Call::BatchOperation { handle },
        ] + resolving_calls(handle, resolution),
        script(handle, resolution).len() == OPERATION_CALLS + resolving_calls(
            handle,
            resolution,
        ).len(),
        OPERATION_CALLS == 2 * OPERATION_ROUNDS,
{
    let operations = Seq::new(
        OPERATION_CALLS as nat,
        |position: int| operation_call(handle, position),
    );
    assert(operations =~= seq![
        Call::SingleOperation { handle },
        Call::BatchOperation { handle },
        Call::SingleOperation { handle },
        Call::BatchOperation { handle },
    ]);
}

/// A lifecycle whose start call fails is done at once, with the outcome
/// `NoTransaction`: no call remains, and whatever is reported to it
/// afterwards changes nothing.
pub proof fn lemma_failed_start_ends_lifecycle(
    state: LifecycleState,
    failure: StartFailure,
    later: Result<TransactionHandle, StartFailure>,
)
    requires
        state.stage is Start,
    ensures
        state.after_start(Err(failure)).remaining_calls() == Seq::<Call>::empty(),
        state.after_start(Err(failure)).due_call() is None,
        state.after_start(Err(failure)).outcome() == Some(LifecycleOutcome::NoTransaction),
        state.after_start(Err(failure)).after_call() == state.after_start(Err(failure)),
        state.after_start(Err(failure)).after_start(later) == state.after_start(Err(failure)),
{
}

/// A lifecycle whose start call yields a handle has exactly its script
/// ahead of it, every call tagged with that handle.
pub proof fn lemma_started_lifecycle_follows_script(
    state: LifecycleState,
    handle: TransactionHandle,
)
    requires
        state.stage is Start,
    ensures
        state.after_start(Ok(handle)).remaining_calls() == script(handle, state.resolution()),
        state.after_start(Ok(handle)).wf(),
{
    let started = state.after_start(Ok(handle));
    assert(started.remaining_calls() =~= script(handle, state.resolution()));
}

/// Each call that comes back, with whatever result, takes exactly the due
/// call off the remaining calls and leaves the rest as it was.
pub proof fn lemma_call_consumes_due_call(state: LifecycleState)
    requires
        state.wf(),
        state.stage is Operating || state.stage is Resolving,
    ensures
        state.remaining_calls().len() > 0,
        state.after_call().remaining_calls() == state.remaining_calls().drop_first(),
        state.after_call().wf(),
{
    match state.stage {
        Stage::Operating { handle, completed } => {
            lemma_script_shape(handle, state.resolution());
            let whole = script(handle, state.resolution());
            assert(state.after_call().remaining_calls() =~= whole.skip(completed + 1));
            assert(whole.skip(completed as int).drop_first() =~= whole.skip(completed + 1));
        },
        Stage::Resolving { handle, resolution } => {
            assert(state.after_call().remaining_calls() =~= resolving_calls(
                handle,
                resolution,
            ).drop_first());
        },
        _ => {},
    }
}

/// A lifecycle that holds a transaction is done once as many calls have
/// come back as remained, however each of them ended, and its outcome is
/// the one its strategy decides for its position.
pub proof fn lemma_lifecycle_completes(state: LifecycleState)
    requires
        state.wf(),
        state.stage is Operating || state.stage is Resolving,
    ensures
        state.after_calls(state.remaining_calls().len()).outcome() == Some(
            LifecycleOutcome::Completed(completion_of(state.resolution())),
        ),
    decreases state.remaining_calls().len(),
{
    lemma_call_consumes_due_call(state);
    let next = state.after_call();
    let left = state.remaining_calls().len();
    assert(next.remaining_calls().len() == left - 1);
    assert(state.after_calls(left) == next.after_calls((left - 1) as nat));
    if next.stage is Done {
        assert(next.remaining_calls().len() == 0);
        assert(next.after_calls(0) == next);
    } else {
        assert(next.resolution() == state.resolution());
        lemma_lifecycle_completes(next);
    }
}

/// A resolving call that fails or times out still ends the lifecycle: once
/// it has come back the lifecycle is done and has its one outcome.
pub proof fn lemma_resolving_call_ends_lifecycle(state: LifecycleState)
    requires
        state.wf(),
        state.stage is Resolving,
    ensures
        state.after_call().stage is Done,
        state.after_call().outcome() == Some(
            LifecycleOutcome::Completed(completion_of(state.resolution())),
        ),
        state.after_call().due_call() is None,
{
}

/// Every call that follows a successful start is tagged with the handle
/// that the start yielded, and has the fixed deadline.
pub proof fn lemma_scripted_calls_are_tagged_and_bounded(
    handle: TransactionHandle,
    resolution: Resolution,
    position: int,
)
    requires
        0 <= position < script(handle, resolution).len(),
    ensures
        script(handle, resolution)[position].spec_handle() == Some(handle),
        script(handle, resolution)[position].spec_deadline_millis() == Some(
            CALL_DEADLINE_MILLIS,
        ),
{
    lemma_script_shape(handle, resolution);
}

} // verus!
