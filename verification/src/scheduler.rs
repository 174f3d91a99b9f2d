//! One round: a fixed number of lifecycles, launched together and awaited together.
//!
//! A [`RoundScheduler`] performs nothing itself. It says whether the next
//! thing to do is to launch a lifecycle, to wait for one to finish, or to
//! close the round, and it is told of each lifecycle that has finished.

use crate::lifecycle::LifecycleOutcome;
use vstd::prelude::*;

verus! {

/// What the driver of a round does next.
#[derive(Clone, Copy, Debug, PartialEq, Eq, Structural)]
pub enum RoundStep {
    /// Launch the lifecycle at this position of the round.
    Launch { index: u32 },
    /// Wait until a lifecycle in flight finishes, then report its outcome.
    Wait,
    /// Every lifecycle of the round has finished.
    Complete,
}

/// The state of one round.
pub struct RoundState {
    /// How many lifecycles the round launches, and how many may be in flight together.
    pub concurrency: u32,
    /// How many lifecycles have been launched so far.
    pub launched: u32,
    /// The outcomes of the lifecycles that have finished, in the order they were reported.
    pub outcomes: Seq<LifecycleOutcome>,
}

impl RoundState {
    /// A round in which nothing has been launched yet.
    pub open spec fn fresh(concurrency: u32) -> RoundState {
        RoundState { concurrency, launched: 0, outcomes: Seq::empty() }
    }

    /// The states that a round can be in: no more lifecycles have finished
    /// than were launched, and no more were launched than the round holds.
    pub open spec fn wf(self) -> bool {
        self.outcomes.len() <= self.launched <= self.concurrency
    }

    /// How many lifecycles are launched and have not finished.
    pub open spec fn in_flight(self) -> int {
        self.launched - self.outcomes.len()
    }

    /// Whether every lifecycle of the round has been launched and has finished.
    pub open spec fn is_complete(self) -> bool {
        self.launched == self.concurrency && self.outcomes.len() == self.concurrency
    }

    /// What the driver does next.
    pub open spec fn step(self) -> RoundStep {
        if self.launched < self.concurrency {
            RoundStep::Launch { index: self.launched }
        } else if self.outcomes.len() < self.launched {
            RoundStep::Wait
        } else {
            RoundStep::Complete
        }
    }

    /// The state once the driver has taken its next step.
    pub open spec fn after_step(self) -> RoundState {
        if self.launched < self.concurrency {
            RoundState { launched: (self.launched + 1) as u32, ..self }
        } else {
            self
        }
    }

    /// The state once a lifecycle has reported its outcome. A report that
    /// no lifecycle in flight can have made is dropped.
    pub open spec fn after_outcome(self, outcome: LifecycleOutcome) -> RoundState {
        if self.outcomes.len() < self.launched {
            RoundState { outcomes: self.outcomes.push(outcome), ..self }
        } else {
            self
        }
    }

    /// How many launches and reports the round still needs before it is complete.
    pub open spec fn work_left(self) -> int {
        (self.concurrency - self.launched) + (self.concurrency - self.outcomes.len())
    }
}

/// The scheduler of one round.
#[derive(Debug)]
pub struct RoundScheduler {
    concurrency: u32,
    launched: u32,
    outcomes: Vec<LifecycleOutcome>,
}

impl View for RoundScheduler {
    type V = RoundState;

    closed spec fn view(&self) -> RoundState {
        RoundState {
            concurrency: self.concurrency,
            launched: self.launched,
            outcomes: self.outcomes@,
        }
    }
}

impl RoundScheduler {
    /// The scheduler of a round of `concurrency` lifecycles.
    pub fn new(concurrency: u32) -> (scheduler: RoundScheduler)
        ensures
            scheduler@ == RoundState::fresh(concurrency),
            scheduler@.wf(),
    {
        RoundScheduler { concurrency, launched: 0, outcomes: Vec::new() }
    }

    /// Says what to do next, and counts the launch where that is a launch.
    ///
    /// Lifecycles are launched at positions 0, 1, 2, ... until the round
    /// holds `concurrency` of them; then the driver waits while any is in
    /// flight; then the round is complete.
    pub fn next_step(&mut self) -> (step: RoundStep)
        requires
            old(self)@.wf(),
        ensures
            step == old(self)@.step(),
            final(self)@ == old(self)@.after_step(),
            final(self)@.wf(),
    {
        if self.launched < self.concurrency {
            let index: u32 = self.launched;
            self.launched = index + 1;
            RoundStep::Launch { index }
        } else if self.outcomes.len() < self.launched as usize {
            RoundStep::Wait
        } else {
            RoundStep::Complete
        }
    }

    /// Takes in the outcome of a lifecycle that has finished. Returns
    /// whether a lifecycle was in flight; if none was, the report is dropped.
    pub fn lifecycle_finished(&mut self, outcome: LifecycleOutcome) -> (accepted: bool)
        requires
            old(self)@.wf(),
        ensures
            accepted == (old(self)@.in_flight() > 0),
            final(self)@ == old(self)@.after_outcome(outcome),
            final(self)@.wf(),
    {
        if self.outcomes.len() < self.launched as usize {
            self.outcomes.push(outcome);
            true
        } else {
            false
        }
    }

    /// How many lifecycles the round launches.
    pub fn concurrency(&self) -> (n: u32)
        ensures
            n == self@.concurrency,
    {
        self.concurrency
    }

    /// How many lifecycles have been launched so far.
    pub fn launched(&self) -> (n: u32)
        ensures
            n == self@.launched,
    {
        self.launched
    }

    /// How many lifecycles are launched and have not finished.
    pub fn in_flight(&self) -> (n: u32)
        requires
            self@.wf(),
        ensures
            n == self@.in_flight(),
            n <= self@.concurrency,
    {
        let finished: usize = self.outcomes.len();
        let launched: usize = self.launched as usize;
        let in_flight: usize = launched - finished;
        in_flight as u32
    }

    /// Whether every lifecycle of the round has been launched and has finished.
    pub fn is_complete(&self) -> (complete: bool)
        ensures
            complete == self@.is_complete(),
    {
        self.launched == self.concurrency && self.outcomes.len() == self.concurrency as usize
    }

    /// The outcomes reported so far, in the order they came in.
    pub fn outcomes(&self) -> (outcomes: &Vec<LifecycleOutcome>)
        ensures
            outcomes@ == self@.outcomes,
    {
        &self.outcomes
    }
}

/// In every state of a round, the number of lifecycles in flight is at
/// most the configured concurrency, and it stays so after every step and
/// every report.
pub proof fn lemma_in_flight_bounded(state: RoundState, outcome: LifecycleOutcome)
    requires
        state.wf(),
    ensures
        0 <= state.in_flight() <= state.concurrency,
        state.after_step().wf(),
        state.after_outcome(outcome).wf(),
        0 <= state.after_step().in_flight() <= state.concurrency,
        0 <= state.after_outcome(outcome).in_flight() <= state.concurrency,
{
}

/// A round launches its lifecycles at positions 0, 1, 2, ... and never
/// launches more than `concurrency` of them: a launch is due exactly while
/// fewer have been launched, and it brings the count up by one.
pub proof fn lemma_launches_are_counted(state: RoundState)
    requires
        state.wf(),
    ensures
        state.step() is Launch <==> state.launched < state.concurrency,
        state.step() is Launch ==> state.step() == (RoundStep::Launch { index: state.launched })
            && state.after_step().launched == state.launched + 1,
        !(state.step() is Launch) ==> state.after_step() == state,
        state.after_step().outcomes == state.outcomes,
{
}

/// A round always comes to its end: every launch and every accepted report
/// takes one off the work that is left, the driver waits only while a
/// lifecycle is in flight, and the round is complete exactly when no work
/// is left. Each lifecycle contributes exactly one outcome.
pub proof fn lemma_round_terminates(state: RoundState, outcome: LifecycleOutcome)
    requires
        state.wf(),
    ensures
        state.work_left() >= 0,
        state.step() is Launch ==> state.after_step().work_left() == state.work_left() - 1,
        state.step() is Wait ==> state.in_flight() > 0,
        state.in_flight() > 0 ==> state.after_outcome(outcome).work_left() == state.work_left()
            - 1,
        state.in_flight() > 0 ==> state.after_outcome(outcome).outcomes == state.outcomes.push(
            outcome,
        ),
        state.step() is Complete <==> state.work_left() == 0,
        state.step() is Complete <==> state.is_complete(),
{
}

} // verus!
