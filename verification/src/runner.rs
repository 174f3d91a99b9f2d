//! A whole run: the seed call, then the rounds, strictly one after another.
//!
//! A [`Runner`] performs nothing itself. It says what the driver of the run
//! does next, and it is told of each lifecycle that has finished. A round
//! begins only when the round before it has closed, and a round closes only
//! when each of its lifecycles has reported its outcome.

use crate::lifecycle::{Lifecycle, LifecycleOutcome, LifecycleState};
use crate::opts::Opts;
use crate::scheduler::{RoundScheduler, RoundState, RoundStep};
use crate::strategy::Strategy;
use vstd::prelude::*;

verus! {

/// Where a run stands.
#[derive(Clone, Copy, Debug, PartialEq, Eq, Structural)]
pub enum RunPhase {
    /// The seed call is due.
    Seeding,
    /// No round is open.
    BetweenRounds,
    /// A round is open.
    InRound,
    /// Every round has closed.
    Finished,
}

/// What the driver of a run does next.
#[derive(Clone, Copy, Debug, PartialEq, Eq, Structural)]
pub enum RunStep {
    /// Seed the backend, once, before anything else.
    Seed,
    /// A round opens.
    BeginRound { round: u32 },
    /// Launch the lifecycle at position `index` of the open round.
    Launch { round: u32, index: u32 },
    /// Wait until a lifecycle in flight finishes, then report its outcome.
    Wait,
    /// The open round closes: each of its lifecycles has finished.
    EndRound { round: u32 },
    /// The run is over.
    Finish,
}

/// The state of a run.
pub struct RunState {
    pub strategy: Strategy,
    /// How many lifecycles each round launches.
    pub concurrency: u32,
    /// How many rounds the run has.
    pub attempts: u32,
    pub timeout_millis: u32,
    pub max_wait_millis: u32,
    pub phase: RunPhase,
    /// How many rounds have closed; also the number of the open or the next round.
    pub round: u32,
    /// The open round; between rounds, the round that closed last.
    pub current: RoundState,
    /// How many lifecycles have been launched since the run began.
    pub launched_total: u64,
    /// How many lifecycles have reported their outcome since the run began.
    pub finished_total: u64,
}

impl RunState {
    /// A run in which nothing has happened yet.
    pub open spec fn fresh(
        strategy: Strategy,
        concurrency: u32,
        attempts: u32,
        timeout_millis: u32,
        max_wait_millis: u32,
    ) -> RunState {
        RunState {
            strategy,
            concurrency,
            attempts,
            timeout_millis,
            max_wait_millis,
            phase: RunPhase::Seeding,
            round: 0,
            current: RoundState::fresh(concurrency),
            launched_total: 0,
            finished_total: 0,
        }
    }

    /// The states that a run can be in. The two totals count the lifecycles
    /// of the closed rounds, all launched and all finished, and those of
    /// the open round.
    pub open spec fn wf(self) -> bool {
        &&& self.round <= self.attempts
        &&& self.current.concurrency == self.concurrency
        &&& match self.phase {
            RunPhase::Seeding => self.round == 0 && self.launched_total == 0
                && self.finished_total == 0,
            RunPhase::BetweenRounds => self.launched_total == self.round * self.concurrency
                && self.finished_total == self.round * self.concurrency,
            RunPhase::InRound => self.round < self.attempts && self.current.wf()
                && self.launched_total == self.round * self.concurrency + self.current.launched
                && self.finished_total == self.round * self.concurrency
                + self.current.outcomes.len(),
            RunPhase::Finished => self.round == self.attempts && self.launched_total
                == self.attempts * self.concurrency && self.finished_total == self.attempts
                * self.concurrency,
        }
    }

    /// How many lifecycles are launched and have not finished.
    pub open spec fn in_flight(self) -> int {
        self.launched_total - self.finished_total
    }

    /// What the driver does next.
    pub open spec fn step(self) -> RunStep {
        match self.phase {
            RunPhase::Seeding => RunStep::Seed,
            RunPhase::BetweenRounds => if self.round < self.attempts {
                RunStep::BeginRound { round: self.round }
            } else {
                RunStep::Finish
            },
            RunPhase::InRound => match self.current.step() {
                RoundStep::Launch { index } => RunStep::Launch { round: self.round, index },
                RoundStep::Wait => RunStep::Wait,
                RoundStep::Complete => RunStep::EndRound { round: self.round },
            },
            RunPhase::Finished => RunStep::Finish,
        }
    }

    /// The state once the driver has taken its next step.
    pub open spec fn after_step(self) -> RunState {
        match self.phase {
            RunPhase::Seeding => RunState { phase: RunPhase::BetweenRounds, ..self },
            RunPhase::BetweenRounds => if self.round < self.attempts {
                RunState {
                    phase: RunPhase::InRound,
                    current: RoundState::fresh(self.concurrency),
                    ..self
                }
            } else {
                RunState { phase: RunPhase::Finished, ..self }
            },
            RunPhase::InRound => match self.current.step() {
                RoundStep::Launch { index } => RunState {
                    current: self.current.after_step(),
                    launched_total: (self.launched_total + 1) as u64,
                    ..self
                },
                RoundStep::Wait => self,
                RoundStep::Complete => RunState {
                    phase: RunPhase::BetweenRounds,
                    round: (self.round + 1) as u32,
                    ..self
                },
            },
            RunPhase::Finished => self,
        }
    }

    /// The state once a lifecycle has reported its outcome. A report that
    /// no lifecycle in flight can have made is dropped.
    pub open spec fn after_outcome(self, outcome: LifecycleOutcome) -> RunState {
        if self.phase == RunPhase::InRound && self.current.in_flight() > 0 {
            RunState {
                current: self.current.after_outcome(outcome),
                finished_total: (self.finished_total + 1) as u64,
                ..self
            }
        } else {
            self
        }
    }

    /// The steps of one whole round: it opens, launches and takes a report
    /// for each lifecycle, and closes.
    pub open spec fn round_work(self) -> int {
        2 * self.concurrency + 2
    }

    /// How many steps and reports the run still needs before it is over.
    pub open spec fn work_left(self) -> int {
        match self.phase {
            RunPhase::Seeding => 2 + self.attempts * self.round_work(),
            RunPhase::BetweenRounds => 1 + (self.attempts - self.round) * self.round_work(),
            RunPhase::InRound => 2 + self.current.work_left() + (self.attempts - self.round - 1)
                * self.round_work(),
            RunPhase::Finished => 0,
        }
    }
}

/// One thing that happens to a run: its driver takes the next step, or a
/// lifecycle reports its outcome.
pub enum RunEvent {
    Step,
    Report { outcome: LifecycleOutcome },
}

impl RunState {
    /// The state after one event.
    pub open spec fn after_event(self, event: RunEvent) -> RunState {
        match event {
            RunEvent::Step => self.after_step(),
            RunEvent::Report { outcome } => self.after_outcome(outcome),
        }
    }

    /// The state after a sequence of events, the first one first.
    pub open spec fn after_events(self, events: Seq<RunEvent>) -> RunState
        decreases events.len(),
    {
        if events.len() == 0 {
            self
        } else {
            self.after_events(events.drop_last()).after_event(events.last())
        }
    }

    /// How many lifecycles are launched while a sequence of events happens:
    /// the number of steps among them that are launches.
    pub open spec fn launches_during(self, events: Seq<RunEvent>) -> nat
        decreases events.len(),
    {
        if events.len() == 0 {
            0
        } else {
            let before = self.after_events(events.drop_last());
            let earlier = self.launches_during(events.drop_last());
            if events.last() is Step && before.step() is Launch {
                earlier + 1
            } else {
                earlier
            }
        }
    }
}

/// The driver's guide through one run.
#[derive(Debug)]
pub struct Runner {
    strategy: Strategy,
    concurrency: u32,
    attempts: u32,
    timeout_millis: u32,
    max_wait_millis: u32,
    phase: RunPhase,
    round: u32,
    scheduler: RoundScheduler,
    launched_total: u64,
    finished_total: u64,
}

impl View for Runner {
    type V = RunState;

    closed spec fn view(&self) -> RunState {
        RunState {
            strategy: self.strategy,
            concurrency: self.concurrency,
            attempts: self.attempts,
            timeout_millis: self.timeout_millis,
            max_wait_millis: self.max_wait_millis,
            phase: self.phase,
            round: self.round,
            current: self.scheduler@,
            launched_total: self.launched_total,
            finished_total: self.finished_total,
        }
    }
}

impl Runner {
    /// The runner of a run with the given options.
    pub fn new(opts: &Opts) -> (runner: Runner)
        ensures
            runner@ == RunState::fresh(
                Strategy::named(opts.name@),
                opts.concurrency,
                opts.iterations,
                opts.timeout,
                opts.wait,
            ),
            runner@.wf(),
    {
        Runner {
            strategy: opts.strategy(),
            concurrency: opts.concurrency,
            attempts: opts.iterations,
            timeout_millis: opts.timeout,
            max_wait_millis: opts.wait,
            phase: RunPhase::Seeding,
            round: 0,
            scheduler: RoundScheduler::new(opts.concurrency),
            launched_total: 0,
            finished_total: 0,
        }
    }

    /// Says what to do next, and moves on to the state in which that is done.
    ///
    /// The order is: the seed call; then for each round its opening, one
    /// launch per lifecycle, waiting while any lifecycle is in flight, and
    /// its closing; then the end of the run, which is reported from then on.
    pub fn next_step(&mut self) -> (step: RunStep)
        requires
            old(self)@.wf(),
        ensures
            step == old(self)@.step(),
            final(self)@ == old(self)@.after_step(),
            final(self)@.wf(),
    {
        proof {
            lemma_steps_keep_run_wf(self@, LifecycleOutcome::NoTransaction);
        }
        match self.phase {
            RunPhase::Seeding => {
                self.phase = RunPhase::BetweenRounds;
                RunStep::Seed
            },
            RunPhase::BetweenRounds => {
                if self.round < self.attempts {
                    self.phase = RunPhase::InRound;
                    self.scheduler = RoundScheduler::new(self.concurrency);
                    RunStep::BeginRound { round: self.round }
                } else {
                    self.phase = RunPhase::Finished;
                    RunStep::Finish
                }
            },
            RunPhase::InRound => {
                match self.scheduler.next_step() {
                    RoundStep::Launch { index } => {
                        self.launched_total = self.launched_total + 1;
                        RunStep::Launch { round: self.round, index }
                    },
                    RoundStep::Wait => RunStep::Wait,
                    RoundStep::Complete => {
                        let round: u32 = self.round;
                        self.round = round + 1;
                        self.phase = RunPhase::BetweenRounds;
                        RunStep::EndRound { round }
                    },
                }
            },
            RunPhase::Finished => RunStep::Finish,
        }
    }

    /// Takes in the outcome of a lifecycle that has finished. Returns
    /// whether a lifecycle was in flight; if none was, the report is dropped.
    pub fn lifecycle_finished(&mut self, outcome: LifecycleOutcome) -> (accepted: bool)
        requires
            old(self)@.wf(),
        ensures
            accepted == (old(self)@.in_flight() > 0),
            final(self)@ == old(self)@.after_outcome(outcome),
            final(self)@.wf(),
    {
        proof {
            lemma_steps_keep_run_wf(self@, outcome);
            lemma_run_in_flight_bounded(self@);
        }
        match self.phase {
            RunPhase::InRound => {
                let accepted = self.scheduler.lifecycle_finished(outcome);
                if accepted {
                    self.finished_total = self.finished_total + 1;
                }
                accepted
            },
            _ => false,
        }
    }

    /// The lifecycle to run at position `index` of a round of this run.
    pub fn lifecycle(&self, index: u32) -> (lifecycle: Lifecycle)
        ensures
            lifecycle@ == LifecycleState::fresh(
                index,
                self@.strategy,
                self@.timeout_millis,
                self@.max_wait_millis,
            ),
            lifecycle@.wf(),
    {
        Lifecycle::new(index, self.strategy, self.timeout_millis, self.max_wait_millis)
    }

    /// Where the run stands.
    pub fn phase(&self) -> (phase: RunPhase)
        ensures
            phase == self@.phase,
    {
        self.phase
    }

    /// How many rounds have closed.
    pub fn round(&self) -> (round: u32)
        ensures
            round == self@.round,
    {
        self.round
    }

    /// How many lifecycles have been launched since the run began.
    pub fn launched_total(&self) -> (n: u64)
        ensures
            n == self@.launched_total,
    {
        self.launched_total
    }

    /// How many lifecycles have reported their outcome since the run began.
    pub fn finished_total(&self) -> (n: u64)
        ensures
            n == self@.finished_total,
    {
        self.finished_total
    }

    /// How many lifecycles are launched and have not finished.
    pub fn in_flight(&self) -> (n: u64)
        requires
            self@.wf(),
        ensures
            n == self@.in_flight(),
            n <= self@.concurrency,
    {
        proof {
            lemma_run_in_flight_bounded(self@);
        }
        self.launched_total - self.finished_total
    }

    /// The outcomes reported in the open round so far; between rounds,
    /// those of the round that closed last.
    pub fn round_outcomes(&self) -> (outcomes: &Vec<LifecycleOutcome>)
        ensures
            outcomes@ == self@.current.outcomes,
    {
        self.scheduler.outcomes()
    }
}

/// A run never leaves the states it can be in: whatever step is taken and
/// whatever outcome is reported, the state that follows is well formed, and
/// none of its counters runs over.
pub proof fn lemma_steps_keep_run_wf(state: RunState, outcome: LifecycleOutcome)
    requires
        state.wf(),
    ensures
        state.after_step().wf(),
        state.after_outcome(outcome).wf(),
        state.launched_total <= state.attempts * state.concurrency,
        state.phase == RunPhase::InRound && state.current.step() is Launch
            ==> state.launched_total + 1 <= u64::MAX,
        state.phase == RunPhase::InRound && state.current.in_flight() > 0
            ==> state.finished_total + 1 <= u64::MAX,
        state.phase == RunPhase::InRound ==> state.round + 1 <= u32::MAX,
{
    let r = state.round as int;
    let a = state.attempts as int;
    let c = state.concurrency as int;
    assert(a * c <= 0xffff_ffff * 0xffff_ffff) by (nonlinear_arith)
        requires
            0 <= a <= 0xffff_ffff,
            0 <= c <= 0xffff_ffff,
    ;
    assert(r * c <= a * c) by (nonlinear_arith)
        requires
            0 <= r <= a,
            0 <= c,
    ;
    if state.phase == RunPhase::InRound {
        assert((r + 1) * c == r * c + c) by (nonlinear_arith);
        assert((r + 1) * c <= a * c) by (nonlinear_arith)
            requires
                0 <= r + 1 <= a,
                0 <= c,
        ;
    }
}

/// Across a whole run exactly `attempts × concurrency` lifecycles are
/// created: a run that is over has launched that many, and each of them has
/// reported its outcome. Before that, never more have been launched.
pub proof fn lemma_finished_run_launched_all(state: RunState)
    requires
        state.wf(),
    ensures
        state.launched_total <= state.attempts * state.concurrency,
        state.finished_total <= state.launched_total,
        state.phase == RunPhase::Finished ==> state.launched_total == state.attempts
            * state.concurrency && state.finished_total == state.attempts * state.concurrency,
{
    lemma_steps_keep_run_wf(state, LifecycleOutcome::NoTransaction);
}

/// The launch count goes up by one with each launch step and with nothing
/// else; the count of finished lifecycles goes up by one with each report
/// that is accepted and with nothing else.
pub proof fn lemma_totals_count_launches_and_reports(state: RunState, outcome: LifecycleOutcome)
    requires
        state.wf(),
    ensures
        state.after_step().launched_total == state.launched_total + (if state.step() is Launch {
            1int
        } else {
            0int
        }),
        state.after_step().finished_total == state.finished_total,
        state.after_outcome(outcome).launched_total == state.launched_total,
        state.after_outcome(outcome).finished_total == state.finished_total + (if state.in_flight()
            > 0 {
            1int
        } else {
            0int
        }),
{
    lemma_steps_keep_run_wf(state, outcome);
    lemma_run_in_flight_bounded(state);
}

/// In every state of a run, the number of lifecycles in flight is at most
/// the configured concurrency; all of them belong to the open round, and
/// outside a round none is in flight.
pub proof fn lemma_run_in_flight_bounded(state: RunState)
    requires
        state.wf(),
    ensures
        0 <= state.in_flight() <= state.concurrency,
        state.phase == RunPhase::InRound ==> state.in_flight() == state.current.in_flight(),
        state.phase != RunPhase::InRound ==> state.in_flight() == 0,
{
}

/// Rounds do not overlap. When a lifecycle of round `round` is launched,
/// every lifecycle of the rounds before it has finished. A round opens only
/// with nothing in flight, and closes only when all its lifecycles have
/// finished.
pub proof fn lemma_rounds_do_not_overlap(state: RunState)
    requires
        state.wf(),
    ensures
        match state.step() {
            RunStep::Launch { round, index } => round == state.round && round < state.attempts
                && index < state.concurrency && state.launched_total == round * state.concurrency
                + index && state.finished_total >= round * state.concurrency,
            RunStep::BeginRound { round } => round == state.round && round < state.attempts
                && state.in_flight() == 0 && state.finished_total == round * state.concurrency,
            RunStep::EndRound { round } => round == state.round && state.in_flight() == 0
                && state.finished_total == (round + 1) * state.concurrency,
            RunStep::Wait => state.in_flight() > 0,
            RunStep::Seed => state.launched_total == 0,
            RunStep::Finish => state.in_flight() == 0 && state.finished_total == state.attempts
                * state.concurrency,
        },
{
    let r = state.round as int;
    let c = state.concurrency as int;
    assert((r + 1) * c == r * c + c) by (nonlinear_arith);
}

/// A run always comes to its end: every step but waiting, and every report
/// that is accepted, takes one off the work that is left; the driver waits
/// only while a lifecycle is in flight; and no work is left exactly when the
/// run is over.
pub proof fn lemma_run_terminates(state: RunState, outcome: LifecycleOutcome)
    requires
        state.wf(),
    ensures
        state.work_left() >= 0,
        state.work_left() == 0 <==> state.phase == RunPhase::Finished,
        !(state.step() is Wait) && state.phase != RunPhase::Finished
            ==> state.after_step().work_left() == state.work_left() - 1,
        state.step() is Wait ==> state.in_flight() > 0 && state.after_step() == state,
        state.in_flight() > 0 ==> state.after_outcome(outcome).work_left() == state.work_left()
            - 1,
{
    let r = state.round as int;
    let a = state.attempts as int;
    let w = state.round_work();
    lemma_run_in_flight_bounded(state);
    assert((a - r) * w >= 0) by (nonlinear_arith)
        requires
            a - r >= 0,
            w >= 0,
    ;
    assert((a - r) * w == w + (a - r - 1) * w) by (nonlinear_arith);
    assert((a - 0) * w == a * w);
    if state.phase == RunPhase::InRound {
        assert((a - r - 1) * w >= 0) by (nonlinear_arith)
            requires
                a - r - 1 >= 0,
                w >= 0,
        ;
        assert((a - (r + 1)) * w == (a - r - 1) * w);
    }
    if state.phase == RunPhase::BetweenRounds && r == a {
        assert((a - r) * w == 0) by (nonlinear_arith)
            requires
                a - r == 0,
        ;
    }
}

/// Whatever happens in a run, in whatever order, the run stays within its
/// bounds: never more lifecycles are in flight than the concurrency allows,
/// never more are launched than `attempts × concurrency`, the launch count
/// is the number of launch steps taken, and once the run is over exactly
/// `attempts × concurrency` lifecycles have been launched and have finished.
pub proof fn lemma_every_run_stays_within_bounds(start: RunState, events: Seq<RunEvent>)
    requires
        start == RunState::fresh(
            start.strategy,
            start.concurrency,
            start.attempts,
            start.timeout_millis,
            start.max_wait_millis,
        ),
    ensures
        start.after_events(events).wf(),
        start.after_events(events).concurrency == start.concurrency,
        start.after_events(events).attempts == start.attempts,
        0 <= start.after_events(events).in_flight() <= start.concurrency,
        start.after_events(events).launched_total == start.launches_during(events),
        start.launches_during(events) <= start.attempts * start.concurrency,
        start.after_events(events).phase == RunPhase::Finished ==> start.launches_during(events)
            == start.attempts * start.concurrency && start.after_events(events).finished_total
            == start.attempts * start.concurrency,
    decreases events.len(),
{
    if events.len() == 0 {
        lemma_finished_run_launched_all(start);
    } else {
        lemma_every_run_stays_within_bounds(start, events.drop_last());
        let before = start.after_events(events.drop_last());
        let after = start.after_events(events);
        match events.last() {
            RunEvent::Step => {
                lemma_steps_keep_run_wf(before, LifecycleOutcome::NoTransaction);
                lemma_totals_count_launches_and_reports(before, LifecycleOutcome::NoTransaction);
            },
            RunEvent::Report { outcome } => {
                lemma_steps_keep_run_wf(before, outcome);
                lemma_totals_count_launches_and_reports(before, outcome);
            },
        }
        lemma_run_in_flight_bounded(after);
        lemma_finished_run_launched_all(after);
    }
}

} // verus!
