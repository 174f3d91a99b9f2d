use smash::backend::{Call, CallFailure, StartFailure, TransactionHandle};
use smash::lifecycle::{
    Completion, Lifecycle, LifecycleOutcome, Stage, OPERATION_CALLS, OPERATION_ROUNDS,
};
use smash::strategy::{Resolution, Strategy};

fn tx(id: &str) -> TransactionHandle {
    TransactionHandle { id: id.to_string() }
}

/// Drives a lifecycle to its end against a backend that hands out `id` and
/// answers the call at position `failing` (counted after the start call)
/// with `failure`. Returns the calls in the order they were issued.
fn drive(
    lifecycle: &mut Lifecycle,
    id: &str,
    failing: Option<usize>,
    failure: CallFailure,
) -> Vec<Call> {
    let mut calls = Vec::new();
    while let Some(call) = lifecycle.pending_call() {
        assert!(calls.len() < 10);
        match &call {
            Call::Start { .. } => lifecycle.complete_start(Ok(tx(id))),
            _ => {
                if Some(calls.len() - 1) == failing {
                    lifecycle.complete_call(Err(failure));
                } else {
                    lifecycle.complete_call(Ok(()));
                }
            }
        }
        calls.push(call);
    }
    calls
}

#[test]
fn operation_constants() {
    assert_eq!(OPERATION_ROUNDS, 2);
    assert_eq!(OPERATION_CALLS, 4);
}

#[test]
fn fresh_lifecycle_is_due_to_start() {
    let lifecycle = Lifecycle::new(4, Strategy::Mixed, 1000, 5000);
    assert_eq!(lifecycle.index(), 4);
    assert!(!lifecycle.is_done());
    assert_eq!(lifecycle.outcome(), None);
    assert_eq!(
        lifecycle.pending_call(),
        Some(Call::Start { timeout_millis: 1000, max_wait_millis: 5000 })
    );
    let state = lifecycle.state();
    assert_eq!(state.index, 4);
    assert_eq!(state.strategy, Strategy::Mixed);
    assert_eq!(state.timeout_millis, 1000);
    assert_eq!(state.max_wait_millis, 5000);
    assert_eq!(state.stage, Stage::Start);
}

#[test]
fn failed_start_issues_no_further_call() {
    for failure in [StartFailure::Malformed, StartFailure::NoIdentifier, StartFailure::NoReply] {
        let mut lifecycle = Lifecycle::new(1, Strategy::AlwaysCommit, 1000, 5000);
        lifecycle.complete_start(Err(failure));
        assert!(lifecycle.is_done());
        assert_eq!(lifecycle.pending_call(), None);
        assert_eq!(lifecycle.outcome(), Some(LifecycleOutcome::NoTransaction));
        // Whatever is reported afterwards, nothing becomes due again.
        lifecycle.complete_call(Ok(()));
        lifecycle.complete_start(Ok(tx("late")));
        lifecycle.complete_call(Err(CallFailure::Timeout));
        assert_eq!(lifecycle.pending_call(), None);
        assert_eq!(lifecycle.outcome(), Some(LifecycleOutcome::NoTransaction));
    }
}

#[test]
fn committing_lifecycle_issues_its_whole_script() {
    let mut lifecycle = Lifecycle::new(0, Strategy::AlwaysCommit, 1000, 5000);
    let calls = drive(&mut lifecycle, "t1", None, CallFailure::Timeout);
    assert_eq!(
        calls,
        vec![
            Call::Start { timeout_millis: 1000, max_wait_millis: 5000 },
            Call::SingleOperation { handle: tx("t1") },
            Call::BatchOperation { handle: tx("t1") },
            Call::SingleOperation { handle: tx("t1") },
            Call::BatchOperation { handle: tx("t1") },
            Call::Commit { handle: tx("t1") },
        ]
    );
    assert!(lifecycle.is_done());
    assert_eq!(
        lifecycle.outcome(),
        Some(LifecycleOutcome::Completed(Completion::Committed))
    );
}

#[test]
fn rolling_back_lifecycle_ends_with_a_rollback() {
    let mut lifecycle = Lifecycle::new(2, Strategy::Mixed, 7, 9);
    let calls = drive(&mut lifecycle, "t2", None, CallFailure::Timeout);
    assert_eq!(calls.len(), 6);
    assert_eq!(calls[0], Call::Start { timeout_millis: 7, max_wait_millis: 9 });
    assert_eq!(calls[5], Call::Rollback { handle: tx("t2") });
    assert_eq!(
        lifecycle.outcome(),
        Some(LifecycleOutcome::Completed(Completion::RolledBack))
    );
}

#[test]
fn abandoning_lifecycle_issues_no_resolving_call() {
    let mut lifecycle = Lifecycle::new(3, Strategy::Mixed, 1000, 5000);
    let calls = drive(&mut lifecycle, "t3", None, CallFailure::Timeout);
    assert_eq!(
        calls,
        vec![
            Call::Start { timeout_millis: 1000, max_wait_millis: 5000 },
            Call::SingleOperation { handle: tx("t3") },
            Call::BatchOperation { handle: tx("t3") },
            Call::SingleOperation { handle: tx("t3") },
            Call::BatchOperation { handle: tx("t3") },
        ]
    );
    assert!(lifecycle.is_done());
    assert_eq!(
        lifecycle.outcome(),
        Some(LifecycleOutcome::Completed(Completion::AbandonedBeforeResolution))
    );
}

#[test]
fn timed_out_commit_still_ends_the_lifecycle() {
    let mut lifecycle = Lifecycle::new(1, Strategy::Mixed, 1000, 5000);
    let calls = drive(&mut lifecycle, "t4", Some(4), CallFailure::Timeout);
    assert_eq!(calls.len(), 6);
    assert_eq!(calls[5], Call::Commit { handle: tx("t4") });
    assert!(lifecycle.is_done());
    assert_eq!(lifecycle.pending_call(), None);
    assert_eq!(
        lifecycle.outcome(),
        Some(LifecycleOutcome::Completed(Completion::Committed))
    );
}

#[test]
fn failed_operations_do_not_change_the_script() {
    for failing in 0..5usize {
        for failure in [CallFailure::NetworkError, CallFailure::Timeout] {
            let mut failed = Lifecycle::new(5, Strategy::Mixed, 1000, 5000);
            let mut clean = Lifecycle::new(5, Strategy::Mixed, 1000, 5000);
            let with_failure = drive(&mut failed, "t5", Some(failing), failure);
            let without = drive(&mut clean, "t5", None, failure);
            assert_eq!(with_failure, without);
            assert_eq!(failed.outcome(), clean.outcome());
            assert_eq!(
                failed.outcome(),
                Some(LifecycleOutcome::Completed(Completion::Committed))
            );
        }
    }
}

#[test]
fn stages_follow_one_another() {
    let mut lifecycle = Lifecycle::new(0, Strategy::Mixed, 1000, 5000);
    lifecycle.complete_start(Ok(tx("s")));
    assert_eq!(lifecycle.state().stage, Stage::Operating { handle: tx("s"), completed: 0 });
    lifecycle.complete_call(Ok(()));
    assert_eq!(lifecycle.state().stage, Stage::Operating { handle: tx("s"), completed: 1 });
    assert_eq!(lifecycle.pending_call(), Some(Call::BatchOperation { handle: tx("s") }));
    lifecycle.complete_call(Err(CallFailure::NetworkError));
    lifecycle.complete_call(Ok(()));
    assert_eq!(lifecycle.state().stage, Stage::Operating { handle: tx("s"), completed: 3 });
    lifecycle.complete_call(Ok(()));
    assert_eq!(
        lifecycle.state().stage,
        Stage::Resolving { handle: tx("s"), resolution: Resolution::Rollback }
    );
    assert!(!lifecycle.is_done());
    lifecycle.complete_call(Ok(()));
    assert_eq!(
        lifecycle.state().stage,
        Stage::Done { outcome: LifecycleOutcome::Completed(Completion::RolledBack) }
    );
}

#[test]
fn reports_that_are_not_due_change_nothing() {
    let mut lifecycle = Lifecycle::new(0, Strategy::AlwaysCommit, 1000, 5000);
    // No operation call is due before the start call has come back.
    lifecycle.complete_call(Ok(()));
    assert_eq!(lifecycle.state().stage, Stage::Start);
    lifecycle.complete_start(Ok(tx("first")));
    // A second start reply does not replace the handle.
    lifecycle.complete_start(Ok(tx("second")));
    assert_eq!(
        lifecycle.state().stage,
        Stage::Operating { handle: tx("first"), completed: 0 }
    );
    lifecycle.complete_start(Err(StartFailure::Malformed));
    assert_eq!(
        lifecycle.pending_call(),
        Some(Call::SingleOperation { handle: tx("first") })
    );
}
