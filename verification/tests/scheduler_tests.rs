use smash::lifecycle::{Completion, LifecycleOutcome};
use smash::scheduler::{RoundScheduler, RoundStep};

#[test]
fn round_launches_every_position_then_waits_then_completes() {
    let mut scheduler = RoundScheduler::new(3);
    assert_eq!(scheduler.concurrency(), 3);
    assert_eq!(scheduler.next_step(), RoundStep::Launch { index: 0 });
    assert_eq!(scheduler.next_step(), RoundStep::Launch { index: 1 });
    assert_eq!(scheduler.next_step(), RoundStep::Launch { index: 2 });
    assert_eq!(scheduler.launched(), 3);
    assert_eq!(scheduler.in_flight(), 3);
    assert_eq!(scheduler.next_step(), RoundStep::Wait);
    assert_eq!(scheduler.next_step(), RoundStep::Wait);
    assert!(scheduler.lifecycle_finished(LifecycleOutcome::NoTransaction));
    assert_eq!(scheduler.in_flight(), 2);
    assert_eq!(scheduler.next_step(), RoundStep::Wait);
    assert!(scheduler.lifecycle_finished(LifecycleOutcome::Completed(Completion::Committed)));
    assert!(!scheduler.is_complete());
    assert!(scheduler.lifecycle_finished(LifecycleOutcome::Completed(Completion::RolledBack)));
    assert!(scheduler.is_complete());
    assert_eq!(scheduler.in_flight(), 0);
    assert_eq!(scheduler.next_step(), RoundStep::Complete);
    assert_eq!(scheduler.next_step(), RoundStep::Complete);
    assert_eq!(
        scheduler.outcomes(),
        &vec![
            LifecycleOutcome::NoTransaction,
            LifecycleOutcome::Completed(Completion::Committed),
            LifecycleOutcome::Completed(Completion::RolledBack),
        ]
    );
}

#[test]
fn empty_round_is_complete_at_once() {
    let mut scheduler = RoundScheduler::new(0);
    assert!(scheduler.is_complete());
    assert_eq!(scheduler.next_step(), RoundStep::Complete);
    assert_eq!(scheduler.in_flight(), 0);
    assert_eq!(scheduler.outcomes().len(), 0);
}

#[test]
fn report_without_a_lifecycle_in_flight_is_dropped() {
    let mut scheduler = RoundScheduler::new(2);
    assert!(!scheduler.lifecycle_finished(LifecycleOutcome::NoTransaction));
    assert_eq!(scheduler.outcomes().len(), 0);
    assert_eq!(scheduler.next_step(), RoundStep::Launch { index: 0 });
    assert!(scheduler.lifecycle_finished(LifecycleOutcome::NoTransaction));
    assert!(!scheduler.lifecycle_finished(LifecycleOutcome::NoTransaction));
    assert_eq!(scheduler.outcomes().len(), 1);
    assert_eq!(scheduler.in_flight(), 0);
    // The second lifecycle is still to be launched.
    assert!(!scheduler.is_complete());
    assert_eq!(scheduler.next_step(), RoundStep::Launch { index: 1 });
}

#[test]
fn lifecycles_may_finish_while_others_are_still_to_launch() {
    let mut scheduler = RoundScheduler::new(4);
    let mut highest: u32 = 0;
    assert_eq!(scheduler.next_step(), RoundStep::Launch { index: 0 });
    assert!(scheduler.lifecycle_finished(LifecycleOutcome::NoTransaction));
    for expected in 1..4u32 {
        assert_eq!(scheduler.next_step(), RoundStep::Launch { index: expected });
        if scheduler.in_flight() > highest {
            highest = scheduler.in_flight();
        }
        assert!(scheduler.in_flight() <= 4);
    }
    assert_eq!(highest, 3);
    assert_eq!(scheduler.next_step(), RoundStep::Wait);
    while scheduler.in_flight() > 0 {
        assert!(scheduler.lifecycle_finished(LifecycleOutcome::Completed(
            Completion::AbandonedBeforeResolution
        )));
    }
    assert_eq!(scheduler.next_step(), RoundStep::Complete);
    assert_eq!(scheduler.outcomes().len(), 4);
}

#[test]
fn in_flight_never_exceeds_concurrency() {
    for concurrency in 0..8u32 {
        let mut scheduler = RoundScheduler::new(concurrency);
        let mut launches: u32 = 0;
        loop {
            match scheduler.next_step() {
                RoundStep::Launch { index } => {
                    assert_eq!(index, launches);
                    launches += 1;
                }
                RoundStep::Wait => {
                    assert!(scheduler.lifecycle_finished(LifecycleOutcome::NoTransaction));
                }
                RoundStep::Complete => break,
            }
            assert!(scheduler.in_flight() <= concurrency);
        }
        assert_eq!(launches, concurrency);
        assert_eq!(scheduler.outcomes().len(), concurrency as usize);
    }
}
