use oracle_attestor::attestation_scheduler::{
    millis_until_next_slot, AttemptOutcome, SchedulerPhase, SchedulerState, StartDecision,
    MAX_CONCURRENT_SLOTS,
};
use oracle_attestor::slot::{Slot, GENESIS_SLOT_TIME};

fn on_time(slot: &Slot) -> u64 {
    slot.start_timestamp() * 1000
}

#[test]
fn budget_admits_exactly_n_ticks() {
    let mut scheduler = SchedulerState::new(Some(3));
    assert_eq!(scheduler.phase, SchedulerPhase::Aligning);
    scheduler.start_running();

    let mut admitted: u64 = 0;
    loop {
        if !scheduler.admit_tick() {
            break;
        }
        admitted += 1;
        // Run the admitted attempt to completion before the next tick.
        let slot = Slot { number: admitted };
        let decision = scheduler.begin_attempt(&slot, on_time(&slot));
        assert_eq!(decision, StartDecision::Started);
        scheduler.finish_attempt(AttemptOutcome::Delivered);
    }

    assert_eq!(admitted, 3);
    assert_eq!(scheduler.admitted, 3);
    assert_eq!(scheduler.phase, SchedulerPhase::Stopped);
    assert_eq!(scheduler.delivered, 3);
}

#[test]
fn unbudgeted_scheduler_keeps_admitting() {
    let mut scheduler = SchedulerState::new(None);
    scheduler.start_running();
    for _ in 0..100 {
        assert!(scheduler.admit_tick());
    }
    assert_eq!(scheduler.admitted, 100);
    assert_eq!(scheduler.phase, SchedulerPhase::Running);
}

#[test]
fn late_tick_is_skipped_without_starting() {
    let mut scheduler = SchedulerState::new(None);
    scheduler.start_running();
    assert!(scheduler.admit_tick());

    let slot = Slot { number: 5 };
    // 1001 ms after the slot's nominal start: one past the grace window.
    let late_by_1001 = on_time(&slot) + 1001;
    let decision = scheduler.begin_attempt(&slot, late_by_1001);
    assert_eq!(decision, StartDecision::SkippedLate);
    assert_eq!(scheduler.running_attempts, 0);

    // Exactly at the grace window the attempt still starts.
    assert!(scheduler.admit_tick());
    let late_by_1000 = on_time(&slot) + 1000;
    let decision = scheduler.begin_attempt(&slot, late_by_1000);
    assert_eq!(decision, StartDecision::Started);
    assert_eq!(scheduler.running_attempts, 1);
}

#[test]
fn concurrency_is_bounded_by_two() {
    let mut scheduler = SchedulerState::new(None);
    scheduler.start_running();

    let slot = Slot { number: 1 };
    for _ in 0..MAX_CONCURRENT_SLOTS {
        assert!(scheduler.admit_tick());
        assert_eq!(
            scheduler.begin_attempt(&slot, on_time(&slot)),
            StartDecision::Started
        );
    }
    assert_eq!(scheduler.running_attempts, MAX_CONCURRENT_SLOTS);

    // A third tick finds the pool saturated and has to wait.
    assert!(scheduler.admit_tick());
    assert_eq!(
        scheduler.begin_attempt(&slot, on_time(&slot)),
        StartDecision::Saturated
    );
    assert_eq!(scheduler.running_attempts, MAX_CONCURRENT_SLOTS);

    // Once a seat frees up the waiting tick may start.
    scheduler.finish_attempt(AttemptOutcome::Delivered);
    assert_eq!(
        scheduler.begin_attempt(&slot, on_time(&slot)),
        StartDecision::Started
    );
}

#[test]
fn timeout_abandons_attempt_and_ticking_continues() {
    let mut scheduler = SchedulerState::new(None);
    scheduler.start_running();
    assert!(scheduler.admit_tick());

    let slot = Slot { number: 9 };
    assert_eq!(
        scheduler.begin_attempt(&slot, on_time(&slot)),
        StartDecision::Started
    );

    scheduler.finish_attempt(AttemptOutcome::TimedOut);
    assert_eq!(scheduler.delivered, 0);
    assert_eq!(scheduler.running_attempts, 0);
    assert_eq!(scheduler.phase, SchedulerPhase::Running);

    // The scheduler keeps admitting ticks after the timeout.
    assert!(scheduler.admit_tick());
}

#[test]
fn attempt_errors_never_stop_the_scheduler() {
    let mut scheduler = SchedulerState::new(None);
    scheduler.start_running();
    let slot = Slot { number: 2 };
    for outcome in [
        AttemptOutcome::SampleFailed,
        AttemptOutcome::GenerationFailed,
        AttemptOutcome::DeliveryFailed,
        AttemptOutcome::TimedOut,
    ] {
        assert!(scheduler.admit_tick());
        assert_eq!(
            scheduler.begin_attempt(&slot, on_time(&slot)),
            StartDecision::Started
        );
        scheduler.finish_attempt(outcome);
        assert_eq!(scheduler.phase, SchedulerPhase::Running);
    }
    assert_eq!(scheduler.delivered, 0);
}

#[test]
fn wait_lands_on_next_slot_boundary() {
    let genesis_millis = GENESIS_SLOT_TIME * 1000;
    // 5 seconds into slot 0: 7 more seconds until slot 1.
    assert_eq!(millis_until_next_slot(genesis_millis + 5000), 7000);
    // Exactly on a boundary: a full period until the next one.
    assert_eq!(millis_until_next_slot(genesis_millis + 12000), 12000);
    // One millisecond before a boundary.
    assert_eq!(millis_until_next_slot(genesis_millis + 23999), 1);
}
