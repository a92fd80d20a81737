use qbittorrent_mover::scheduler::{Scheduler, SchedulerEvent, SchedulerState, SchedulerStep};

/// Runs the loop on `events`; returns how many passes were begun.
fn passes(scheduler: &mut Scheduler, events: &[SchedulerEvent]) -> usize {
    let mut begun = 0;
    for event in events {
        let before = scheduler.current();
        scheduler.step(*event);
        if before != SchedulerState::Cycling && scheduler.current() == SchedulerState::Cycling {
            begun += 1;
        }
    }
    begun
}

#[test]
fn test_main_loop() {
    let mut scheduler = Scheduler::new(5);
    let mut cycles = 0;
    let mut shutdown_sent = false;
    while let Some(step) = scheduler.pending() {
        match step {
            SchedulerStep::RunCycle | SchedulerStep::FinishCycle => {
                cycles += 1;
                scheduler.step(SchedulerEvent::CycleFinished);
            }
            SchedulerStep::Wait { seconds } => {
                assert_eq!(seconds, 5);
                shutdown_sent = true;
                scheduler.step(SchedulerEvent::Shutdown);
            }
        }
    }
    assert!(shutdown_sent);
    assert_eq!(cycles, 1);
    assert_eq!(scheduler.current(), SchedulerState::Stopped);
}

#[test]
fn loop_begins_with_a_pass() {
    let scheduler = Scheduler::new(7);
    assert_eq!(scheduler.current(), SchedulerState::Cycling);
    assert_eq!(scheduler.pending(), Some(SchedulerStep::RunCycle));
    assert!(scheduler.is_running());
}

#[test]
fn pass_and_pause_alternate() {
    let mut scheduler = Scheduler::new(7);
    scheduler.step(SchedulerEvent::CycleFinished);
    assert_eq!(scheduler.current(), SchedulerState::Waiting);
    assert_eq!(scheduler.pending(), Some(SchedulerStep::Wait { seconds: 7 }));
    scheduler.step(SchedulerEvent::DelayElapsed);
    assert_eq!(scheduler.pending(), Some(SchedulerStep::RunCycle));
    scheduler.step(SchedulerEvent::CycleFinished);
    assert_eq!(scheduler.pending(), Some(SchedulerStep::Wait { seconds: 7 }));
    assert!(scheduler.is_running());
}

#[test]
fn shutdown_during_the_pause_starts_no_pass() {
    let mut scheduler = Scheduler::new(7);
    scheduler.step(SchedulerEvent::CycleFinished);
    scheduler.step(SchedulerEvent::Shutdown);
    assert_eq!(scheduler.current(), SchedulerState::Stopped);
    assert_eq!(scheduler.pending(), None);
    assert!(!scheduler.is_running());

    let begun = passes(
        &mut scheduler,
        &[
            SchedulerEvent::DelayElapsed,
            SchedulerEvent::CycleFinished,
            SchedulerEvent::Shutdown,
            SchedulerEvent::DelayElapsed,
        ],
    );
    assert_eq!(begun, 0);
    assert_eq!(scheduler.current(), SchedulerState::Stopped);
    assert_eq!(scheduler.pending(), None);
}

#[test]
fn shutdown_during_a_pass_lets_it_end() {
    let mut scheduler = Scheduler::new(7);
    scheduler.step(SchedulerEvent::Shutdown);
    assert_eq!(scheduler.current(), SchedulerState::Draining);
    assert_eq!(scheduler.pending(), Some(SchedulerStep::FinishCycle));
    assert!(!scheduler.is_running());

    scheduler.step(SchedulerEvent::DelayElapsed);
    assert_eq!(scheduler.current(), SchedulerState::Draining);

    scheduler.step(SchedulerEvent::CycleFinished);
    assert_eq!(scheduler.current(), SchedulerState::Stopped);
    assert_eq!(scheduler.pending(), None);
}

#[test]
fn passes_are_begun_by_the_end_of_a_pause_only() {
    let mut scheduler = Scheduler::new(0);
    let begun = passes(
        &mut scheduler,
        &[
            SchedulerEvent::DelayElapsed,
            SchedulerEvent::CycleFinished,
            SchedulerEvent::CycleFinished,
            SchedulerEvent::DelayElapsed,
            SchedulerEvent::CycleFinished,
            SchedulerEvent::DelayElapsed,
            SchedulerEvent::Shutdown,
            SchedulerEvent::DelayElapsed,
            SchedulerEvent::CycleFinished,
            SchedulerEvent::DelayElapsed,
        ],
    );
    assert_eq!(begun, 2);
    assert_eq!(scheduler.current(), SchedulerState::Stopped);
}
