use sync_supervisor::status::Status;
use sync_supervisor::supervisor::{BackoffPolicy, LoopAction, LoopEvent, LoopPhase, Supervisor};

fn running(policy: BackoffPolicy) -> Supervisor {
    let mut s = Supervisor::new(policy);
    assert_eq!(s.step(LoopEvent::Begin, false), LoopAction::StartRun);
    s
}

#[test]
fn default_policy_waits_five_five_three() {
    let p = BackoffPolicy::default();
    assert_eq!(p.crashed_secs, 5);
    assert_eq!(p.db_locked_secs, 5);
    assert_eq!(p.idled_secs, 3);
}

#[test]
fn delay_follows_the_table() {
    let p = BackoffPolicy { crashed_secs: 7, db_locked_secs: 8, idled_secs: 2 };
    assert_eq!(p.delay(Status::Crashed), Some(7));
    assert_eq!(p.delay(Status::DbLocked), Some(8));
    assert_eq!(p.delay(Status::Idled), Some(2));
    assert_eq!(p.delay(Status::Clean), None);
    assert_eq!(p.delay(Status::Unknown), None);
}

#[test]
fn new_loop_is_idle() {
    let s = Supervisor::new(BackoffPolicy::default());
    assert_eq!(s.phase(), LoopPhase::Idle);
    assert_eq!(s.policy(), BackoffPolicy::default());
    assert!(!s.is_stopped());
}

#[test]
fn begin_starts_the_first_run() {
    let s = running(BackoffPolicy::default());
    assert_eq!(s.phase(), LoopPhase::Running);
}

#[test]
fn begin_under_shutdown_stops() {
    let mut s = Supervisor::new(BackoffPolicy::default());
    assert_eq!(s.step(LoopEvent::Begin, true), LoopAction::Stop);
    assert!(s.is_stopped());
}

#[test]
fn clean_and_unknown_stop_the_loop() {
    for status in [Status::Clean, Status::Unknown] {
        let mut s = running(BackoffPolicy::default());
        assert_eq!(s.step(LoopEvent::RunFinished(status), false), LoopAction::Stop);
        assert_eq!(s.phase(), LoopPhase::Stopped);
    }
}

#[test]
fn crash_counts_down_five_seconds_then_restarts() {
    let mut s = running(BackoffPolicy::default());
    assert_eq!(
        s.step(LoopEvent::RunFinished(Status::Crashed), false),
        LoopAction::Countdown { status: Status::Crashed, remaining: 5 }
    );
    for remaining in [4u64, 3, 2, 1] {
        assert_eq!(
            s.step(LoopEvent::SecondPassed, false),
            LoopAction::Countdown { status: Status::Crashed, remaining }
        );
        assert_eq!(s.phase(), LoopPhase::Waiting { status: Status::Crashed, remaining });
    }
    assert_eq!(s.step(LoopEvent::SecondPassed, false), LoopAction::StartRun);
    assert_eq!(s.phase(), LoopPhase::Running);
}

#[test]
fn locked_counts_down_five_seconds() {
    let mut s = running(BackoffPolicy::default());
    assert_eq!(
        s.step(LoopEvent::RunFinished(Status::DbLocked), false),
        LoopAction::Countdown { status: Status::DbLocked, remaining: 5 }
    );
}

#[test]
fn idled_counts_down_three_seconds() {
    let mut s = running(BackoffPolicy::default());
    assert_eq!(
        s.step(LoopEvent::RunFinished(Status::Idled), false),
        LoopAction::Countdown { status: Status::Idled, remaining: 3 }
    );
    assert_eq!(
        s.step(LoopEvent::SecondPassed, false),
        LoopAction::Countdown { status: Status::Idled, remaining: 2 }
    );
    assert_eq!(
        s.step(LoopEvent::SecondPassed, false),
        LoopAction::Countdown { status: Status::Idled, remaining: 1 }
    );
    assert_eq!(s.step(LoopEvent::SecondPassed, false), LoopAction::StartRun);
}

#[test]
fn zero_delay_restarts_at_once() {
    let mut s = running(BackoffPolicy { crashed_secs: 0, db_locked_secs: 0, idled_secs: 0 });
    assert_eq!(s.step(LoopEvent::RunFinished(Status::Idled), false), LoopAction::StartRun);
    assert_eq!(s.phase(), LoopPhase::Running);
}

#[test]
fn shutdown_at_the_end_of_a_run_stops() {
    for status in [Status::Crashed, Status::DbLocked, Status::Idled, Status::Clean] {
        let mut s = running(BackoffPolicy::default());
        assert_eq!(s.step(LoopEvent::RunFinished(status), true), LoopAction::Stop);
        assert!(s.is_stopped());
    }
}

#[test]
fn shutdown_interrupts_the_countdown() {
    let mut s = running(BackoffPolicy::default());
    s.step(LoopEvent::RunFinished(Status::Crashed), false);
    s.step(LoopEvent::SecondPassed, false);
    assert_eq!(s.step(LoopEvent::SecondPassed, true), LoopAction::Stop);
    assert!(s.is_stopped());
    assert_eq!(s.step(LoopEvent::SecondPassed, false), LoopAction::Ignore);
}

#[test]
fn shutdown_on_the_last_second_starts_no_run() {
    let mut s = running(BackoffPolicy { crashed_secs: 1, db_locked_secs: 1, idled_secs: 1 });
    s.step(LoopEvent::RunFinished(Status::Idled), false);
    assert_eq!(s.step(LoopEvent::SecondPassed, true), LoopAction::Stop);
}

#[test]
fn stopped_loop_ignores_everything() {
    let mut s = running(BackoffPolicy::default());
    s.step(LoopEvent::RunFinished(Status::Clean), false);
    for event in [LoopEvent::Begin, LoopEvent::RunFinished(Status::Crashed), LoopEvent::SecondPassed] {
        assert_eq!(s.step(event, false), LoopAction::Ignore);
        assert_eq!(s.step(event, true), LoopAction::Ignore);
        assert!(s.is_stopped());
    }
}

#[test]
fn no_second_run_while_one_is_under_way() {
    let mut s = running(BackoffPolicy::default());
    assert_eq!(s.step(LoopEvent::Begin, false), LoopAction::Ignore);
    assert_eq!(s.step(LoopEvent::SecondPassed, false), LoopAction::Ignore);
    assert_eq!(s.phase(), LoopPhase::Running);
}

#[test]
fn no_run_ends_while_none_is_under_way() {
    let mut s = Supervisor::new(BackoffPolicy::default());
    assert_eq!(s.step(LoopEvent::RunFinished(Status::Crashed), false), LoopAction::Ignore);
    assert_eq!(s.phase(), LoopPhase::Idle);
    let mut s = running(BackoffPolicy::default());
    s.step(LoopEvent::RunFinished(Status::Crashed), false);
    assert_eq!(s.step(LoopEvent::RunFinished(Status::Crashed), false), LoopAction::Ignore);
    assert_eq!(s.phase(), LoopPhase::Waiting { status: Status::Crashed, remaining: 5 });
}

#[test]
fn at_most_one_run_is_live_on_any_trace() {
    let events = [
        LoopEvent::Begin,
        LoopEvent::RunFinished(Status::Crashed),
        LoopEvent::RunFinished(Status::Idled),
        LoopEvent::SecondPassed,
        LoopEvent::Begin,
    ];
    let mut seed: u32 = 12345;
    for _ in 0..200 {
        let mut s = Supervisor::new(BackoffPolicy { crashed_secs: 2, db_locked_secs: 1, idled_secs: 0 });
        let mut live: i64 = 0;
        for _ in 0..60 {
            seed = seed.wrapping_mul(1664525).wrapping_add(1013904223);
            let event = events[(seed >> 16) as usize % events.len()];
            if matches!(event, LoopEvent::RunFinished(_)) && live > 0 {
                live -= 1;
            }
            if s.step(event, false) == LoopAction::StartRun {
                live += 1;
            }
            assert!(live == 0 || live == 1);
            assert_eq!(live == 1, s.phase() == LoopPhase::Running);
        }
    }
}
