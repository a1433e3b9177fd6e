use pomo::entities::SessionKind::{LongBreak, ShortBreak, Work};
use pomo::entities::{Config, Seconds, SessionKind};
use pomo::scheduler::{Cycle, CycleAction, SchedulerError};
use pomo::session::{
    start, Action, CaptureError, Outcome, SessionError, SessionFailure,
};

fn config(interval: u8, auto_start_next: bool) -> Config {
    Config {
        work: Seconds(1500),
        short_break: Seconds(300),
        long_break: Seconds(1200),
        long_break_interval: interval,
        auto_start_next,
        journal_path: String::from("/tmp/journal"),
    }
}

#[test]
fn work_session_happy_path_with_pause_gate() {
    let cfg = config(4, false);
    let mut s = start(SessionKind::Work, &cfg);
    assert!(matches!(
        s.step(Outcome::Success),
        Action::RunTimer { seconds: 1500, kind: SessionKind::Work }
    ));
    assert!(matches!(s.step(Outcome::Success), Action::Notify { kind: SessionKind::Work }));
    assert!(matches!(s.step(Outcome::Success), Action::ResolveEditor));
    let scratch = s.step(Outcome::Success);
    let ts = match scratch {
        Action::CreateScratch { ts } => ts,
        other => panic!("expected a scratch-file request, got {:?}", other),
    };
    assert!((1..=12).contains(&ts.month));
    assert!((1..=31).contains(&ts.day));
    assert!(ts.hour <= 23);
    assert!(ts.minute <= 59);
    assert!(ts.second <= 59);
    assert!(matches!(s.step(Outcome::Success), Action::RunEditor));
    match s.step(Outcome::Success) {
        Action::ArchiveScratch { ts: archive_ts } => assert_eq!(archive_ts, ts),
        other => panic!("expected an archive request, got {:?}", other),
    }
    assert!(matches!(s.step(Outcome::Success), Action::RemoveScratch));
    assert!(matches!(s.step(Outcome::Success), Action::AwaitEnter));
    assert!(matches!(s.step(Outcome::Success), Action::SessionDone { result: Ok(()) }));
}

#[test]
fn break_session_skips_capture_and_gate_when_auto() {
    let cfg = config(4, true);
    let mut s = start(SessionKind::ShortBreak, &cfg);
    assert!(matches!(
        s.step(Outcome::Success),
        Action::RunTimer { seconds: 300, kind: SessionKind::ShortBreak }
    ));
    assert!(matches!(
        s.step(Outcome::Success),
        Action::Notify { kind: SessionKind::ShortBreak }
    ));
    assert!(matches!(s.step(Outcome::Success), Action::SessionDone { result: Ok(()) }));
}

#[test]
fn long_break_uses_its_duration() {
    let cfg = config(4, true);
    let mut s = start(SessionKind::LongBreak, &cfg);
    assert!(matches!(
        s.step(Outcome::Success),
        Action::RunTimer { seconds: 1200, kind: SessionKind::LongBreak }
    ));
}

#[test]
fn notification_failure_aborts_session() {
    let cfg = config(4, false);
    let mut s = start(SessionKind::Work, &cfg);
    s.step(Outcome::Success);
    s.step(Outcome::Success);
    let done = s.step(Outcome::Failure);
    assert_eq!(
        done,
        Action::SessionDone {
            result: Err(SessionError {
                kind: SessionKind::Work,
                cause: SessionFailure::Notification,
            })
        }
    );
}

#[test]
fn missing_editor_fails_capture() {
    let cfg = config(4, false);
    let mut s = start(SessionKind::Work, &cfg);
    s.step(Outcome::Success);
    s.step(Outcome::Success);
    s.step(Outcome::Success);
    let done = s.step(Outcome::Failure);
    assert_eq!(
        done,
        Action::SessionDone {
            result: Err(SessionError {
                kind: SessionKind::Work,
                cause: SessionFailure::Capture(CaptureError::MissingEditor),
            })
        }
    );
}

#[test]
fn scratch_io_failure_fails_capture() {
    let cfg = config(4, false);
    let mut s = start(SessionKind::Work, &cfg);
    for _ in 0..4 {
        s.step(Outcome::Success);
    }
    let done = s.step(Outcome::Failure);
    assert!(matches!(
        done,
        Action::SessionDone {
            result: Err(SessionError {
                cause: SessionFailure::Capture(CaptureError::ScratchIoFailure),
                ..
            })
        }
    ));
}

#[test]
fn editor_failure_leaves_scratch_file() {
    let cfg = config(4, false);
    let mut s = start(SessionKind::Work, &cfg);
    for _ in 0..5 {
        s.step(Outcome::Success);
    }
    let done = s.step(Outcome::Failure);
    assert!(matches!(
        done,
        Action::SessionDone {
            result: Err(SessionError {
                cause: SessionFailure::Capture(CaptureError::EditorFailure),
                ..
            })
        }
    ));
    // The session is over without ever requesting the scratch file's removal.
    assert!(matches!(s.step(Outcome::Success), Action::SessionDone { result: Err(_) }));
}

#[test]
fn archive_failure_fails_capture() {
    let cfg = config(4, false);
    let mut s = start(SessionKind::Work, &cfg);
    for _ in 0..6 {
        s.step(Outcome::Success);
    }
    let done = s.step(Outcome::Failure);
    assert!(matches!(
        done,
        Action::SessionDone {
            result: Err(SessionError {
                cause: SessionFailure::Capture(CaptureError::ArchiveIoFailure),
                ..
            })
        }
    ));
}

#[test]
fn failed_scratch_removal_is_not_fatal() {
    let cfg = config(4, true);
    let mut s = start(SessionKind::Work, &cfg);
    for _ in 0..7 {
        s.step(Outcome::Success);
    }
    // The removal failed, yet the session still finishes successfully.
    assert!(matches!(s.step(Outcome::Failure), Action::SessionDone { result: Ok(()) }));
}

/// Drives a full run, answering success to everything, and returns the kinds
/// of the countdowns that were requested.
fn drive_successful_run(interval: u8, auto_start_next: bool) -> (Vec<SessionKind>, bool) {
    let cfg = config(interval, auto_start_next);
    let mut cycle = Cycle::new(cfg);
    let mut kinds = Vec::new();
    let mut saw_await_enter = false;
    for _ in 0..1000 {
        match cycle.step(Outcome::Success) {
            CycleAction::Run(Action::RunTimer { kind, .. }) => kinds.push(kind),
            CycleAction::Run(Action::AwaitEnter) => saw_await_enter = true,
            CycleAction::Run(_) => {}
            CycleAction::Finished => return (kinds, saw_await_enter),
            CycleAction::Failed { error } => panic!("run failed: {:?}", error),
        }
    }
    panic!("the run did not finish");
}

#[test]
fn run_of_four_pairs_orders_sessions() {
    let (kinds, _) = drive_successful_run(4, true);
    assert_eq!(
        kinds,
        vec![Work, ShortBreak, Work, ShortBreak, Work, ShortBreak, Work, LongBreak]
    );
}

#[test]
fn run_of_one_pair_is_work_then_long_break() {
    let (kinds, _) = drive_successful_run(1, true);
    assert_eq!(kinds, vec![Work, LongBreak]);
}

#[test]
fn auto_advance_never_blocks_on_input() {
    let (_, saw_await_enter) = drive_successful_run(2, true);
    assert!(!saw_await_enter);
}

#[test]
fn manual_advance_blocks_after_each_session() {
    let cfg = config(2, false);
    let mut cycle = Cycle::new(cfg);
    let mut awaits = 0;
    loop {
        match cycle.step(Outcome::Success) {
            CycleAction::Run(Action::AwaitEnter) => awaits += 1,
            CycleAction::Run(_) => {}
            CycleAction::Finished => break,
            CycleAction::Failed { error } => panic!("run failed: {:?}", error),
        }
    }
    // One acknowledgment per session: two pairs make four sessions.
    assert_eq!(awaits, 4);
}

#[test]
fn capture_failure_in_second_pair_stops_the_run() {
    let cfg = config(4, true);
    let mut cycle = Cycle::new(cfg);
    let mut work_timers = 0;
    let mut answer = Outcome::Success;
    let error = loop {
        match cycle.step(answer) {
            CycleAction::Run(action) => {
                answer = match action {
                    Action::RunTimer { kind: SessionKind::Work, .. } => {
                        work_timers += 1;
                        Outcome::Success
                    }
                    // Fail journal capture in the second work session.
                    Action::CreateScratch { .. } if work_timers == 2 => Outcome::Failure,
                    _ => Outcome::Success,
                };
            }
            CycleAction::Failed { error } => break error,
            CycleAction::Finished => panic!("the run should have failed"),
        }
    };
    assert_eq!(
        error,
        SchedulerError {
            session_num: 2,
            error: SessionError {
                kind: SessionKind::Work,
                cause: SessionFailure::Capture(CaptureError::ScratchIoFailure),
            },
        }
    );
    // The run halts: the same tagged error is reported and no further
    // session is ever started.
    for _ in 0..3 {
        match cycle.step(Outcome::Success) {
            CycleAction::Failed { error: again } => assert_eq!(again, error),
            other => panic!("a failed run kept going: {:?}", other),
        }
    }
    assert_eq!(work_timers, 2);
}
