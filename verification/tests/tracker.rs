use activity_tracker::record::{make_record, ActivityRecord, Sample};
use activity_tracker::sampling::{
    current_activity, run_uncancelled, sampling_step, PlatformError, StepAction, TickInput,
};
use activity_tracker::session::{TrackError, TrackingSession};

fn sample(app: &str, title: &str, idle_millis: u64) -> Sample {
    Sample {
        app_name: app.to_owned(),
        window_title: title.to_owned(),
        idle_millis,
    }
}

fn failed(message: &str) -> Result<Sample, PlatformError> {
    Err(PlatformError {
        message: message.to_owned(),
    })
}

#[test]
fn scenario_start_stop_twice() {
    let mut s = TrackingSession::new();

    let r1 = s.start_tracking("u1".to_owned(), "t1".to_owned(), "tok1".to_owned());
    assert_eq!(r1.unwrap(), "Tracking started successfully");

    let r2 = s.start_tracking("u2".to_owned(), "t2".to_owned(), "tok2".to_owned());
    assert_eq!(r2.unwrap_err(), TrackError::AlreadyActive);

    let r3 = s.stop_tracking();
    assert_eq!(r3.unwrap(), "Tracking stopped successfully");

    let r4 = s.stop_tracking();
    assert_eq!(r4.unwrap_err(), TrackError::NotActive);
}

#[test]
fn second_start_keeps_first_identity() {
    let mut s = TrackingSession::new();
    s.start_tracking("u1".to_owned(), "t1".to_owned(), "tok1".to_owned())
        .unwrap();
    let generation = s.generation();

    let refused = s.start_tracking("u2".to_owned(), "t2".to_owned(), "tok2".to_owned());
    assert_eq!(refused.unwrap_err(), TrackError::AlreadyActive);

    let snap = s.status();
    assert!(snap.active);
    assert_eq!(snap.user_id.as_deref(), Some("u1"));
    assert_eq!(snap.team_id.as_deref(), Some("t1"));
    assert_eq!(s.generation(), generation);
}

#[test]
fn stop_when_inactive_is_idempotent() {
    let mut s = TrackingSession::new();
    for _ in 0..3 {
        assert_eq!(s.stop_tracking().unwrap_err(), TrackError::NotActive);
        let snap = s.status();
        assert!(!snap.active);
        assert_eq!(snap.user_id, None);
        assert_eq!(snap.team_id, None);
    }
}

#[test]
fn status_reports_identity_while_active() {
    let mut s = TrackingSession::new();
    s.start_tracking("alice".to_owned(), "team-7".to_owned(), "secret".to_owned())
        .unwrap();
    let snap = s.status();
    assert!(snap.active);
    assert!(!snap.user_id.as_deref().unwrap().is_empty());
    assert!(!snap.team_id.as_deref().unwrap().is_empty());

    s.stop_tracking().unwrap();
    let snap = s.status();
    assert!(!snap.active);
    assert_eq!(snap.user_id, None);
    assert_eq!(snap.team_id, None);
}

#[test]
fn stop_raises_the_cancellation_signal() {
    let mut s = TrackingSession::new();
    assert!(!s.should_stop());

    s.start_tracking("u".to_owned(), "t".to_owned(), "k".to_owned())
        .unwrap();
    assert!(!s.should_stop());

    s.stop_tracking().unwrap();
    assert!(s.should_stop());

    // A refused stop leaves the signal as it is.
    s.stop_tracking().unwrap_err();
    assert!(s.should_stop());
}

#[test]
fn restart_clears_the_signal_and_advances_the_generation() {
    let mut s = TrackingSession::new();
    assert_eq!(s.generation(), 0);

    s.start_tracking("u".to_owned(), "t".to_owned(), "k".to_owned())
        .unwrap();
    assert_eq!(s.generation(), 1);
    s.stop_tracking().unwrap();

    s.start_tracking("u".to_owned(), "t".to_owned(), "k".to_owned())
        .unwrap();
    assert_eq!(s.generation(), 2);
    assert!(!s.should_stop());
}

#[test]
fn activity_is_accepted_only_while_active() {
    let mut s = TrackingSession::new();
    assert_eq!(s.accept_activity().unwrap_err(), TrackError::NotActive);

    s.start_tracking("u".to_owned(), "t".to_owned(), "k".to_owned())
        .unwrap();
    assert_eq!(s.accept_activity().unwrap(), "Activity data sent successfully");

    s.stop_tracking().unwrap();
    assert_eq!(s.accept_activity().unwrap_err(), TrackError::NotActive);
}

#[test]
fn sampling_cadence_is_thirty_seconds() {
    assert_eq!(activity_tracker::sampling::SAMPLING_INTERVAL_SECONDS, 30);
}

#[test]
fn error_messages_are_one_line_texts() {
    assert_eq!(
        TrackError::AlreadyActive.message(),
        "Tracking is already active"
    );
    assert_eq!(TrackError::NotActive.message(), "Tracking is not active");
}

#[test]
fn emitted_record_carries_the_sample_and_the_tick_time() {
    let t: u64 = 1_700_000_000;
    let outcome = Ok(sample("Editor", "doc.txt", 5000));
    match sampling_step(false, &outcome, t) {
        StepAction::Emit(r) => {
            assert_eq!(r.app_name, "Editor");
            assert_eq!(r.window_title, "doc.txt");
            assert_eq!(r.idle_millis, 5000);
            assert!((r.idle_millis as f64) / 1000.0 == 5.0);
            assert!(t <= r.timestamp_unix_seconds && r.timestamp_unix_seconds <= t + 1);
        }
        _ => panic!("a successful sample must emit a record"),
    }
}

#[test]
fn raised_signal_exits_without_emitting() {
    let outcome = Ok(sample("Editor", "doc.txt", 5000));
    assert!(matches!(
        sampling_step(true, &outcome, 10),
        StepAction::Exit
    ));
    assert!(matches!(sampling_step(true, &failed("denied"), 10), StepAction::Exit));
}

#[test]
fn failed_sample_is_skipped_not_fatal() {
    assert!(matches!(
        sampling_step(false, &failed("permission denied"), 42),
        StepAction::Skip
    ));
}

#[test]
fn one_failure_then_one_success_emits_exactly_once() {
    let ticks = vec![
        TickInput {
            outcome: failed("no active window"),
            now: 100,
        },
        TickInput {
            outcome: Ok(sample("Terminal", "shell", 0)),
            now: 130,
        },
    ];
    let records = run_uncancelled(&ticks);
    assert_eq!(records.len(), 1);
    assert_eq!(records[0].app_name, "Terminal");
    assert_eq!(records[0].timestamp_unix_seconds, 130);
}

#[test]
fn emission_resumes_after_many_failures() {
    let mut ticks: Vec<TickInput> = Vec::new();
    for i in 0..10u64 {
        ticks.push(TickInput {
            outcome: failed("query failed"),
            now: i,
        });
    }
    ticks.push(TickInput {
        outcome: Ok(sample("Browser", "news", 250)),
        now: 10,
    });
    let records = run_uncancelled(&ticks);
    assert_eq!(records.len(), 1);
    assert_eq!(records[0].app_name, "Browser");
    assert_eq!(records[0].idle_millis, 250);
}

#[test]
fn records_come_in_tick_order() {
    let ticks = vec![
        TickInput {
            outcome: Ok(sample("A", "first", 1)),
            now: 1,
        },
        TickInput {
            outcome: failed("blink"),
            now: 2,
        },
        TickInput {
            outcome: Ok(sample("B", "second", 2)),
            now: 3,
        },
    ];
    let records = run_uncancelled(&ticks);
    assert_eq!(records.len(), 2);
    assert_eq!(records[0].app_name, "A");
    assert_eq!(records[0].timestamp_unix_seconds, 1);
    assert_eq!(records[1].app_name, "B");
    assert_eq!(records[1].timestamp_unix_seconds, 3);
}

#[test]
fn make_record_stamps_the_given_time() {
    let r: ActivityRecord = make_record(sample("Editor", "notes.md", 1500), 999);
    assert_eq!(r.app_name, "Editor");
    assert_eq!(r.window_title, "notes.md");
    assert_eq!(r.idle_millis, 1500);
    assert_eq!(r.timestamp_unix_seconds, 999);
}

#[test]
fn current_activity_maps_success_and_failure() {
    let ok = current_activity(Ok(sample("Editor", "doc.txt", 0)), 7);
    let record = ok.unwrap();
    assert_eq!(record.app_name, "Editor");
    assert_eq!(record.timestamp_unix_seconds, 7);

    let err = current_activity(failed("no active window"), 8);
    assert_eq!(err.unwrap_err(), "no active window");
}
