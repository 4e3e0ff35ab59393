use piano_listen::errors::SessionError;
use piano_listen::playback::{replay_plan, PlayStep, TRAILING_DELAY_NANOS};
use piano_listen::recording::Recording;
use piano_listen::session::{SessionController, SessionStatus};

fn sample_log(gaps: &[u64]) -> Recording {
    let mut log = Recording::new();
    for (i, gap) in gaps.iter().enumerate() {
        log.push((*gap, vec![144, 60 + i as u8, 100]));
    }
    log
}

#[test]
fn recording_keeps_gaps_and_messages_in_order() {
    let gaps = [5u64, 1_000_000, 0, 42];
    let log = sample_log(&gaps);
    assert_eq!(log.len(), gaps.len());
    for (i, gap) in gaps.iter().enumerate() {
        assert_eq!(log.recording[i].0, *gap);
        assert_eq!(log.recording[i].1, vec![144, 60 + i as u8, 100]);
    }
}

#[test]
fn recording_from_keeps_given_entries() {
    let entries = vec![(3u64, vec![128u8, 21, 0]), (7u64, vec![176u8, 64, 90])];
    let log = Recording::from(entries.clone());
    assert_eq!(log.recording, entries);
}

#[test]
fn replay_reproduces_messages_order_and_pacing() {
    let gaps = [10u64, 20, 30];
    let log = sample_log(&gaps);
    let plan = replay_plan(&log);
    assert_eq!(plan.len(), 2 * gaps.len() + 1);
    for (i, gap) in gaps.iter().enumerate() {
        assert_eq!(plan[2 * i], PlayStep::Wait(*gap));
        assert_eq!(plan[2 * i + 1], PlayStep::Send(vec![144, 60 + i as u8, 100]));
    }
    assert_eq!(plan[2 * gaps.len()], PlayStep::Wait(TRAILING_DELAY_NANOS));
}

#[test]
fn replay_of_empty_log_is_only_the_trailing_wait() {
    let plan = replay_plan(&Recording::new());
    assert_eq!(plan, vec![PlayStep::Wait(TRAILING_DELAY_NANOS)]);
}

#[test]
fn status_is_idle_before_any_start() {
    let controller = SessionController::new();
    assert_eq!(controller.status(), SessionStatus::Idle);
    assert!(!controller.is_active());
}

#[test]
fn start_listen_while_listening_is_a_refused_no_op() {
    let mut controller = SessionController::new();
    assert!(controller.start_listen());
    assert_eq!(controller.status(), SessionStatus::Listening);
    assert!(!controller.start_listen());
    assert_eq!(controller.status(), SessionStatus::Listening);
}

#[test]
fn start_record_while_listening_kills_the_prior_session() {
    let mut controller = SessionController::new();
    assert!(controller.start_listen());
    let killed_prior = controller.start_record();
    assert!(killed_prior);
    assert_eq!(controller.status(), SessionStatus::Recording);
}

#[test]
fn start_record_when_idle_kills_nothing() {
    let mut controller = SessionController::new();
    let killed_prior = controller.start_record();
    assert!(!killed_prior);
    assert_eq!(controller.status(), SessionStatus::Recording);
}

#[test]
fn stop_stores_the_log_and_returns_to_idle() {
    let mut controller = SessionController::new();
    controller.start_record();
    let log = sample_log(&[4, 8]);
    let kept = log.clone();
    assert_eq!(controller.stop("take one".to_string(), log), Ok(()));
    assert_eq!(controller.status(), SessionStatus::Idle);
    assert!(!controller.is_active());
    let found = controller.lookup(&"take one".to_string()).expect("stored name must be found");
    assert_eq!(*found, kept);
}

#[test]
fn stop_without_a_recording_session_is_refused() {
    let mut controller = SessionController::new();
    let r = controller.stop("nothing".to_string(), Recording::new());
    assert_eq!(r, Err(SessionError::NoActiveRecording));
    assert_eq!(controller.status(), SessionStatus::Idle);

    controller.start_listen();
    let r = controller.stop("nothing".to_string(), Recording::new());
    assert_eq!(r, Err(SessionError::NoActiveRecording));
    assert_eq!(controller.status(), SessionStatus::Listening);
    assert_eq!(controller.lookup(&"nothing".to_string()), None);
}

#[test]
fn last_write_wins_for_a_name() {
    let mut controller = SessionController::new();
    controller.start_record();
    controller.stop("song".to_string(), sample_log(&[1])).unwrap();
    controller.start_record();
    let second = sample_log(&[2, 3]);
    let kept = second.clone();
    controller.stop("song".to_string(), second).unwrap();
    let found = controller.lookup(&"song".to_string()).unwrap();
    assert_eq!(*found, kept);
}

#[test]
fn lookup_of_an_unknown_name_finds_nothing() {
    let mut controller = SessionController::new();
    controller.start_record();
    controller.stop("kept".to_string(), sample_log(&[9])).unwrap();
    assert_eq!(controller.lookup(&"missing".to_string()), None);
}

#[test]
fn kill_always_returns_to_idle_and_keeps_the_store() {
    let mut controller = SessionController::new();
    assert!(!controller.kill());

    controller.start_record();
    controller.stop("kept".to_string(), sample_log(&[9])).unwrap();
    controller.start_listen();
    assert!(controller.kill());
    assert_eq!(controller.status(), SessionStatus::Idle);
    assert!(controller.lookup(&"kept".to_string()).is_some());

    controller.start_record();
    assert!(controller.kill());
    assert_eq!(controller.status(), SessionStatus::Idle);
}
