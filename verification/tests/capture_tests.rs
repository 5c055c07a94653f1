use zenreply::capture::{
    begin_capture, capture_from_reads, capture_step, quick_capture_outcome, CaptureConfig,
    CapturePhase,
};

fn cfg() -> CaptureConfig {
    CaptureConfig::default()
}

#[test]
fn default_config_holds_the_tuned_values() {
    let c = cfg();
    assert_eq!(c.settle_ms, 30);
    assert_eq!(c.fast_wait_ms, 50);
    assert_eq!(c.poll_interval_ms, 30);
    assert_eq!(c.poll_attempts, 10);
}

#[test]
fn fresh_fast_read_finishes_without_fallback() {
    let phase = begin_capture("old".to_string());
    let next = capture_step(phase, "new".to_string(), &cfg());
    match next {
        CapturePhase::Finished { text, fresh } => {
            assert_eq!(text, "new");
            assert!(fresh);
        },
        _ => panic!("a fresh fast read must finish the capture"),
    }
}

#[test]
fn stale_fast_read_opens_the_fallback() {
    let phase = begin_capture("old".to_string());
    let next = capture_step(phase, "old".to_string(), &cfg());
    assert!(matches!(next, CapturePhase::SlowPoll { polls_done: 0, .. }));
    let phase2 = begin_capture("old".to_string());
    let next2 = capture_step(phase2, String::new(), &cfg());
    assert!(matches!(next2, CapturePhase::SlowPoll { polls_done: 0, .. }));
}

#[test]
fn slow_polling_stops_at_the_bound_with_the_stale_value() {
    let c = cfg();
    let mut phase = begin_capture("old".to_string());
    phase = capture_step(phase, "old".to_string(), &c);
    let mut polls = 0u64;
    loop {
        match phase {
            CapturePhase::SlowPoll { .. } => {
                phase = capture_step(phase, String::new(), &c);
                polls += 1;
                assert!(polls <= c.poll_attempts);
            },
            CapturePhase::Finished { ref text, fresh } => {
                assert_eq!(text, "old");
                assert!(!fresh);
                break;
            },
            CapturePhase::FastPoll { .. } => panic!("cannot return to the fast path"),
        }
    }
    assert_eq!(polls, c.poll_attempts);
}

#[test]
fn slow_poll_captures_a_late_change() {
    let c = cfg();
    let mut phase = begin_capture("old".to_string());
    phase = capture_step(phase, "old".to_string(), &c);
    phase = capture_step(phase, "old".to_string(), &c);
    phase = capture_step(phase, "late".to_string(), &c);
    match phase {
        CapturePhase::Finished { text, fresh } => {
            assert_eq!(text, "late");
            assert!(fresh);
        },
        _ => panic!("a fresh slow read must finish the capture"),
    }
}

#[test]
fn run_takes_fast_value_when_it_changes_in_time() {
    let slow = vec!["ignored".to_string()];
    let (text, fresh) = capture_from_reads(
        &"old".to_string(),
        &"new".to_string(),
        &slow,
        &cfg(),
    );
    assert_eq!(text, "new");
    assert!(fresh);
}

#[test]
fn run_returns_stale_previous_when_nothing_changes() {
    let slow = vec!["old".to_string(); 12];
    let (text, fresh) = capture_from_reads(
        &"old".to_string(),
        &"old".to_string(),
        &slow,
        &cfg(),
    );
    assert_eq!(text, "old");
    assert!(!fresh);
}

#[test]
fn run_returns_empty_when_clipboard_was_and_stays_empty() {
    let slow = vec![String::new(); 3];
    let (text, fresh) = capture_from_reads(&String::new(), &String::new(), &slow, &cfg());
    assert_eq!(text, "");
    assert!(!fresh);
}

#[test]
fn fast_hand_off_is_text_or_empty() {
    assert_eq!(quick_capture_outcome(&"old".to_string(), "new".to_string()), "new");
    assert_eq!(quick_capture_outcome(&"old".to_string(), "old".to_string()), "");
    assert_eq!(quick_capture_outcome(&"old".to_string(), String::new()), "");
    assert_eq!(quick_capture_outcome(&String::new(), "fresh".to_string()), "fresh");
}

#[test]
fn run_ignores_polls_past_the_bound() {
    let mut c = cfg();
    c.poll_attempts = 2;
    let mut slow = vec!["old".to_string(), "old".to_string()];
    slow.push("too-late".to_string());
    let (text, fresh) = capture_from_reads(&"old".to_string(), &"old".to_string(), &slow, &c);
    assert_eq!(text, "old");
    assert!(!fresh);
}
