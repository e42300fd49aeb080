use ae5_control::tracelog::{
    enabled_from_env, note_self_write, self_event_age_ms, self_write_generation,
    SelfWriteTracker, SELF_EVENT_WINDOW_MS,
};

#[test]
fn tracing_defaults_on_and_has_an_explicit_opt_out() {
    assert!(enabled_from_env(None));
    assert!(enabled_from_env(Some("1")));
    assert!(!enabled_from_env(Some("0")));
}

#[test]
fn self_write_marks_a_bounded_window() {
    let mut tracker = SelfWriteTracker::new();
    assert_eq!(
        self_event_age_ms(&tracker, 12_000),
        None,
        "no write recorded yet, nothing may be suppressed"
    );
    note_self_write(&mut tracker, 12_000);
    let age = self_event_age_ms(&tracker, 12_034)
        .expect("a just-recorded write is inside the window");
    assert!(age < SELF_EVENT_WINDOW_MS);
}

#[test]
fn the_window_closes_and_writes_are_counted() {
    let mut tracker = SelfWriteTracker::new();
    note_self_write(&mut tracker, 1_000);
    note_self_write(&mut tracker, 2_000);
    assert_eq!(self_write_generation(&tracker), 2);
    assert_eq!(self_event_age_ms(&tracker, 2_034), Some(34));
    assert_eq!(self_event_age_ms(&tracker, 2_399), Some(399));
    assert_eq!(self_event_age_ms(&tracker, 2_400), None);
    assert_eq!(self_event_age_ms(&tracker, 1_500), Some(0));
}
