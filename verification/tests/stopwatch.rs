use thyme::timer::as_hours_and_minutes;
use thyme::timer::TickNote;
use thyme::timer::TickOutcome;
use thyme::timer::Timer;
use thyme::timer::TICK_PERIOD_MS;

/// Delivers the outcome of one schedule firing the way a host event loop
/// would: returns the notes to hand out in order, or `None` when the
/// schedule terminated.
fn fire(timer: &Timer, now_ms: u64) -> Option<Vec<TickNote>> {
    match timer.tick(now_ms) {
        TickOutcome::Stop => None,
        TickOutcome::Reschedule(notes) => Some(notes),
    }
}

#[test]
fn new_timer_is_stopped_and_unstarted() {
    let t = Timer::new();
    assert!(!t.running);
    assert!(t.start_instant.is_none());
    assert!(t.observers.is_empty());
    assert_eq!(t.next_id, 0);
}

#[test]
fn default_matches_new() {
    let t = Timer::default();
    assert!(!t.running);
    assert!(t.start_instant.is_none());
    assert!(t.observers.is_empty());
    assert_eq!(t.next_id, 0);
}

#[test]
fn tick_period_is_a_tenth_of_a_second() {
    assert_eq!(TICK_PERIOD_MS, 100);
}

#[test]
fn hours_and_minutes_breakdown() {
    assert_eq!(as_hours_and_minutes(0), (0, 0));
    assert_eq!(as_hours_and_minutes(59), (0, 0));
    assert_eq!(as_hours_and_minutes(60), (0, 1));
    assert_eq!(as_hours_and_minutes(3599), (0, 59));
    assert_eq!(as_hours_and_minutes(3600), (1, 0));
    assert_eq!(as_hours_and_minutes(3661), (1, 1));
}

#[test]
fn hours_clamp_instead_of_wrapping() {
    let (hours, minutes) = as_hours_and_minutes(u64::MAX);
    assert_eq!(hours, u32::MAX);
    assert_eq!(minutes, ((u64::MAX % 3600) / 60) as u32);
}

#[test]
fn running_reflects_the_most_recent_command() {
    let mut t = Timer::new();
    t.start(0);
    assert!(t.running);
    t.start(50);
    assert!(t.running);
    t.pause();
    assert!(!t.running);
    t.pause();
    assert!(!t.running);
    t.start(100);
    assert!(t.running);
    t.pause();
    assert!(!t.running);
}

#[test]
fn pause_keeps_the_reference_instant() {
    let mut t = Timer::new();
    t.start(1000);
    t.pause();
    assert_eq!(t.start_instant, Some(1000));
}

#[test]
fn tick_before_any_start_terminates_the_schedule() {
    let t = Timer::new();
    assert!(fire(&t, 500).is_none());
}

#[test]
fn no_notification_after_pause() {
    let mut t = Timer::new();
    t.connect_stopwatch_update();
    t.start(0);
    assert!(fire(&t, 100).is_some());
    t.pause();
    // Any schedule armed before the pause terminates on its next firing,
    // whenever that is, without notifying anyone.
    assert!(fire(&t, 200).is_none());
    assert!(fire(&t, 1_000_000).is_none());
}

#[test]
fn restart_resets_the_elapsed_time_origin() {
    let mut t = Timer::new();
    t.connect_stopwatch_update();
    t.start(0);
    let notes = fire(&t, 3_725_000).unwrap();
    assert_eq!(notes[0].hours, 1);
    assert_eq!(notes[0].minutes, 2);
    // A second start while running: the next tick reports the time since
    // that start alone, not a cumulative elapsed time.
    t.start(3_725_000);
    let notes = fire(&t, 3_726_000).unwrap();
    assert_eq!(notes[0].hours, 0);
    assert_eq!(notes[0].minutes, 0);
}

#[test]
fn two_observers_notified_in_registration_order() {
    let mut t = Timer::new();
    let first = t.connect_stopwatch_update();
    let second = t.connect_stopwatch_update();
    assert_eq!(first, 0);
    assert_eq!(second, 1);
    t.start(0);
    // Every tick while running carries one note per observer, in
    // registration order.
    let mut invoked: Vec<u64> = Vec::new();
    for now_ms in [100, 200, 65_000] {
        let notes = fire(&t, now_ms).unwrap();
        assert_eq!(notes.len(), 2);
        for note in notes {
            invoked.push(note.observer);
        }
    }
    assert_eq!(invoked, vec![first, second, first, second, first, second]);
}

#[test]
fn scenario_sixty_five_seconds_then_an_hour_and_more() {
    let mut t = Timer::new();
    let id = t.connect_stopwatch_update();
    t.start(0);
    let notes = fire(&t, 65_000).unwrap();
    assert_eq!(notes, vec![TickNote { observer: id, hours: 0, minutes: 1 }]);
    let notes = fire(&t, 3_725_000).unwrap();
    assert_eq!(notes, vec![TickNote { observer: id, hours: 1, minutes: 2 }]);
}

#[test]
fn elapsed_is_measured_from_the_original_start_not_accumulated() {
    let mut t = Timer::new();
    t.connect_stopwatch_update();
    t.start(0);
    t.pause();
    // Pausing stops notifications but not the underlying clock reference:
    // after starting again the origin is the new start, and between pause
    // and start nothing fires.
    assert!(fire(&t, 10_000).is_none());
    t.start(60_000);
    let notes = fire(&t, 120_000).unwrap();
    assert_eq!(notes[0].hours, 0);
    assert_eq!(notes[0].minutes, 1);
}
