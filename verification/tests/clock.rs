use timeline::clock::{
    rewind, stop_rewind, update_time, TimeEvent, TimeScale, TimeSinceLevelStart, Vitality,
    FAST_FORWARD_TIME_SCALE, LEVEL_DURATION_MS, NORMAL_TIME_SCALE, REWIND_TIME_SCALE,
};
use timeline::event_scheduler::EventScheduler;

#[test]
fn integrating_past_the_window_exhausts_the_timeline() {
    // Twelve simulated seconds against a ten-second window: the clock pins at
    // the end, pauses, and the timeline exhaustion kills the player.
    let mut scale = TimeScale(1);
    let mut t = TimeSinceLevelStart(0);
    let mut vitality = Vitality::Alive;
    for _ in 0..12 {
        update_time(&mut scale, &mut t, &mut vitality, 1_000, false);
    }
    assert_eq!(t.0, 10_000);
    assert_eq!(scale.0, 0);
    assert_eq!(vitality, Vitality::Dead);
}

#[test]
fn reaching_the_window_end_exactly_does_not_kill() {
    let mut scale = TimeScale(1);
    let mut t = TimeSinceLevelStart(0);
    let mut vitality = Vitality::Alive;
    for _ in 0..10 {
        update_time(&mut scale, &mut t, &mut vitality, 1_000, false);
    }
    assert_eq!(t.0, LEVEL_DURATION_MS);
    assert_eq!(scale.0, 1);
    assert_eq!(vitality, Vitality::Alive);
}

#[test]
fn rewinding_below_zero_clamps_and_pauses() {
    let mut scale = TimeScale(REWIND_TIME_SCALE);
    let mut t = TimeSinceLevelStart(500);
    let mut vitality = Vitality::Alive;
    update_time(&mut scale, &mut t, &mut vitality, 100, false);
    assert_eq!(t.0, 0);
    assert_eq!(scale.0, 0);
    assert_eq!(vitality, Vitality::Alive);
}

#[test]
fn ordinary_forward_integration() {
    let mut scale = TimeScale(1);
    let mut t = TimeSinceLevelStart(0);
    let mut vitality = Vitality::Alive;
    let sent = update_time(&mut scale, &mut t, &mut vitality, 500, false);
    assert_eq!(t.0, 500);
    assert_eq!(scale.0, 1);
    assert!(!sent);
}

#[test]
fn fast_forward_integrates_scaled() {
    let mut scale = TimeScale(FAST_FORWARD_TIME_SCALE);
    let mut t = TimeSinceLevelStart(100);
    let mut vitality = Vitality::Alive;
    update_time(&mut scale, &mut t, &mut vitality, 50, false);
    assert_eq!(t.0, 600);
    assert_eq!(scale.0, FAST_FORWARD_TIME_SCALE);
}

#[test]
fn level_start_resets_clock_and_revives() {
    let mut scale = TimeScale(0);
    let mut t = TimeSinceLevelStart(10_000);
    let mut vitality = Vitality::Dead;
    let sent = update_time(&mut scale, &mut t, &mut vitality, 0, true);
    assert_eq!(t.0, 0);
    assert_eq!(scale.0, NORMAL_TIME_SCALE);
    assert_eq!(vitality, Vitality::Alive);
    assert!(sent);
}

#[test]
fn rewind_key_starts_a_rewind_pulse() {
    let mut scale = TimeScale(NORMAL_TIME_SCALE);
    let mut scheduler: EventScheduler<TimeEvent> = EventScheduler::new();
    let restart = rewind(true, false, false, &mut scale, Vitality::Alive, &mut scheduler);
    assert!(!restart);
    assert_eq!(scale.0, REWIND_TIME_SCALE);
    assert_eq!(scheduler.pending_len(), 2);

    let first = scheduler.dispatch(0);
    assert_eq!(first, vec![TimeEvent::Rewind]);
    let second = scheduler.dispatch(200);
    assert_eq!(second, vec![TimeEvent::Normal]);

    stop_rewind(&second, &mut scale);
    assert_eq!(scale.0, NORMAL_TIME_SCALE);
}

#[test]
fn fast_forward_key_starts_a_fast_forward_pulse() {
    let mut scale = TimeScale(NORMAL_TIME_SCALE);
    let mut scheduler: EventScheduler<TimeEvent> = EventScheduler::new();
    rewind(false, true, false, &mut scale, Vitality::Alive, &mut scheduler);
    assert_eq!(scale.0, FAST_FORWARD_TIME_SCALE);
    let fired = scheduler.dispatch(200);
    assert_eq!(fired, vec![TimeEvent::FastForward, TimeEvent::Normal]);
}

#[test]
fn requests_are_ignored_while_a_pulse_is_active() {
    let mut scale = TimeScale(REWIND_TIME_SCALE);
    let mut scheduler: EventScheduler<TimeEvent> = EventScheduler::new();
    rewind(true, false, false, &mut scale, Vitality::Alive, &mut scheduler);
    assert_eq!(scale.0, REWIND_TIME_SCALE);
    assert_eq!(scheduler.pending_len(), 0);
}

#[test]
fn requests_are_ignored_while_dead() {
    let mut scale = TimeScale(NORMAL_TIME_SCALE);
    let mut scheduler: EventScheduler<TimeEvent> = EventScheduler::new();
    rewind(true, true, false, &mut scale, Vitality::Dead, &mut scheduler);
    assert_eq!(scale.0, NORMAL_TIME_SCALE);
    assert_eq!(scheduler.pending_len(), 0);
}

#[test]
fn restart_key_is_reported_independently() {
    let mut scale = TimeScale(REWIND_TIME_SCALE);
    let mut scheduler: EventScheduler<TimeEvent> = EventScheduler::new();
    let restart = rewind(false, false, true, &mut scale, Vitality::Alive, &mut scheduler);
    assert!(restart);
    assert_eq!(scale.0, REWIND_TIME_SCALE);
}

#[test]
fn stop_rewind_only_reacts_to_normal() {
    let mut scale = TimeScale(REWIND_TIME_SCALE);
    stop_rewind(&vec![TimeEvent::Rewind, TimeEvent::FastForward], &mut scale);
    assert_eq!(scale.0, REWIND_TIME_SCALE);
    stop_rewind(&vec![TimeEvent::Rewind, TimeEvent::Normal], &mut scale);
    assert_eq!(scale.0, NORMAL_TIME_SCALE);
}

#[test]
fn a_full_rewind_pulse_restores_the_rate_after_its_delay() {
    // A pulse holds the rewind rate for its whole real-time duration and the
    // scheduled Normal event then restores ordinary play.
    let mut scale = TimeScale(NORMAL_TIME_SCALE);
    let mut t = TimeSinceLevelStart(5_000);
    let mut vitality = Vitality::Alive;
    let mut scheduler: EventScheduler<TimeEvent> = EventScheduler::new();

    rewind(true, false, false, &mut scale, Vitality::Alive, &mut scheduler);
    // Four 50 ms frames: the Normal event fires on the fourth.
    for _ in 0..4 {
        let events = scheduler.dispatch(50);
        stop_rewind(&events, &mut scale);
        update_time(&mut scale, &mut t, &mut vitality, 50, false);
    }
    assert_eq!(scale.0, NORMAL_TIME_SCALE);
    // Three frames at -10 plus one restored frame at 1.
    assert_eq!(t.0, 5_000 - 3 * 500 + 50);
}
