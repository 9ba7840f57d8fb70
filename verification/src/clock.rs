//! The global clock with a signed rate, and the rate-change request logic.
//!
//! Once per simulation tick the clock integrates the real elapsed time
//! against its rate (`time_since_level_start += delta * time_scale`) and
//! clamps the result to the level's time window `[0, LEVEL_DURATION_MS]`.
//! Crossing either bound forces the rate to zero; crossing the upper bound
//! also exhausts the timeline, which kills the player. A level (re)start
//! resets the clock to `(0, 1)` and revives everyone.
//!
//! Rewind and fast-forward requests are pulses: they flip the rate at once
//! and lean on the deferred event scheduler to restore the normal rate a
//! fixed real-time delay later.

use vstd::prelude::*;

use crate::event_scheduler::{scheduled, EventScheduler};

verus! {

/// Length of the level's simulated time window, in milliseconds.
pub const LEVEL_DURATION_MS: i64 = 10_000;

/// The rate of ordinary forward play.
pub const NORMAL_TIME_SCALE: i32 = 1;

/// The rate while a rewind pulse is active.
pub const REWIND_TIME_SCALE: i32 = -10;

/// The rate while a fast-forward pulse is active.
pub const FAST_FORWARD_TIME_SCALE: i32 = 10;

/// Real-time length of a rewind or fast-forward pulse, in milliseconds.
pub const TIME_EFFECT_DURATION_MS: u64 = 200;

/// Elapsed simulated milliseconds since the level started, clamped to
/// `[0, LEVEL_DURATION_MS]`.
#[derive(Clone, Copy, PartialEq, Eq, Structural, Debug)]
pub struct TimeSinceLevelStart(pub i64);

/// The signed rate multiplier applied to real elapsed time: zero is paused,
/// positive runs forward, negative rewinds.
#[derive(Clone, Copy, PartialEq, Eq, Structural, Debug)]
pub struct TimeScale(pub i32);

/// A deferred rate-change event, delivered through the event scheduler.
#[derive(Clone, Copy, PartialEq, Eq, Structural, Debug)]
pub enum TimeEvent {
    Rewind,
    FastForward,
    Normal,
}

/// Whether the player is alive; the timeline running out kills, a level
/// (re)start revives.
#[derive(Clone, Copy, PartialEq, Eq, Structural, Debug)]
pub enum Vitality {
    Alive,
    Dead,
}

/// The unclamped result of integrating one tick: `t + delta * scale`.
pub open spec fn integrated(t: int, scale: int, delta: int) -> int {
    t + delta * scale
}

/// `c` clamped to the level's time window.
pub open spec fn clamped(c: int) -> int {
    if c < 0 {
        0
    } else if c > LEVEL_DURATION_MS {
        LEVEL_DURATION_MS as int
    } else {
        c
    }
}

/// Advances the clock by one simulation tick.
///
/// Pending level-start resets are applied first, so that they take effect in
/// the same tick: the rate returns to normal, the elapsed time to zero, and
/// every entity comes back alive; a `Normal` rate-change event is emitted
/// (the returned flag) so other systems resume ordinary playback. Then the
/// real elapsed time is integrated against the rate and the result clamped
/// to `[0, LEVEL_DURATION_MS]`: falling below zero pins the clock at the
/// level start and pauses it; running past the end pins it at the end,
/// pauses it, and exhausts the timeline, which kills the player.
pub fn update_time(
    time_scale: &mut TimeScale,
    time_since_level_start: &mut TimeSinceLevelStart,
    vitality: &mut Vitality,
    delta_ms: u32,
    level_start: bool,
) -> (normal_sent: bool)
    ensures
        ({
            let s0 = if level_start {
                NORMAL_TIME_SCALE as int
            } else {
                old(time_scale).0 as int
            };
            let t0 = if level_start {
                0int
            } else {
                old(time_since_level_start).0 as int
            };
            let v0 = if level_start {
                Vitality::Alive
            } else {
                *old(vitality)
            };
            let c = integrated(t0, s0, delta_ms as int);
            &&& final(time_since_level_start).0 == clamped(c)
            &&& final(time_since_level_start).0 == clock_step(t0, s0, delta_ms as int)
            &&& final(time_scale).0 == (if c < 0 || c > LEVEL_DURATION_MS {
                0int
            } else {
                s0
            })
            &&& *final(vitality) == (if c > LEVEL_DURATION_MS {
                Vitality::Dead
            } else {
                v0
            })
        }),
        0 <= final(time_since_level_start).0 <= LEVEL_DURATION_MS,
        normal_sent == level_start,
{
    if level_start {
        time_scale.0 = NORMAL_TIME_SCALE;
        time_since_level_start.0 = 0;
        *vitality = Vitality::Alive;
    }
    proof {
        let d = delta_ms as int;
        let sc = time_scale.0 as int;
        assert(-0x8000_0000_0000_0000 <= d * sc <= 0x8000_0000_0000_0000) by (nonlinear_arith)
            requires
                0 <= d <= 0x1_0000_0000,
                -0x8000_0000 <= sc <= 0x8000_0000,
        ;
    }
    let candidate: i128 = time_since_level_start.0 as i128 + (delta_ms as i128) * (
    time_scale.0 as i128);
    if candidate < 0 {
        time_since_level_start.0 = 0;
        time_scale.0 = 0;
    } else if candidate > LEVEL_DURATION_MS as i128 {
        time_since_level_start.0 = LEVEL_DURATION_MS;
        time_scale.0 = 0;
        *vitality = Vitality::Dead;
    } else {
        time_since_level_start.0 = candidate as i64;
    }
    level_start
}

/// One integration step of the clock at the model level: integrate, then
/// clamp to the level's time window.
pub open spec fn clock_step(t: int, scale: int, delta: int) -> int {
    clamped(integrated(t, scale, delta))
}

/// The elapsed time after a whole run of integration steps, each given as a
/// `(scale, delta)` pair, starting from `t0`.
pub open spec fn clock_run(t0: int, steps: Seq<(int, int)>) -> int
    decreases steps.len(),
{
    if steps.len() == 0 {
        t0
    } else {
        clock_step(clock_run(t0, steps.drop_last()), steps.last().0, steps.last().1)
    }
}

/// The clamp invariant: for every sequence of integration steps, at any rate
/// and any real frame time, the elapsed time stays within
/// `[0, LEVEL_DURATION_MS]`. (That crossing a bound also forces the rate to
/// zero is part of `update_time`'s contract.)
pub proof fn lemma_clock_stays_in_window(t0: int, steps: Seq<(int, int)>)
    requires
        0 <= t0 <= LEVEL_DURATION_MS,
    ensures
        0 <= clock_run(t0, steps) <= LEVEL_DURATION_MS,
    decreases steps.len(),
{
    if steps.len() > 0 {
        lemma_clock_stays_in_window(t0, steps.drop_last());
    }
}

/// Whether `events` holds a `Normal` rate-change event.
pub open spec fn contains_normal(events: Seq<TimeEvent>) -> bool {
    exists|i: int| 0 <= i < events.len() && events[i] is Normal
}

/// Reacts to the rate-change events delivered this tick: a `Normal` event
/// restores the ordinary forward rate, ending a rewind or fast-forward
/// pulse; `Rewind` and `FastForward` events are for other consumers (music,
/// animation) and leave the rate alone here.
pub fn stop_rewind(rewind_events: &Vec<TimeEvent>, time_scale: &mut TimeScale)
    ensures
        final(time_scale).0 == (if contains_normal(rewind_events@) {
            NORMAL_TIME_SCALE as int
        } else {
            old(time_scale).0 as int
        }),
{
    let ghost s = rewind_events@;
    let mut i: usize = 0;
    while i < rewind_events.len()
        invariant
            s == rewind_events@,
            0 <= i <= s.len(),
            time_scale.0 == (if contains_normal(s.take(i as int)) {
                NORMAL_TIME_SCALE as int
            } else {
                old(time_scale).0 as int
            }),
        decreases s.len() - i,
    {
        proof {
            assert(s.take(i as int + 1) =~= s.take(i as int).push(s[i as int]));
            assert(forall|j: int| 0 <= j < i ==> s.take(i as int + 1)[j] == s.take(i as int)[j]);
        }
        match rewind_events[i] {
            TimeEvent::Normal => {
                time_scale.0 = NORMAL_TIME_SCALE;
                proof {
                    assert(s.take(i as int + 1)[i as int] is Normal);
                }
            },
            _ => {
                proof {
                    if contains_normal(s.take(i as int + 1)) {
                        let j = choose|j: int|
                            0 <= j < i + 1 && (#[trigger] s.take(i as int + 1)[j]) is Normal;
                        assert(s.take(i as int)[j] is Normal);
                    }
                }
            },
        }
        i = i + 1;
    }
    proof {
        assert(s.take(s.len() as int) =~= s);
    }
}

/// Turns this tick's raw key state into rate-change requests.
///
/// Pressing the rewind key during ordinary forward play (rate exactly
/// normal, player alive) starts a rewind pulse: the rate flips to the rewind
/// rate, a `Rewind` event is scheduled for the next dispatch pass and a
/// `Normal` event for `TIME_EFFECT_DURATION_MS` later. The fast-forward key
/// is symmetric. A request while any pulse is active (rate not normal) or
/// while dead is ignored, so pulses never overlap. The restart key is
/// independent and merely reports that a level restart was requested.
pub fn rewind(
    rewind_pressed: bool,
    fast_forward_pressed: bool,
    restart_pressed: bool,
    time_scale: &mut TimeScale,
    vitality: Vitality,
    scheduler: &mut EventScheduler<TimeEvent>,
) -> (restart_requested: bool)
    requires
        old(scheduler).wf(),
        old(scheduler).spec_now() + TIME_EFFECT_DURATION_MS <= u64::MAX,
    ensures
        final(scheduler).wf(),
        final(scheduler).spec_now() == old(scheduler).spec_now(),
        ({
            let starts_rewind = rewind_pressed && old(time_scale).0 == NORMAL_TIME_SCALE
                && vitality == Vitality::Alive;
            let starts_fast_forward = !starts_rewind && fast_forward_pressed && old(
                time_scale,
            ).0 == NORMAL_TIME_SCALE && vitality == Vitality::Alive;
            let now = old(scheduler).spec_now();
            &&& starts_rewind ==> {
                &&& final(time_scale).0 == REWIND_TIME_SCALE
                &&& final(scheduler).pending() == scheduled(
                    scheduled(old(scheduler).pending(), now, TimeEvent::Rewind),
                    (now + TIME_EFFECT_DURATION_MS) as u64,
                    TimeEvent::Normal,
                )
            }
            &&& starts_fast_forward ==> {
                &&& final(time_scale).0 == FAST_FORWARD_TIME_SCALE
                &&& final(scheduler).pending() == scheduled(
                    scheduled(old(scheduler).pending(), now, TimeEvent::FastForward),
                    (now + TIME_EFFECT_DURATION_MS) as u64,
                    TimeEvent::Normal,
                )
            }
            &&& !starts_rewind && !starts_fast_forward ==> {
                &&& *final(time_scale) == *old(time_scale)
                &&& final(scheduler).pending() == old(scheduler).pending()
            }
        }),
        restart_requested == restart_pressed,
{
    if rewind_pressed && time_scale.0 == NORMAL_TIME_SCALE && vitality == Vitality::Alive {
        time_scale.0 = REWIND_TIME_SCALE;
        scheduler.schedule(TimeEvent::Rewind, 0);
        scheduler.schedule(TimeEvent::Normal, TIME_EFFECT_DURATION_MS);
    } else if fast_forward_pressed && time_scale.0 == NORMAL_TIME_SCALE && vitality
        == Vitality::Alive {
        time_scale.0 = FAST_FORWARD_TIME_SCALE;
        scheduler.schedule(TimeEvent::FastForward, 0);
        scheduler.schedule(TimeEvent::Normal, TIME_EFFECT_DURATION_MS);
    }
    restart_pressed
}

} // verus!
