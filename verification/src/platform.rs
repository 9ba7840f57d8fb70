//! Patrolling moving platforms: the canonical time-reversible entity.
//!
//! A platform follows a closed loop of waypoints. While time runs forward it
//! moves toward the waypoint its cursor points at; the moment its candidate
//! velocity no longer agrees with the last recorded one it has reached (or
//! overshot) that waypoint, so the cursor advances and a direction-change
//! moment — the new velocity and the exact current position — is appended to
//! the platform's history. While time runs backward the platform is *not*
//! integrated: it replays its history, popping each moment once the clock has
//! rewound past it, restoring the recorded position bit for bit and stepping
//! the cursor back. Replaying recorded data rather than re-deriving it is
//! what makes rewinding exact, and `lemma_patrol_reversible` proves it:
//! however far the platform has drifted, rewinding past a stretch of recorded
//! changes restores cursor, history and position to what they were.

use vstd::prelude::*;

use crate::clock::{TimeScale, TimeSinceLevelStart};
use crate::history::{History, Moment};

verus! {

/// A position or velocity in whole world units.
#[derive(Clone, Copy, PartialEq, Eq, Structural, Debug)]
pub struct Vec2 {
    pub x: i32,
    pub y: i32,
}

/// Largest patrol speed a well-formed path may carry, in world units per
/// second of simulated time.
pub const PLATFORM_SPEED_LIMIT: i32 = 1_000_000;

/// Largest rate magnitude the patrol logic accepts; scaled velocities stay
/// representable below it.
pub const TIME_SCALE_LIMIT: i32 = 1_000;

/// What a platform snapshots when it changes direction: the velocity it
/// switches to and the position where the switch happened.
#[derive(Clone, Copy, PartialEq, Eq, Structural, Debug)]
pub enum PlatformMoment {
    ChangeDirection { velocity: Vec2, position: Vec2 },
}

impl Default for PlatformMoment {
    /// A direction change with zero velocity at the origin.
    fn default() -> (m: PlatformMoment)
        ensures
            m == (PlatformMoment::ChangeDirection {
                velocity: Vec2 { x: 0, y: 0 },
                position: Vec2 { x: 0, y: 0 },
            }),
    {
        PlatformMoment::ChangeDirection {
            velocity: Vec2 { x: 0, y: 0 },
            position: Vec2 { x: 0, y: 0 },
        }
    }
}

/// A platform's patrol route: a closed loop of waypoints, the speed it
/// travels at, and the cursor of the waypoint it is currently heading for.
///
/// The cursor only ever moves forward (wrapping) during forward play and
/// backward (wrapping) during rewind.
#[derive(Clone, Debug)]
pub struct Path {
    pub points: Vec<Vec2>,
    pub speed: i32,
    pub index: usize,
}

impl Path {
    /// A path is well formed when it has at least one waypoint, its cursor
    /// points at one of them, and its speed is a bounded non-negative number.
    pub open spec fn wf(&self) -> bool {
        &&& self.points@.len() >= 1
        &&& (self.index as int) < self.points@.len()
        &&& 0 <= self.speed <= PLATFORM_SPEED_LIMIT
    }

    /// A path starting toward its first waypoint.
    pub fn new(points: Vec<Vec2>, speed: i32) -> (p: Path)
        ensures
            p.points == points,
            p.speed == speed,
            p.index == 0,
    {
        Path { points, speed, index: 0 }
    }

    /// The runtime check matching [`Path::wf`].
    pub fn is_wf(&self) -> (r: bool)
        ensures
            r == self.wf(),
    {
        self.points.len() >= 1 && self.index < self.points.len() && 0 <= self.speed
            && self.speed <= PLATFORM_SPEED_LIMIT
    }
}

/// The velocity a platform recorded in a moment.
pub open spec fn moment_velocity(m: PlatformMoment) -> Vec2 {
    match m {
        PlatformMoment::ChangeDirection { velocity, .. } => velocity,
    }
}

/// The position a platform recorded in a moment.
pub open spec fn moment_position(m: PlatformMoment) -> Vec2 {
    match m {
        PlatformMoment::ChangeDirection { position, .. } => position,
    }
}

/// A platform history is well formed when every recorded velocity is bounded
/// by the speed limit, so that scaling by the rate stays representable.
pub open spec fn history_wf(h: Seq<Moment<PlatformMoment>>) -> bool {
    forall|i: int|
        0 <= i < h.len() ==> {
            let v = moment_velocity((#[trigger] h[i]).data);
            &&& -PLATFORM_SPEED_LIMIT <= v.x <= PLATFORM_SPEED_LIMIT
            &&& -PLATFORM_SPEED_LIMIT <= v.y <= PLATFORM_SPEED_LIMIT
        }
}

/// A vector as a pair of unbounded integers.
pub open spec fn vec2_int(v: Vec2) -> (int, int) {
    (v.x as int, v.y as int)
}

/// A pair of in-range integers as a vector.
pub open spec fn vec2_of(p: (int, int)) -> Vec2 {
    Vec2 { x: p.0 as i32, y: p.1 as i32 }
}

/// The sign of the step from `from` toward `to`.
pub open spec fn sign_toward(from: int, to: int) -> int {
    if to > from {
        1
    } else if to < from {
        -1
    } else {
        0
    }
}

/// The candidate velocity of a platform at `position` heading for `goal`:
/// `speed` along each axis, signed toward the goal (zero on an axis already
/// reached).
pub open spec fn velocity_toward(position: Vec2, goal: Vec2, speed: int) -> (int, int) {
    (
        sign_toward(position.x as int, goal.x as int) * speed,
        sign_toward(position.y as int, goal.y as int) * speed,
    )
}

/// The dot product of two vectors given as integer pairs.
pub open spec fn dot(a: (int, int), b: (int, int)) -> int {
    a.0 * b.0 + a.1 * b.1
}

/// A vector scaled by `k`.
pub open spec fn scaled(v: (int, int), k: int) -> (int, int) {
    (v.0 * k, v.1 * k)
}

/// Whether the forward branch decides the current waypoint has been reached
/// or overshot: the candidate velocity no longer has a positive component
/// along the last recorded one. An empty history always passes, which
/// bootstraps the first recorded moment.
pub open spec fn goal_passed(candidate: (int, int), h: Seq<Moment<PlatformMoment>>) -> bool {
    if h.len() == 0 {
        true
    } else {
        dot(candidate, vec2_int(moment_velocity(h.last().data))) <= 0
    }
}

/// The waypoint cursor stepped forward, wrapping around the loop.
pub open spec fn wrap_inc(i: int, n: int) -> int {
    if i + 1 == n {
        0
    } else {
        i + 1
    }
}

/// The waypoint cursor stepped backward, wrapping around the loop.
pub open spec fn wrap_dec(i: int, n: int) -> int {
    if i == 0 {
        n - 1
    } else {
        i - 1
    }
}

/// One forward tick of the patrol state machine, at the model level: the new
/// cursor and history. When the current waypoint has been passed the cursor
/// advances and a moment holding the new velocity and the current position is
/// recorded; otherwise nothing changes.
pub open spec fn forward_step(
    points: Seq<Vec2>,
    speed: int,
    index: int,
    position: Vec2,
    h: Seq<Moment<PlatformMoment>>,
    now: int,
) -> (int, Seq<Moment<PlatformMoment>>)
    recommends
        points.len() >= 1,
        0 <= index < points.len(),
{
    let cand = velocity_toward(position, points[index], speed);
    if goal_passed(cand, h) {
        let ni = wrap_inc(index, points.len() as int);
        let nv = velocity_toward(position, points[ni], speed);
        (
            ni,
            h.push(
                Moment {
                    timestamp: now as i64,
                    data: PlatformMoment::ChangeDirection { velocity: vec2_of(nv), position },
                },
            ),
        )
    } else {
        (index, h)
    }
}

/// The velocity a forward tick hands to the physics collaborator: the
/// (possibly re-aimed) candidate velocity scaled by the rate.
pub open spec fn forward_applied_velocity(
    points: Seq<Vec2>,
    speed: int,
    index: int,
    position: Vec2,
    h: Seq<Moment<PlatformMoment>>,
    scale: int,
) -> (int, int)
    recommends
        points.len() >= 1,
        0 <= index < points.len(),
{
    let cand = velocity_toward(position, points[index], speed);
    if goal_passed(cand, h) {
        let ni = wrap_inc(index, points.len() as int);
        scaled(velocity_toward(position, points[ni], speed), scale)
    } else {
        scaled(cand, scale)
    }
}

/// Whether one backward tick pops the tail moment: the clock has rewound
/// past it (or sits clamped at the level start) and more than one moment
/// remains — the bootstrap moment is never popped.
pub open spec fn backward_pops(h: Seq<Moment<PlatformMoment>>, now: int) -> bool {
    h.len() > 1 && (now < h.last().timestamp || now == 0)
}

/// One backward tick of the patrol state machine, at the model level: the
/// new cursor, position and history. A pop restores the recorded position
/// exactly and steps the cursor back; otherwise nothing changes.
pub open spec fn backward_step(
    n: int,
    index: int,
    position: Vec2,
    h: Seq<Moment<PlatformMoment>>,
    now: int,
) -> (int, Vec2, Seq<Moment<PlatformMoment>>) {
    if backward_pops(h, now) {
        (wrap_dec(index, n), moment_position(h.last().data), h.drop_last())
    } else {
        (index, position, h)
    }
}

/// A whole stretch of forward play, abstracted to the moments it records:
/// each direction change advances the cursor by one wrap and appends its
/// moment, exactly as the recording branch of `forward_step` does.
pub open spec fn record_run(
    n: int,
    index: int,
    h: Seq<Moment<PlatformMoment>>,
    changes: Seq<Moment<PlatformMoment>>,
) -> (int, Seq<Moment<PlatformMoment>>)
    decreases changes.len(),
{
    if changes.len() == 0 {
        (index, h)
    } else {
        let prev = record_run(n, index, h, changes.drop_last());
        (wrap_inc(prev.0, n), prev.1.push(changes.last()))
    }
}

/// A whole stretch of rewinding at one clock value: backward ticks are taken
/// until nothing more pops.
pub open spec fn backward_run(
    n: int,
    index: int,
    position: Vec2,
    h: Seq<Moment<PlatformMoment>>,
    now: int,
) -> (int, Vec2, Seq<Moment<PlatformMoment>>)
    decreases h.len(),
{
    if backward_pops(h, now) {
        backward_run(n, wrap_dec(index, n), moment_position(h.last().data), h.drop_last(), now)
    } else {
        (index, position, h)
    }
}

/// A recording forward tick is exactly one step of `record_run` with the
/// moment it records, which is what lets `lemma_patrol_reversible` speak
/// about whole stretches of forward play.
pub proof fn lemma_forward_step_is_a_record(
    points: Seq<Vec2>,
    speed: int,
    index: int,
    position: Vec2,
    h: Seq<Moment<PlatformMoment>>,
    now: int,
)
    requires
        points.len() >= 1,
        0 <= index < points.len(),
        goal_passed(velocity_toward(position, points[index], speed), h),
    ensures
        ({
            let r = forward_step(points, speed, index, position, h, now);
            let m = Moment {
                timestamp: now as i64,
                data: PlatformMoment::ChangeDirection {
                    velocity: vec2_of(
                        velocity_toward(
                            position,
                            points[wrap_inc(index, points.len() as int)],
                            speed,
                        ),
                    ),
                    position,
                },
            };
            (r.0, r.1) == record_run(points.len() as int, index, h, seq![m])
        }),
{
    let m = Moment {
        timestamp: now as i64,
        data: PlatformMoment::ChangeDirection {
            velocity: vec2_of(
                velocity_toward(position, points[wrap_inc(index, points.len() as int)], speed),
            ),
            position,
        },
    };
    let n = points.len() as int;
    assert(seq![m].drop_last() =~= Seq::<Moment<PlatformMoment>>::empty());
    assert(seq![m].last() == m);
    assert(record_run(n, index, h, Seq::<Moment<PlatformMoment>>::empty()) == (index, h));
    assert(record_run(n, index, h, seq![m]) == (wrap_inc(index, n), h.push(m)));
}

/// Stepping the cursor forward and then backward around the same loop is the
/// identity.
pub proof fn lemma_wrap_roundtrip(i: int, n: int)
    requires
        n >= 1,
        0 <= i < n,
    ensures
        0 <= wrap_inc(i, n) < n,
        wrap_dec(wrap_inc(i, n), n) == i,
{
}

/// While time runs forward the history only grows: after a stretch that
/// records `changes`, the history is exactly the old log followed by those
/// changes, and the cursor, advanced one wrap per change, is still in range.
pub proof fn lemma_record_run_shape(
    n: int,
    index: int,
    h: Seq<Moment<PlatformMoment>>,
    changes: Seq<Moment<PlatformMoment>>,
)
    requires
        n >= 1,
        0 <= index < n,
    ensures
        ({
            let r = record_run(n, index, h, changes);
            &&& 0 <= r.0 < n
            &&& r.1 == h + changes
            &&& r.1.len() == h.len() + changes.len()
        }),
    decreases changes.len(),
{
    if changes.len() == 0 {
        assert(h + changes =~= h);
    } else {
        lemma_record_run_shape(n, index, h, changes.drop_last());
        assert(h + changes =~= (h + changes.drop_last()).push(changes.last()));
    }
}

/// While time runs backward the history only shrinks: after a stretch of
/// backward ticks it is a prefix of what it was, and a non-empty history
/// never becomes empty (the bootstrap moment always remains).
pub proof fn lemma_backward_run_shrinks(
    n: int,
    index: int,
    position: Vec2,
    h: Seq<Moment<PlatformMoment>>,
    now: int,
)
    ensures
        ({
            let r = backward_run(n, index, position, h, now);
            &&& r.2.len() <= h.len()
            &&& r.2 == h.take(r.2.len() as int)
            &&& h.len() > 0 ==> r.2.len() > 0
        }),
    decreases h.len(),
{
    if backward_pops(h, now) {
        lemma_backward_run_shrinks(
            n,
            wrap_dec(index, n),
            moment_position(h.last().data),
            h.drop_last(),
            now,
        );
        let r = backward_run(n, index, position, h, now);
        assert(h.drop_last().take(r.2.len() as int) =~= h.take(r.2.len() as int));
    } else {
        assert(h.take(h.len() as int) =~= h);
    }
}

/// The reversibility law: take any patrol state whose history is non-empty
/// and fully in the past, let forward play record any stretch of direction
/// changes (all later than `now`), and let the platform drift to any
/// position meanwhile. Rewinding at `now` — before the stretch, after the
/// old history, away from the level-start clamp — pops exactly the recorded
/// stretch: the cursor and the history return to their pre-stretch values,
/// and the position is restored bit for bit to where the platform stood at
/// the stretch's first direction change, however far it drifted afterwards.
pub proof fn lemma_patrol_reversible(
    n: int,
    index: int,
    h: Seq<Moment<PlatformMoment>>,
    changes: Seq<Moment<PlatformMoment>>,
    drift: Vec2,
    now: int,
)
    requires
        n >= 1,
        0 <= index < n,
        h.len() >= 1,
        now >= 1,
        h.last().timestamp <= now,
        forall|i: int| 0 <= i < changes.len() ==> (#[trigger] changes[i]).timestamp > now,
    ensures
        ({
            let f = record_run(n, index, h, changes);
            let b = backward_run(n, f.0, drift, f.1, now);
            &&& b.0 == index
            &&& b.2 == h
            &&& b.1 == (if changes.len() > 0 {
                moment_position(changes[0].data)
            } else {
                drift
            })
        }),
    decreases changes.len(),
{
    if changes.len() == 0 {
    } else {
        let cs = changes.drop_last();
        let c = changes.last();
        lemma_record_run_shape(n, index, h, cs);
        lemma_record_run_shape(n, index, h, changes);
        let prev = record_run(n, index, h, cs);
        let f = record_run(n, index, h, changes);
        lemma_wrap_roundtrip(prev.0, n);
        assert(f.1.last() == c);
        assert(changes[changes.len() - 1].timestamp > now);
        assert(backward_pops(f.1, now));
        assert(f.1.drop_last() =~= prev.1);
        lemma_patrol_reversible(n, index, h, cs, moment_position(c.data), now);
        if cs.len() > 0 {
            assert(changes[0] == cs[0]);
        }
    }
}

/// The sign of the step from `from` toward `to`, executably.
fn sign_toward_exec(from: i32, to: i32) -> (s: i32)
    ensures
        s as int == sign_toward(from as int, to as int),
{
    if to > from {
        1
    } else if to < from {
        -1
    } else {
        0
    }
}

/// The candidate velocity toward `goal`, executably.
fn velocity_toward_exec(position: Vec2, goal: Vec2, speed: i32) -> (v: Vec2)
    requires
        0 <= speed <= PLATFORM_SPEED_LIMIT,
    ensures
        vec2_int(v) == velocity_toward(position, goal, speed as int),
        v == vec2_of(velocity_toward(position, goal, speed as int)),
        -speed <= v.x <= speed,
        -speed <= v.y <= speed,
{
    Vec2 { x: sign_toward_exec(position.x, goal.x) * speed, y: sign_toward_exec(position.y, goal.y) * speed }
}

/// Whether `a` opposes (or is orthogonal to) `b`: their dot product is not
/// positive.
fn opposes(a: Vec2, b: Vec2) -> (r: bool)
    ensures
        r == (dot(vec2_int(a), vec2_int(b)) <= 0),
{
    proof {
        assert(-0x4000_0000_0000_0000 <= (a.x as int) * (b.x as int)
            <= 0x4000_0000_0000_0000) by (nonlinear_arith)
            requires
                -0x8000_0000 <= a.x as int <= 0x8000_0000,
                -0x8000_0000 <= b.x as int <= 0x8000_0000,
        ;
        assert(-0x4000_0000_0000_0000 <= (a.y as int) * (b.y as int)
            <= 0x4000_0000_0000_0000) by (nonlinear_arith)
            requires
                -0x8000_0000 <= a.y as int <= 0x8000_0000,
                -0x8000_0000 <= b.y as int <= 0x8000_0000,
        ;
    }
    let d: i128 = (a.x as i128) * (b.x as i128) + (a.y as i128) * (b.y as i128);
    d <= 0
}

/// `v` scaled by the rate `k`, executably.
fn scale_velocity(v: Vec2, k: i32) -> (r: Vec2)
    requires
        -PLATFORM_SPEED_LIMIT <= v.x <= PLATFORM_SPEED_LIMIT,
        -PLATFORM_SPEED_LIMIT <= v.y <= PLATFORM_SPEED_LIMIT,
        -TIME_SCALE_LIMIT <= k <= TIME_SCALE_LIMIT,
    ensures
        vec2_int(r) == scaled(vec2_int(v), k as int),
{
    proof {
        assert(-1_000_000_000 <= (v.x as int) * (k as int) <= 1_000_000_000) by (nonlinear_arith)
            requires
                -1_000_000 <= v.x as int <= 1_000_000,
                -1_000 <= k as int <= 1_000,
        ;
        assert(-1_000_000_000 <= (v.y as int) * (k as int) <= 1_000_000_000) by (nonlinear_arith)
            requires
                -1_000_000 <= v.y as int <= 1_000_000,
                -1_000 <= k as int <= 1_000,
        ;
    }
    Vec2 { x: v.x * k, y: v.y * k }
}

/// One forward tick for one platform.
///
/// Computes the candidate velocity toward the current waypoint; if it opposes
/// the last recorded velocity (or nothing is recorded yet) the waypoint has
/// been passed, so the cursor advances, the velocity is re-aimed at the new
/// waypoint, and a direction-change moment is recorded at the current
/// simulated time. Returns the velocity — scaled by the rate — that the
/// physics collaborator integrates this tick. The platform's position itself
/// is the physics collaborator's to move; it is read here, never written.
pub fn platform_movement_forward(
    position: Vec2,
    path: &mut Path,
    history: &mut History<PlatformMoment>,
    time_scale: i32,
    now_ms: i64,
) -> (applied_velocity: Vec2)
    requires
        0 < time_scale <= TIME_SCALE_LIMIT,
        old(path).wf(),
        history_wf(old(history).moments@),
    ensures
        final(path).points == old(path).points,
        final(path).speed == old(path).speed,
        final(path).wf(),
        history_wf(final(history).moments@),
        final(history).moments@.len() >= old(history).moments@.len(),
        ({
            let r = forward_step(
                old(path).points@,
                old(path).speed as int,
                old(path).index as int,
                position,
                old(history).moments@,
                now_ms as int,
            );
            &&& final(path).index as int == r.0
            &&& final(history).moments@ == r.1
        }),
        vec2_int(applied_velocity) == forward_applied_velocity(
            old(path).points@,
            old(path).speed as int,
            old(path).index as int,
            position,
            old(history).moments@,
            time_scale as int,
        ),
{
    let goal = path.points[path.index];
    let mut new_velocity = velocity_toward_exec(position, goal, path.speed);

    let n = history.len();
    let passed = if n == 0 {
        true
    } else {
        let last_velocity = match history.moments[n - 1].data {
            PlatformMoment::ChangeDirection { velocity, .. } => velocity,
        };
        opposes(new_velocity, last_velocity)
    };

    if passed {
        path.index = if path.index == path.points.len() - 1 {
            0
        } else {
            path.index + 1
        };
        let goal = path.points[path.index];
        new_velocity = velocity_toward_exec(position, goal, path.speed);
        history.record(
            PlatformMoment::ChangeDirection { velocity: new_velocity, position },
            now_ms,
        );
    }

    scale_velocity(new_velocity, time_scale)
}

/// One backward (or paused) tick for one platform.
///
/// If the clock has rewound past the tail moment — or sits clamped at the
/// level start — and more than one moment remains, the tail is popped: the
/// platform's position is forcibly restored to the recorded one (continuous
/// backward integration would drift from the original forward trajectory)
/// and the cursor steps back. The velocity is then the remaining tail's
/// recorded velocity scaled by the rate, whose negative sign reverses the
/// motion; with an empty history the platform holds its last velocity.
pub fn platform_movement_backward(
    position: &mut Vec2,
    path: &mut Path,
    history: &mut History<PlatformMoment>,
    velocity: &mut Vec2,
    time_scale: i32,
    now_ms: i64,
)
    requires
        -TIME_SCALE_LIMIT <= time_scale <= 0,
        old(path).wf(),
        history_wf(old(history).moments@),
    ensures
        final(path).points == old(path).points,
        final(path).speed == old(path).speed,
        final(path).wf(),
        history_wf(final(history).moments@),
        final(history).moments@.len() <= old(history).moments@.len(),
        ({
            let r = backward_step(
                old(path).points@.len() as int,
                old(path).index as int,
                *old(position),
                old(history).moments@,
                now_ms as int,
            );
            &&& final(path).index as int == r.0
            &&& *final(position) == r.1
            &&& final(history).moments@ == r.2
        }),
        ({
            let h1 = backward_step(
                old(path).points@.len() as int,
                old(path).index as int,
                *old(position),
                old(history).moments@,
                now_ms as int,
            ).2;
            if h1.len() > 0 {
                vec2_int(*final(velocity)) == scaled(
                    vec2_int(moment_velocity(h1.last().data)),
                    time_scale as int,
                )
            } else {
                *final(velocity) == *old(velocity)
            }
        }),
{
    let n = history.len();
    if n > 1 {
        let tail_timestamp = history.moments[n - 1].timestamp;
        if now_ms < tail_timestamp || now_ms == 0 {
            let restored = match history.moments[n - 1].data {
                PlatformMoment::ChangeDirection { position, .. } => position,
            };
            *position = restored;
            history.moments.pop();
            if path.index == 0 {
                path.index = path.points.len() - 1;
            } else {
                path.index = path.index - 1;
            }
        }
    }
    let m = history.len();
    if m > 0 {
        let tail_velocity = match history.moments[m - 1].data {
            PlatformMoment::ChangeDirection { velocity, .. } => velocity,
        };
        *velocity = scale_velocity(tail_velocity, time_scale);
    }
}

/// One tick for one platform, dispatching on the clock's sign: forward play
/// integrates and records, backward play (and pause) replays.
pub fn platform_movement(
    transform: &mut Vec2,
    path: &mut Path,
    history: &mut History<PlatformMoment>,
    velocity: &mut Vec2,
    time_scale: &TimeScale,
    time_since_level_start: &TimeSinceLevelStart,
)
    requires
        -TIME_SCALE_LIMIT <= time_scale.0 <= TIME_SCALE_LIMIT,
        old(path).wf(),
        history_wf(old(history).moments@),
    ensures
        final(path).points == old(path).points,
        final(path).speed == old(path).speed,
        final(path).wf(),
        history_wf(final(history).moments@),
        time_scale.0 > 0 ==> {
            let r = forward_step(
                old(path).points@,
                old(path).speed as int,
                old(path).index as int,
                *old(transform),
                old(history).moments@,
                time_since_level_start.0 as int,
            );
            &&& final(path).index as int == r.0
            &&& final(history).moments@ == r.1
            &&& *final(transform) == *old(transform)
            &&& vec2_int(*final(velocity)) == forward_applied_velocity(
                old(path).points@,
                old(path).speed as int,
                old(path).index as int,
                *old(transform),
                old(history).moments@,
                time_scale.0 as int,
            )
        },
        time_scale.0 <= 0 ==> {
            let r = backward_step(
                old(path).points@.len() as int,
                old(path).index as int,
                *old(transform),
                old(history).moments@,
                time_since_level_start.0 as int,
            );
            &&& final(path).index as int == r.0
            &&& *final(transform) == r.1
            &&& final(history).moments@ == r.2
            &&& (if r.2.len() > 0 {
                vec2_int(*final(velocity)) == scaled(
                    vec2_int(moment_velocity(r.2.last().data)),
                    time_scale.0 as int,
                )
            } else {
                *final(velocity) == *old(velocity)
            })
        },
{
    if time_scale.0 > 0 {
        let applied = platform_movement_forward(
            *transform,
            path,
            history,
            time_scale.0,
            time_since_level_start.0,
        );
        *velocity = applied;
    } else {
        platform_movement_backward(
            transform,
            path,
            history,
            velocity,
            time_scale.0,
            time_since_level_start.0,
        );
    }
}

} // verus!
