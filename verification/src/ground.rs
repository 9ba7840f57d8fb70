//! Ground contact bookkeeping.
//!
//! The physics collaborator resolves collisions and reports start/stop
//! contact events; what belongs to this engine is the bookkeeping built on
//! them: each ground sensor keeps the set of ground entities it currently
//! intersects, an entity is on the ground exactly while that set is
//! non-empty, and an entity standing on a moving platform inherits the
//! platform's horizontal velocity — which is how the time-reversible
//! platforms carry their riders.

use vstd::prelude::*;

verus! {

/// A start or stop of contact between two entities, as the physics
/// collaborator reports it.
#[derive(Clone, Copy, PartialEq, Eq, Structural, Debug)]
pub enum CollisionEvent {
    Started(u64, u64),
    Stopped(u64, u64),
}

/// The ground sensor hanging under an entity: the entity whose ground state
/// it feeds, and the ground entities it currently intersects (a set, kept
/// without duplicates).
#[derive(Clone, Debug)]
pub struct GroundSensor {
    pub ground_detection_entity: u64,
    pub intersecting_ground_entities: Vec<u64>,
}

/// Whether an entity currently stands on ground.
#[derive(Clone, Copy, PartialEq, Eq, Structural, Debug)]
pub struct GroundDetection {
    pub on_ground: bool,
}

/// The entity on the other side of a collision that involves `sensor`, or
/// nothing if the collision does not involve it.
pub open spec fn other_of(a: u64, b: u64, sensor: u64) -> Option<u64> {
    if a == sensor {
        Some(b)
    } else if b == sensor {
        Some(a)
    } else {
        None
    }
}

/// Whether `e` intersects the sensor after folding `events` over an initial
/// membership: a started contact with a collidable adds it, a stopped
/// contact removes it, later events overriding earlier ones.
pub open spec fn member_after(
    events: Seq<CollisionEvent>,
    sensor: u64,
    collidables: Seq<u64>,
    initially: bool,
    e: u64,
) -> bool
    decreases events.len(),
{
    if events.len() == 0 {
        initially
    } else {
        let prev = member_after(events.drop_last(), sensor, collidables, initially, e);
        match events.last() {
            CollisionEvent::Started(a, b) => {
                if other_of(a, b, sensor) == Some(e) && collidables.contains(e) {
                    true
                } else {
                    prev
                }
            },
            CollisionEvent::Stopped(a, b) => {
                if other_of(a, b, sensor) == Some(e) {
                    false
                } else {
                    prev
                }
            },
        }
    }
}

/// A sensor's intersection list never holds an entity twice.
pub open spec fn no_duplicates(s: Seq<u64>) -> bool {
    forall|i: int, j: int| 0 <= i < j < s.len() ==> s[i] != s[j]
}

impl GroundSensor {
    /// A fresh sensor for `entity`, intersecting nothing.
    pub fn new(entity: u64) -> (s: GroundSensor)
        ensures
            s.ground_detection_entity == entity,
            s.intersecting_ground_entities@.len() == 0,
            no_duplicates(s.intersecting_ground_entities@),
    {
        GroundSensor { ground_detection_entity: entity, intersecting_ground_entities: Vec::new() }
    }

    /// The runtime check that the intersection list is still a set. Every
    /// operation here preserves that, so this is for hosts that assembled a
    /// sensor by hand.
    pub fn is_wf(&self) -> (r: bool)
        ensures
            r == no_duplicates(self.intersecting_ground_entities@),
    {
        let v = &self.intersecting_ground_entities;
        let n = v.len();
        let mut i: usize = 0;
        while i < n
            invariant
                v@ == self.intersecting_ground_entities@,
                n == v@.len(),
                0 <= i <= n,
                forall|a: int, b: int| 0 <= a < b < n && a < i ==> v@[a] != v@[b],
            decreases n - i,
        {
            let mut j: usize = i + 1;
            while j < n
                invariant
                    v@ == self.intersecting_ground_entities@,
                    n == v@.len(),
                    0 <= i < n,
                    i < j <= n,
                    forall|b: int| i < b < j ==> v@[i as int] != v@[b],
                decreases n - j,
            {
                if v[i] == v[j] {
                    proof {
                        assert(v@[i as int] == v@[j as int]);
                    }
                    return false;
                }
                j = j + 1;
            }
            i = i + 1;
        }
        true
    }
}

/// Whether `v` holds `id`, executably.
fn contains_id(v: &Vec<u64>, id: u64) -> (r: bool)
    ensures
        r == v@.contains(id),
{
    let mut i: usize = 0;
    while i < v.len()
        invariant
            0 <= i <= v@.len(),
            forall|j: int| 0 <= j < i ==> v@[j] != id,
        decreases v@.len() - i,
    {
        if v[i] == id {
            return true;
        }
        i = i + 1;
    }
    false
}

/// Adds `id` to the set unless already there.
fn insert_id(v: &mut Vec<u64>, id: u64)
    requires
        no_duplicates(old(v)@),
    ensures
        no_duplicates(final(v)@),
        forall|e: u64| final(v)@.contains(e) == (old(v)@.contains(e) || e == id),
{
    let ghost v0 = v@;
    if !contains_id(v, id) {
        v.push(id);
        proof {
            assert(no_duplicates(v0));
            assert forall|a: int, b: int| 0 <= a < b < v@.len() implies v@[a] != v@[b] by {
                if b < v0.len() {
                    assert(v0[a] != v0[b]);
                } else {
                    assert(v@[b] == id);
                    assert(v@[a] == v0[a]);
                    assert(!v0.contains(id));
                }
            }
            assert forall|e: u64| v@.contains(e) == (v0.contains(e) || e == id) by {
                if v0.contains(e) {
                    let j = choose|j: int| 0 <= j < v0.len() && v0[j] == e;
                    assert(v@[j] == e);
                }
                assert(v@[v0.len() as int] == id);
                if v@.contains(e) {
                    let j = choose|j: int| 0 <= j < v@.len() && v@[j] == e;
                    if j < v0.len() {
                        assert(v0[j] == e);
                    }
                }
            }
        }
    }
}

/// Removes `id` from the set if present.
fn remove_id(v: &mut Vec<u64>, id: u64)
    requires
        no_duplicates(old(v)@),
    ensures
        no_duplicates(final(v)@),
        forall|e: u64| final(v)@.contains(e) == (old(v)@.contains(e) && e != id),
{
    let ghost v0 = v@;
    let mut i: usize = 0;
    while i < v.len()
        invariant
            v@ == v0,
            v0 == old(v)@,
            no_duplicates(v0),
            0 <= i <= v0.len(),
            forall|j: int| 0 <= j < i ==> v0[j] != id,
        decreases v0.len() - i,
    {
        if v[i] == id {
            v.remove(i);
            proof {
                let k = i as int;
                v0.remove_ensures(k);
                assert(no_duplicates(v0));
                assert(v@ == v0.remove(k));
                assert forall|a: int| 0 <= a < v@.len() implies v@[a] == v0[
                    if a < k {
                        a
                    } else {
                        a + 1
                    }
                ] by {
                    if a < k {
                        assert(v0.remove(k)[a] == v0[a]);
                    } else {
                        assert(v0.remove(k)[a] == v0[a + 1]);
                    }
                }
                assert forall|a: int, b: int| 0 <= a < b < v@.len() implies v@[a] != v@[b] by {
                    let ia = if a < k {
                        a
                    } else {
                        a + 1
                    };
                    let ib = if b < k {
                        b
                    } else {
                        b + 1
                    };
                    assert(v@[a] == v0[ia]);
                    assert(v@[b] == v0[ib]);
                    assert(ia < ib);
                }
                assert forall|e: u64| v@.contains(e) == (v0.contains(e) && e != id) by {
                    if v@.contains(e) {
                        let j = choose|j: int| 0 <= j < v@.len() && v@[j] == e;
                        if j < k {
                            assert(v0[j] == e);
                        } else {
                            assert(v0[j + 1] == e);
                            assert(v0[k] == id);
                        }
                        assert(e != id);
                    }
                    if v0.contains(e) && e != id {
                        let j = choose|j: int| 0 <= j < v0.len() && v0[j] == e;
                        if j < k {
                            assert(v@[j] == e);
                        } else {
                            assert(j != k);
                            assert(v@[j - 1] == e);
                        }
                    }
                }
            }
            return ;
        }
        i = i + 1;
    }
}

/// Replays this tick's collision events into one ground sensor and updates
/// its entity's ground state.
///
/// Each started contact between the sensor and a collidable ground entity
/// adds that entity to the intersection set; each stopped contact removes
/// it, in event order. Afterwards the entity is on the ground exactly while
/// the set is non-empty.
pub fn ground_detection(
    sensor: &mut GroundSensor,
    sensor_entity: u64,
    events: &Vec<CollisionEvent>,
    collidables: &Vec<u64>,
    detection: &mut GroundDetection,
)
    requires
        no_duplicates(old(sensor).intersecting_ground_entities@),
    ensures
        final(sensor).ground_detection_entity == old(sensor).ground_detection_entity,
        no_duplicates(final(sensor).intersecting_ground_entities@),
        forall|e: u64|
            final(sensor).intersecting_ground_entities@.contains(e) == member_after(
                events@,
                sensor_entity,
                collidables@,
                old(sensor).intersecting_ground_entities@.contains(e),
                e,
            ),
        final(detection).on_ground == (final(sensor).intersecting_ground_entities@.len() > 0),
{
    let ghost initial = sensor.intersecting_ground_entities@;
    let mut i: usize = 0;
    while i < events.len()
        invariant
            sensor.ground_detection_entity == old(sensor).ground_detection_entity,
            0 <= i <= events@.len(),
            no_duplicates(sensor.intersecting_ground_entities@),
            forall|e: u64|
                sensor.intersecting_ground_entities@.contains(e) == member_after(
                    events@.take(i as int),
                    sensor_entity,
                    collidables@,
                    initial.contains(e),
                    e,
                ),
        decreases events@.len() - i,
    {
        proof {
            assert(events@.take(i as int + 1).drop_last() =~= events@.take(i as int));
            assert(events@.take(i as int + 1).last() == events@[i as int]);
        }
        match events[i] {
            CollisionEvent::Started(a, b) => {
                let other = if a == sensor_entity {
                    Some(b)
                } else if b == sensor_entity {
                    Some(a)
                } else {
                    None
                };
                if let Some(other) = other {
                    if contains_id(collidables, other) {
                        insert_id(&mut sensor.intersecting_ground_entities, other);
                    }
                }
            },
            CollisionEvent::Stopped(a, b) => {
                let other = if a == sensor_entity {
                    Some(b)
                } else if b == sensor_entity {
                    Some(a)
                } else {
                    None
                };
                if let Some(other) = other {
                    remove_id(&mut sensor.intersecting_ground_entities, other);
                }
            },
        }
        i = i + 1;
    }
    proof {
        assert(events@.take(events@.len() as int) =~= events@);
    }
    detection.on_ground = sensor.intersecting_ground_entities.len() > 0;
}

/// The first velocity registered for `id`, if any.
pub open spec fn velocity_of(grounds: Seq<(u64, i32)>, id: u64) -> Option<i32>
    decreases grounds.len(),
{
    if grounds.len() == 0 {
        None
    } else if grounds[0].0 == id {
        Some(grounds[0].1)
    } else {
        velocity_of(grounds.skip(1), id)
    }
}

/// The total horizontal velocity the listed ground entities carry.
pub open spec fn carried_velocity(intersecting: Seq<u64>, grounds: Seq<(u64, i32)>) -> int
    decreases intersecting.len(),
{
    if intersecting.len() == 0 {
        0
    } else {
        carried_velocity(intersecting.drop_last(), grounds) + (match velocity_of(
            grounds,
            intersecting.last(),
        ) {
            Some(v) => v as int,
            None => 0,
        })
    }
}

/// Looks up the first velocity registered for `id`, executably.
fn velocity_of_exec(grounds: &Vec<(u64, i32)>, id: u64) -> (r: Option<i32>)
    ensures
        r == velocity_of(grounds@, id),
{
    proof {
        assert(grounds@.skip(0) =~= grounds@);
    }
    let mut i: usize = 0;
    while i < grounds.len()
        invariant
            0 <= i <= grounds@.len(),
            velocity_of(grounds@, id) == velocity_of(grounds@.skip(i as int), id),
        decreases grounds@.len() - i,
    {
        proof {
            assert(grounds@.skip(i as int)[0] == grounds@[i as int]);
            assert(grounds@.skip(i as int).skip(1) =~= grounds@.skip(i as int + 1));
        }
        if grounds[i].0 == id {
            return Some(grounds[i].1);
        }
        i = i + 1;
    }
    proof {
        assert(grounds@.skip(grounds@.len() as int) =~= Seq::<(u64, i32)>::empty());
    }
    None
}

/// Carries an entity along with whatever it stands on.
///
/// While the entity is on the ground, the horizontal velocities of all the
/// ground entities its sensor intersects — a moving platform under its feet
/// — are added to its own; airborne entities are left alone. Velocities are
/// summed without bound only in the mathematics; the caller keeps them in
/// range by keeping speeds and rider counts sane, which the precondition
/// spells out.
pub fn move_object_with_ground(
    velocity_x: i64,
    on_ground: bool,
    sensor: &GroundSensor,
    ground_velocities: &Vec<(u64, i32)>,
) -> (carried: i64)
    requires
        -0x1000_0000_0000_0000 <= velocity_x <= 0x1000_0000_0000_0000,
        sensor.intersecting_ground_entities@.len() <= 0x100_0000,
    ensures
        carried == velocity_x + (if on_ground {
            carried_velocity(sensor.intersecting_ground_entities@, ground_velocities@)
        } else {
            0int
        }),
{
    if !on_ground {
        return velocity_x;
    }
    let ghost ids = sensor.intersecting_ground_entities@;
    proof {
        lemma_carried_velocity_bound(ids, ground_velocities@);
    }
    let mut total: i64 = velocity_x;
    let mut i: usize = 0;
    while i < sensor.intersecting_ground_entities.len()
        invariant
            -0x1000_0000_0000_0000 <= velocity_x <= 0x1000_0000_0000_0000,
            ids == sensor.intersecting_ground_entities@,
            ids.len() <= 0x100_0000,
            0 <= i <= ids.len(),
            total == velocity_x + carried_velocity(ids.take(i as int), ground_velocities@),
        decreases ids.len() - i,
    {
        proof {
            assert(ids.take(i as int + 1).drop_last() =~= ids.take(i as int));
            assert(ids.take(i as int + 1).last() == ids[i as int]);
            lemma_carried_velocity_bound(ids.take(i as int), ground_velocities@);
            lemma_carried_velocity_bound(ids.take(i as int + 1), ground_velocities@);
        }
        match velocity_of_exec(ground_velocities, sensor.intersecting_ground_entities[i]) {
            Some(v) => {
                total = total + v as i64;
            },
            None => {},
        }
        i = i + 1;
    }
    proof {
        assert(ids.take(ids.len() as int) =~= ids);
    }
    total
}

/// The carried velocity of `n` ground entities is at most `n` full 32-bit
/// velocities in magnitude, so the running total stays representable.
proof fn lemma_carried_velocity_bound(intersecting: Seq<u64>, grounds: Seq<(u64, i32)>)
    ensures
        -0x8000_0000 * intersecting.len() <= carried_velocity(intersecting, grounds)
            <= 0x8000_0000 * intersecting.len(),
    decreases intersecting.len(),
{
    if intersecting.len() > 0 {
        lemma_carried_velocity_bound(intersecting.drop_last(), grounds);
    }
}

} // verus!
