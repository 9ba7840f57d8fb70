//! The deferred event scheduler.
//!
//! "Do X in N milliseconds" requests become `(event, fire time)` pairs in a
//! queue that is kept sorted by fire time, with ties kept in scheduling order.
//! Each simulation tick, `dispatch` advances the scheduler's real clock and
//! delivers every event whose fire time has elapsed, earliest first and
//! first-in-first-out among equal fire times; no due event is ever dropped or
//! left behind, and pending events are never reordered.
//!
//! Fire times are real-clock milliseconds, not simulated time, so pausing or
//! rate-scaling the simulation does not delay a pending event.

use vstd::prelude::*;

verus! {

/// One pending entry: an event payload and the real-clock millisecond at
/// which it becomes due.
pub struct ScheduledEvent<E> {
    pub fire_at_ms: u64,
    pub event: E,
}

/// Whether the entries of `s` are ordered by fire time (equal fire times may
/// stand in any order, which the scheduler uses to keep them first-in
/// first-out).
pub open spec fn sorted_by_fire_time<E>(s: Seq<ScheduledEvent<E>>) -> bool {
    forall|i: int, j: int| 0 <= i <= j < s.len() ==> s[i].fire_at_ms <= s[j].fire_at_ms
}

/// The index at which an entry firing at `fire_at_ms` is inserted into `s`:
/// directly after every entry that fires no later than it.
pub open spec fn insert_position<E>(s: Seq<ScheduledEvent<E>>, fire_at_ms: u64) -> int
    decreases s.len(),
{
    if s.len() == 0 || s.last().fire_at_ms <= fire_at_ms {
        s.len() as int
    } else {
        insert_position(s.drop_last(), fire_at_ms)
    }
}

/// The queue `s` after scheduling `event` to fire at `fire_at_ms`.
pub open spec fn scheduled<E>(s: Seq<ScheduledEvent<E>>, fire_at_ms: u64, event: E) -> Seq<
    ScheduledEvent<E>,
> {
    s.insert(insert_position(s, fire_at_ms), ScheduledEvent { fire_at_ms, event })
}

/// How many entries at the front of `s` are due at `now_ms`.
pub open spec fn due_count<E>(s: Seq<ScheduledEvent<E>>, now_ms: u64) -> int
    decreases s.len(),
{
    if s.len() == 0 || s[0].fire_at_ms > now_ms {
        0
    } else {
        1 + due_count(s.skip(1), now_ms)
    }
}

/// The scheduler's ordering law for insertion: a newly scheduled entry lands
/// after every pending entry that fires no later than it and before every
/// entry that fires later, and the rest of the queue keeps its order. In
/// particular, two events scheduled for the same fire time dispatch in
/// scheduling order.
pub proof fn lemma_schedule_position<E>(s: Seq<ScheduledEvent<E>>, fire_at_ms: u64, event: E)
    requires
        sorted_by_fire_time(s),
    ensures
        0 <= insert_position(s, fire_at_ms) <= s.len(),
        ({
            let pos = insert_position(s, fire_at_ms);
            let s2 = scheduled(s, fire_at_ms, event);
            &&& s2.len() == s.len() + 1
            &&& s2[pos] == (ScheduledEvent { fire_at_ms, event })
            &&& forall|j: int| 0 <= j < pos ==> s2[j] == s[j] && s[j].fire_at_ms <= fire_at_ms
            &&& forall|j: int|
                pos < j < s2.len() ==> s2[j] == s[j - 1] && s[j - 1].fire_at_ms > fire_at_ms
            &&& sorted_by_fire_time(s2)
        }),
    decreases s.len(),
{
    let pos = insert_position(s, fire_at_ms);
    lemma_insert_position_splits(s, fire_at_ms);
    s.insert_ensures(pos, ScheduledEvent { fire_at_ms, event });
}

/// Around its insert position, `s` splits into entries firing no later than
/// `fire_at_ms` and entries firing strictly later.
proof fn lemma_insert_position_splits<E>(s: Seq<ScheduledEvent<E>>, fire_at_ms: u64)
    requires
        sorted_by_fire_time(s),
    ensures
        0 <= insert_position(s, fire_at_ms) <= s.len(),
        forall|j: int| 0 <= j < insert_position(s, fire_at_ms) ==> s[j].fire_at_ms <= fire_at_ms,
        forall|j: int|
            insert_position(s, fire_at_ms) <= j < s.len() ==> s[j].fire_at_ms > fire_at_ms,
    decreases s.len(),
{
    if s.len() == 0 || s.last().fire_at_ms <= fire_at_ms {
    } else {
        lemma_insert_position_splits(s.drop_last(), fire_at_ms);
        assert(forall|j: int| 0 <= j < s.len() - 1 ==> s[j] == s.drop_last()[j]);
    }
}

/// `due_count` is the unique boundary between a due prefix and a pending
/// suffix.
proof fn lemma_due_count_boundary<E>(s: Seq<ScheduledEvent<E>>, now_ms: u64, k: int)
    requires
        0 <= k <= s.len(),
        forall|i: int| 0 <= i < k ==> s[i].fire_at_ms <= now_ms,
        k == s.len() || s[k].fire_at_ms > now_ms,
    ensures
        due_count(s, now_ms) == k,
    decreases s.len(),
{
    if k == 0 {
    } else {
        assert(s[0].fire_at_ms <= now_ms);
        let t = s.skip(1);
        assert(forall|i: int| 0 <= i < k - 1 ==> t[i] == s[i + 1]);
        lemma_due_count_boundary(t, now_ms, k - 1);
    }
}

/// The deferred event scheduler: a real-time clock plus the queue of pending
/// entries, sorted by fire time with scheduling order breaking ties.
pub struct EventScheduler<E> {
    now_ms: u64,
    queue: Vec<ScheduledEvent<E>>,
}

impl<E> EventScheduler<E> {
    /// The scheduler's current real-clock time in milliseconds.
    pub closed spec fn spec_now(&self) -> u64 {
        self.now_ms
    }

    /// The pending entries, front of the queue first.
    pub closed spec fn pending(&self) -> Seq<ScheduledEvent<E>> {
        self.queue@
    }

    /// The queue is sorted by fire time.
    pub open spec fn wf(&self) -> bool {
        sorted_by_fire_time(self.pending())
    }

    /// A scheduler with nothing pending, starting at real time zero.
    pub fn new() -> (s: EventScheduler<E>)
        ensures
            s.wf(),
            s.spec_now() == 0,
            s.pending().len() == 0,
    {
        EventScheduler { now_ms: 0, queue: Vec::new() }
    }

    /// The scheduler's current real-clock time in milliseconds.
    pub fn now(&self) -> (t: u64)
        ensures
            t == self.spec_now(),
    {
        self.now_ms
    }

    /// How many events are pending.
    pub fn pending_len(&self) -> (n: usize)
        ensures
            n == self.pending().len(),
    {
        self.queue.len()
    }

    /// Enqueues `event` to fire `delay_ms` milliseconds from now. A delay of
    /// zero means "on the next dispatch pass", never synchronously.
    /// Scheduling is infallible and reorders nothing else in the queue.
    pub fn schedule(&mut self, event: E, delay_ms: u64)
        requires
            old(self).wf(),
            old(self).spec_now() + delay_ms <= u64::MAX,
        ensures
            final(self).wf(),
            final(self).spec_now() == old(self).spec_now(),
            final(self).pending() == scheduled(
                old(self).pending(),
                (old(self).spec_now() + delay_ms) as u64,
                event,
            ),
            final(self).pending().len() == old(self).pending().len() + 1,
    {
        let fire_at_ms = self.now_ms + delay_ms;
        let ghost q0 = self.queue@;
        proof {
            assert(q0.take(q0.len() as int) =~= q0);
        }
        let mut i: usize = self.queue.len();
        while i > 0 && self.queue[i - 1].fire_at_ms > fire_at_ms
            invariant
                self.now_ms == old(self).now_ms,
                self.queue@ == q0,
                0 <= i <= q0.len(),
                insert_position(q0, fire_at_ms) == insert_position(q0.take(i as int), fire_at_ms),
            decreases i,
        {
            proof {
                assert(q0.take(i as int).last() == q0[i as int - 1]);
                assert(q0.take(i as int).drop_last() =~= q0.take(i as int - 1));
            }
            i = i - 1;
        }
        proof {
            if i > 0 {
                assert(q0.take(i as int).last() == q0[i as int - 1]);
            }
            assert(insert_position(q0.take(i as int), fire_at_ms) == i as int);
            lemma_schedule_position(q0, fire_at_ms, event);
        }
        self.queue.insert(i, ScheduledEvent { fire_at_ms, event });
    }

    /// Advances real time by `delta_ms` and delivers every event whose fire
    /// time has elapsed: the due entries leave the queue and come back in
    /// fire-time order (scheduling order among ties), while entries that are
    /// not yet due stay untouched — nothing due is ever starved or dropped.
    pub fn dispatch(&mut self, delta_ms: u64) -> (fired: Vec<E>)
        requires
            old(self).wf(),
            old(self).spec_now() + delta_ms <= u64::MAX,
        ensures
            final(self).wf(),
            final(self).spec_now() == old(self).spec_now() + delta_ms,
            ({
                let k = due_count(old(self).pending(), final(self).spec_now());
                &&& fired@.len() == k
                &&& forall|i: int| 0 <= i < k ==> fired@[i] == old(self).pending()[i].event
                &&& forall|i: int|
                    0 <= i < k ==> old(self).pending()[i].fire_at_ms <= final(self).spec_now()
                &&& final(self).pending() == old(self).pending().skip(k)
            }),
            forall|i: int|
                0 <= i < final(self).pending().len() ==> final(self).pending()[i].fire_at_ms
                    > final(self).spec_now(),
    {
        self.now_ms = self.now_ms + delta_ms;
        let ghost q0 = self.queue@;
        let ghost now = self.now_ms;
        let mut fired: Vec<E> = Vec::new();
        while self.queue.len() > 0 && self.queue[0].fire_at_ms <= self.now_ms
            invariant
                self.now_ms == now,
                sorted_by_fire_time(self.queue@),
                fired@.len() + self.queue@.len() == q0.len(),
                self.queue@ == q0.skip(fired@.len() as int),
                forall|i: int|
                    0 <= i < fired@.len() ==> (#[trigger] fired@[i]) == q0[i].event
                        && q0[i].fire_at_ms <= now,
            decreases self.queue.len(),
        {
            let ghost qcur = self.queue@;
            let ghost k_old = fired@.len() as int;
            proof {
                assert(qcur[0] == q0[k_old]);
                assert(qcur.remove(0) =~= qcur.skip(1));
                assert(q0.skip(k_old).skip(1) =~= q0.skip(k_old + 1));
            }
            let entry = self.queue.remove(0);
            fired.push(entry.event);
        }
        proof {
            let k = fired@.len() as int;
            if self.queue@.len() > 0 {
                assert(self.queue@[0] == q0[k]);
            }
            assert forall|i: int| 0 <= i < k implies #[trigger] q0[i].fire_at_ms <= now by {
                assert(fired@[i] == q0[i].event);
            }
            lemma_due_count_boundary(q0, now, k);
            assert(forall|i: int|
                0 <= i < self.queue@.len() ==> #[trigger] self.queue@[i].fire_at_ms
                    >= self.queue@[0].fire_at_ms);
        }
        fired
    }
}

} // verus!
