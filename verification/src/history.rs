//! The append-only history log that makes entities time-reversible.
//!
//! During forward play an entity records a [`Moment`] whenever it goes through
//! a discrete state transition; during rewind the log is consumed from the
//! back, strictly in reverse temporal order. The recorded data itself (never a
//! re-derivation) drives the entity while rewinding, which is what guarantees
//! exact reversal.

use vstd::prelude::*;

verus! {

/// A timestamped snapshot of one discrete state transition of one entity.
///
/// `timestamp` is the simulated time (milliseconds since level start) at which
/// the moment was recorded. A moment is immutable once created.
#[derive(Clone, Copy, Debug)]
pub struct Moment<T> {
    pub timestamp: i64,
    pub data: T,
}

/// The ordered log of [`Moment`]s for one entity.
///
/// Moments are appended at the back during forward play and popped from the
/// back during rewind, so the log is insertion-ordered and therefore
/// timestamp-ordered. It is cleared on level reset.
#[derive(Clone, Debug)]
pub struct History<T> {
    pub moments: Vec<Moment<T>>,
}

impl<T> History<T> {
    /// An empty log.
    pub fn new() -> (h: History<T>)
        ensures
            h.moments@.len() == 0,
    {
        History { moments: Vec::new() }
    }

    /// The number of recorded moments.
    pub fn len(&self) -> (n: usize)
        ensures
            n == self.moments@.len(),
    {
        self.moments.len()
    }

    /// Whether nothing has been recorded (or everything has been rewound).
    pub fn is_empty(&self) -> (r: bool)
        ensures
            r == (self.moments@.len() == 0),
    {
        self.moments.len() == 0
    }

    /// Appends a moment at the back of the log.
    ///
    /// Recording is meant for forward play only: callers reach it from the
    /// forward branch of their update logic, never while the clock's rate is
    /// negative.
    pub fn record(&mut self, data: T, timestamp: i64)
        ensures
            final(self).moments@ == old(self).moments@.push(Moment { timestamp, data }),
    {
        self.moments.push(Moment { timestamp, data });
    }

    /// One step of rewind playback.
    ///
    /// If the log is non-empty and the simulation has rewound past the tail
    /// moment (`current_time_ms` is strictly below its timestamp), the tail is
    /// popped. The result is the currently active historical state: the data
    /// of the tail after any pop, or `None` once the log is empty.
    pub fn replay_step(&mut self, current_time_ms: i64) -> (active: Option<&T>)
        ensures
            final(self).moments@ == (if Self::pops(old(self).moments@, current_time_ms) {
                old(self).moments@.drop_last()
            } else {
                old(self).moments@
            }),
            match active {
                Some(d) => {
                    &&& final(self).moments@.len() > 0
                    &&& *d == final(self).moments@.last().data
                },
                None => final(self).moments@.len() == 0,
            },
    {
        let n = self.moments.len();
        if n > 0 {
            if current_time_ms < self.moments[n - 1].timestamp {
                self.moments.pop();
            }
        }
        match self.moments.last() {
            Some(m) => Some(&m.data),
            None => None,
        }
    }

    /// Whether one `replay_step` at `current_time_ms` pops the tail of `log`.
    pub open spec fn pops(log: Seq<Moment<T>>, current_time_ms: i64) -> bool {
        log.len() > 0 && current_time_ms < log.last().timestamp
    }

    /// Empties the log. Every history is cleared when a level (re)starts.
    pub fn clear(&mut self)
        ensures
            final(self).moments@.len() == 0,
    {
        self.moments.clear();
    }
}

impl<T> Default for History<T> {
    /// An empty log.
    fn default() -> (h: History<T>)
        ensures
            h.moments@.len() == 0,
    {
        History::new()
    }
}

} // verus!
