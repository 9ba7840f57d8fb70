//! A deterministic, reversible timeline engine for a platformer whose core
//! mechanic is bidirectional time control.
//!
//! The engine is built from four pieces:
//! - a global clock with a signed rate (`clock`): it integrates real elapsed
//!   time against the rate and clamps the result to the level's time window;
//! - a deferred event scheduler (`event_scheduler`): a delay-keyed queue that
//!   dispatches events in fire-time order with first-in-first-out ties;
//! - a per-entity append-only history log (`history`): discrete "moments" are
//!   recorded during forward play and popped in exact reverse during rewind;
//! - the moving-platform patrol logic (`platform`): the canonical history
//!   consumer, which records direction changes while time runs forward and
//!   replays them bit for bit while time runs backward.
//!
//! All simulated time is measured in whole milliseconds and all positions in
//! whole world units, so every contract here is exact.

pub mod animation;
pub mod clock;
pub mod event_scheduler;
pub mod goals;
pub mod ground;
pub mod history;
pub mod platform;
