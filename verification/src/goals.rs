//! The level's goal and what touching it means.
//!
//! Collision detection is the physics collaborator's job; the engine's share
//! is the rule applied when a player–goal contact is reported: move the level
//! selection to the next level. The goal's own looping animation is a pure
//! mapping like the player's.

use vstd::prelude::*;

use crate::animation::SpriteSheetAnimation;

verus! {

/// Marks an entity as the level's goal.
#[derive(Clone, Copy, PartialEq, Eq, Structural, Debug)]
pub struct Goal;

/// The animation every goal shows: its six-frame loop at five frames a
/// second.
pub open spec fn goal_animation() -> SpriteSheetAnimation {
    SpriteSheetAnimation { start_index: 72, end_index: 78, frame_duration_ms: 200, repeat: true }
}

impl From<Goal> for SpriteSheetAnimation {
    /// The animation for a goal, as [`goal_animation`] gives it.
    fn from(_goal: Goal) -> (r: SpriteSheetAnimation) {
        SpriteSheetAnimation {
            start_index: 72,
            end_index: 78,
            frame_duration_ms: 200,
            repeat: true,
        }
    }
}

impl vstd::std_specs::convert::FromSpecImpl<Goal> for SpriteSheetAnimation {
    open spec fn obeys_from_spec() -> bool {
        true
    }

    open spec fn from_spec(v: Goal) -> SpriteSheetAnimation {
        goal_animation()
    }
}

/// The level-progression rule applied when physics reports a player–goal
/// contact this tick: the level selection advances to the next level and the
/// caller is told to enter the next level's preamble. Without a contact
/// nothing changes.
pub fn victory(player_touched_goal: bool, level_selection: &mut usize) -> (enter_preamble: bool)
    requires
        *old(level_selection) < usize::MAX,
    ensures
        *final(level_selection) == (if player_touched_goal {
            *old(level_selection) + 1
        } else {
            *old(level_selection) as int
        }),
        enter_preamble == player_touched_goal,
{
    if player_touched_goal {
        *level_selection = *level_selection + 1;
    }
    player_touched_goal
}

} // verus!
