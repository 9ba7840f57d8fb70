//! Sprite-sheet animation selection for the player.
//!
//! Rendering itself is an external collaborator; what belongs to the engine
//! is the pure mapping from a player's animation marker to the sprite-sheet
//! frames and cadence to show for it, re-evaluated whenever the marker
//! changes.

use vstd::prelude::*;

verus! {

/// A stretch of sprite-sheet frames played on a fixed cadence: the frame
/// indices `[start_index, end_index)`, the real time each frame is shown,
/// and whether the stretch loops.
#[derive(Clone, Copy, PartialEq, Eq, Structural, Debug)]
pub struct SpriteSheetAnimation {
    pub start_index: usize,
    pub end_index: usize,
    pub frame_duration_ms: u64,
    pub repeat: bool,
}

/// What the player is visibly doing, as far as animation cares.
#[derive(Clone, Copy, PartialEq, Eq, Structural, Debug)]
pub enum PlayerAnimationState {
    Idle,
    Running,
    Falling,
}

/// The animation shown for each player state: a single idle frame, the
/// four-frame run cycle, or the single falling frame, all looping at five
/// frames a second.
pub open spec fn player_animation(state: PlayerAnimationState) -> SpriteSheetAnimation {
    match state {
        PlayerAnimationState::Idle => SpriteSheetAnimation {
            start_index: 0,
            end_index: 1,
            frame_duration_ms: 200,
            repeat: true,
        },
        PlayerAnimationState::Running => SpriteSheetAnimation {
            start_index: 4,
            end_index: 8,
            frame_duration_ms: 200,
            repeat: true,
        },
        PlayerAnimationState::Falling => SpriteSheetAnimation {
            start_index: 8,
            end_index: 9,
            frame_duration_ms: 200,
            repeat: true,
        },
    }
}

impl From<PlayerAnimationState> for SpriteSheetAnimation {
    /// The animation for `animation_state`, as [`player_animation`] gives it.
    fn from(animation_state: PlayerAnimationState) -> (r: SpriteSheetAnimation) {
        match animation_state {
            PlayerAnimationState::Idle => SpriteSheetAnimation {
                start_index: 0,
                end_index: 1,
                frame_duration_ms: 200,
                repeat: true,
            },
            PlayerAnimationState::Running => SpriteSheetAnimation {
                start_index: 4,
                end_index: 8,
                frame_duration_ms: 200,
                repeat: true,
            },
            PlayerAnimationState::Falling => SpriteSheetAnimation {
                start_index: 8,
                end_index: 9,
                frame_duration_ms: 200,
                repeat: true,
            },
        }
    }
}

impl vstd::std_specs::convert::FromSpecImpl<PlayerAnimationState> for SpriteSheetAnimation {
    open spec fn obeys_from_spec() -> bool {
        true
    }

    open spec fn from_spec(v: PlayerAnimationState) -> SpriteSheetAnimation {
        player_animation(v)
    }
}

} // verus!
