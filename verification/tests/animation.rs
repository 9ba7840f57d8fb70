use timeline::animation::{PlayerAnimationState, SpriteSheetAnimation};
use timeline::goals::{victory, Goal};

#[test]
fn player_states_map_to_their_frame_stretches() {
    let idle = SpriteSheetAnimation::from(PlayerAnimationState::Idle);
    assert_eq!(idle.start_index, 0);
    assert_eq!(idle.end_index, 1);
    assert_eq!(idle.frame_duration_ms, 200);
    assert!(idle.repeat);

    let running = SpriteSheetAnimation::from(PlayerAnimationState::Running);
    assert_eq!(running.start_index, 4);
    assert_eq!(running.end_index, 8);

    let falling = SpriteSheetAnimation::from(PlayerAnimationState::Falling);
    assert_eq!(falling.start_index, 8);
    assert_eq!(falling.end_index, 9);
}

#[test]
fn goal_maps_to_its_frame_stretch() {
    let animation = SpriteSheetAnimation::from(Goal);
    assert_eq!(animation.start_index, 72);
    assert_eq!(animation.end_index, 78);
    assert_eq!(animation.frame_duration_ms, 200);
    assert!(animation.repeat);
}

#[test]
fn touching_the_goal_advances_the_level() {
    let mut level = 3;
    let enter_preamble = victory(true, &mut level);
    assert_eq!(level, 4);
    assert!(enter_preamble);
}

#[test]
fn no_contact_means_no_progression() {
    let mut level = 3;
    let enter_preamble = victory(false, &mut level);
    assert_eq!(level, 3);
    assert!(!enter_preamble);
}
