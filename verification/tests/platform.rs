use timeline::clock::{TimeScale, TimeSinceLevelStart};
use timeline::history::History;
use timeline::platform::{
    platform_movement, platform_movement_backward, platform_movement_forward, Path,
    PlatformMoment, Vec2,
};

fn moment_parts(m: PlatformMoment) -> (Vec2, Vec2) {
    match m {
        PlatformMoment::ChangeDirection { velocity, position } => (velocity, position),
    }
}

/// What the physics collaborator does with the velocity this engine hands
/// out: integrate the position over one frame.
fn integrate(position: &mut Vec2, velocity: Vec2, dt_ms: i32) {
    position.x += velocity.x * dt_ms / 1000;
    position.y += velocity.y * dt_ms / 1000;
}

#[test]
fn first_direction_change_records_one_moment() {
    // A two-point patrol at speed 5 starting on its first waypoint: the very
    // first forward tick bootstraps the log with exactly one moment, aimed at
    // the second waypoint.
    let mut path = Path::new(vec![Vec2 { x: 0, y: 0 }, Vec2 { x: 10, y: 0 }], 5);
    let mut history: History<PlatformMoment> = History::new();
    let applied =
        platform_movement_forward(Vec2 { x: 0, y: 0 }, &mut path, &mut history, 1, 0);
    assert_eq!(path.index, 1);
    assert_eq!(history.len(), 1);
    let (velocity, position) = moment_parts(history.moments[0].data);
    assert_eq!(velocity, Vec2 { x: 5, y: 0 });
    assert_eq!(position, Vec2 { x: 0, y: 0 });
    assert_eq!(history.moments[0].timestamp, 0);
    assert_eq!(applied, Vec2 { x: 5, y: 0 });
}

#[test]
fn no_change_is_recorded_mid_leg() {
    let mut path = Path::new(vec![Vec2 { x: 0, y: 0 }, Vec2 { x: 10, y: 0 }], 5);
    let mut history: History<PlatformMoment> = History::new();
    platform_movement_forward(Vec2 { x: 0, y: 0 }, &mut path, &mut history, 1, 0);
    // Mid-leg: still heading the recorded way, nothing new recorded.
    let applied =
        platform_movement_forward(Vec2 { x: 4, y: 0 }, &mut path, &mut history, 1, 800);
    assert_eq!(path.index, 1);
    assert_eq!(history.len(), 1);
    assert_eq!(applied, Vec2 { x: 5, y: 0 });
}

#[test]
fn applied_velocity_scales_with_the_rate() {
    let mut path = Path::new(vec![Vec2 { x: 0, y: 0 }, Vec2 { x: 10, y: 0 }], 5);
    let mut history: History<PlatformMoment> = History::new();
    let applied =
        platform_movement_forward(Vec2 { x: 0, y: 0 }, &mut path, &mut history, 10, 0);
    assert_eq!(applied, Vec2 { x: 50, y: 0 });
}

#[test]
fn forward_then_backward_restores_cursor_history_and_position() {
    // A three-point loop at speed 5, driven 200 ms a frame: forward past two
    // direction changes, then rewound the same distance. The rewind pops
    // exactly the recorded stretch: cursor and history return to their
    // pre-stretch values and the position is restored onto the original
    // trajectory, even though backward play uses replay instead of physics.
    let points = vec![Vec2 { x: 0, y: 0 }, Vec2 { x: 10, y: 0 }, Vec2 { x: 10, y: 10 }];
    let mut path = Path::new(points, 5);
    let mut history: History<PlatformMoment> = History::new();
    let mut position = Vec2 { x: 0, y: 0 };
    let mut velocity = Vec2 { x: 0, y: 0 };

    // Forward play: ticks at t = 0, 200, ..., 2400.
    for k in 0..13 {
        let t = TimeSinceLevelStart(200 * k);
        platform_movement(
            &mut position,
            &mut path,
            &mut history,
            &mut velocity,
            &TimeScale(1),
            &t,
        );
        integrate(&mut position, velocity, 200);
    }
    // The bootstrap change at t=0 and the corner change at t=2000.
    assert_eq!(history.len(), 2);
    assert_eq!(path.index, 2);
    assert_eq!(position, Vec2 { x: 10, y: 3 });
    let (corner_velocity, corner_position) = moment_parts(history.moments[1].data);
    assert_eq!(corner_velocity, Vec2 { x: 0, y: 5 });
    assert_eq!(corner_position, Vec2 { x: 10, y: 0 });
    assert_eq!(history.moments[1].timestamp, 2000);

    // Backward play: ticks at t = 2200, 2000, ..., 200.
    for k in (1..12).rev() {
        let t = TimeSinceLevelStart(200 * k);
        platform_movement(
            &mut position,
            &mut path,
            &mut history,
            &mut velocity,
            &TimeScale(-1),
            &t,
        );
        integrate(&mut position, velocity, 200);
    }

    // The corner moment was popped, the bootstrap moment never is.
    assert_eq!(history.len(), 1);
    assert_eq!(path.index, 1);
    // Velocity replays the recorded leg with its sign flipped by the rate.
    assert_eq!(velocity, Vec2 { x: -5, y: 0 });
    // Back on the first leg's trajectory, one frame from the start.
    assert_eq!(position, Vec2 { x: 1, y: 0 });
    let (first_velocity, first_position) = moment_parts(history.moments[0].data);
    assert_eq!(first_velocity, Vec2 { x: 5, y: 0 });
    assert_eq!(first_position, Vec2 { x: 0, y: 0 });
}

#[test]
fn backward_pop_restores_the_recorded_position_exactly() {
    let mut path = Path::new(vec![Vec2 { x: 0, y: 0 }, Vec2 { x: 10, y: 0 }], 5);
    let mut history: History<PlatformMoment> = History::new();
    history.record(
        PlatformMoment::ChangeDirection {
            velocity: Vec2 { x: 5, y: 0 },
            position: Vec2 { x: 0, y: 0 },
        },
        0,
    );
    history.record(
        PlatformMoment::ChangeDirection {
            velocity: Vec2 { x: -5, y: 0 },
            position: Vec2 { x: 10, y: 0 },
        },
        2000,
    );
    path.index = 0;
    // However far the platform drifted, the pop restores the recorded spot.
    let mut position = Vec2 { x: 7, y: 3 };
    let mut velocity = Vec2 { x: 0, y: 0 };
    platform_movement_backward(&mut position, &mut path, &mut history, &mut velocity, -1, 1500);
    assert_eq!(position, Vec2 { x: 10, y: 0 });
    assert_eq!(history.len(), 1);
    assert_eq!(path.index, 1);
    assert_eq!(velocity, Vec2 { x: -5, y: 0 });
}

#[test]
fn backward_with_one_moment_never_pops_it() {
    let mut path = Path::new(vec![Vec2 { x: 0, y: 0 }, Vec2 { x: 10, y: 0 }], 5);
    let mut history: History<PlatformMoment> = History::new();
    history.record(
        PlatformMoment::ChangeDirection {
            velocity: Vec2 { x: 5, y: 0 },
            position: Vec2 { x: 0, y: 0 },
        },
        500,
    );
    path.index = 1;
    let mut position = Vec2 { x: 3, y: 0 };
    let mut velocity = Vec2 { x: 0, y: 0 };
    platform_movement_backward(&mut position, &mut path, &mut history, &mut velocity, -10, 100);
    assert_eq!(history.len(), 1);
    assert_eq!(path.index, 1);
    assert_eq!(position, Vec2 { x: 3, y: 0 });
    // The lone moment still replays, scaled by the rate.
    assert_eq!(velocity, Vec2 { x: -50, y: 0 });
}

#[test]
fn backward_with_empty_history_holds_the_last_velocity() {
    let mut path = Path::new(vec![Vec2 { x: 0, y: 0 }, Vec2 { x: 10, y: 0 }], 5);
    let mut history: History<PlatformMoment> = History::new();
    let mut position = Vec2 { x: 3, y: 0 };
    let mut velocity = Vec2 { x: 4, y: 4 };
    platform_movement_backward(&mut position, &mut path, &mut history, &mut velocity, -1, 100);
    assert_eq!(velocity, Vec2 { x: 4, y: 4 });
    assert_eq!(position, Vec2 { x: 3, y: 0 });
}

#[test]
fn backward_at_level_start_pops_down_to_the_bootstrap() {
    let mut path = Path::new(vec![Vec2 { x: 0, y: 0 }, Vec2 { x: 10, y: 0 }], 5);
    let mut history: History<PlatformMoment> = History::new();
    history.record(
        PlatformMoment::ChangeDirection {
            velocity: Vec2 { x: 5, y: 0 },
            position: Vec2 { x: 0, y: 0 },
        },
        0,
    );
    history.record(
        PlatformMoment::ChangeDirection {
            velocity: Vec2 { x: -5, y: 0 },
            position: Vec2 { x: 10, y: 0 },
        },
        0,
    );
    path.index = 0;
    // Clamped at the level start, pops continue even though now is not
    // below the tail's timestamp.
    let mut position = Vec2 { x: 5, y: 0 };
    let mut velocity = Vec2 { x: 0, y: 0 };
    platform_movement_backward(&mut position, &mut path, &mut history, &mut velocity, 0, 0);
    assert_eq!(history.len(), 1);
    assert_eq!(position, Vec2 { x: 10, y: 0 });
    // A paused rate zeroes the replayed velocity.
    assert_eq!(velocity, Vec2 { x: 0, y: 0 });
}

#[test]
fn cursor_wraps_around_the_loop_in_both_directions() {
    let points = vec![Vec2 { x: 0, y: 0 }, Vec2 { x: 10, y: 0 }, Vec2 { x: 10, y: 10 }];
    let mut path = Path::new(points, 5);
    let mut history: History<PlatformMoment> = History::new();
    // Bootstrap: cursor 0 -> 1.
    platform_movement_forward(Vec2 { x: 0, y: 0 }, &mut path, &mut history, 1, 0);
    // Standing on the target flips the candidate to zero: cursor 1 -> 2.
    platform_movement_forward(Vec2 { x: 10, y: 0 }, &mut path, &mut history, 1, 1000);
    // And again: cursor 2 -> 0, wrapping forward.
    platform_movement_forward(Vec2 { x: 10, y: 10 }, &mut path, &mut history, 1, 2000);
    assert_eq!(path.index, 0);
    assert_eq!(history.len(), 3);

    // Rewinding pops back: 0 -> 2 wraps backward.
    let mut position = Vec2 { x: 10, y: 10 };
    let mut velocity = Vec2 { x: 0, y: 0 };
    platform_movement_backward(&mut position, &mut path, &mut history, &mut velocity, -1, 1500);
    assert_eq!(path.index, 2);
    assert_eq!(history.len(), 2);
}

#[test]
fn path_well_formedness_check() {
    let empty = Path::new(vec![], 5);
    assert!(!empty.is_wf());
    let good = Path::new(vec![Vec2 { x: 0, y: 0 }], 5);
    assert!(good.is_wf());
    let too_fast = Path::new(vec![Vec2 { x: 0, y: 0 }], 2_000_000);
    assert!(!too_fast.is_wf());
}

#[test]
fn default_platform_moment_is_a_zero_change() {
    let (velocity, position) = moment_parts(PlatformMoment::default());
    assert_eq!(velocity, Vec2 { x: 0, y: 0 });
    assert_eq!(position, Vec2 { x: 0, y: 0 });
}
