use platformer::fixed::{Vec2, LIMIT, UNIT};
use platformer::level::ConfigError;
use platformer::platformer::{
    platformer_controller_update, platformer_move, PlatformerCollisionInfo, PlatformerController,
    PlatformerInput, PlatformerMoveDelta, PlatformerRaycaster, JUMP_SPEED,
};
use platformer::player::{
    get_keyboard_input, spawn_player, Body, StepError, PLAYER_HEIGHT, PLAYER_WIDTH,
};
use platformer::sweep::{Axis, DebugLine, Ray};

const TICK: i64 = 167;

fn contacts(above: bool, below: bool) -> PlatformerCollisionInfo {
    PlatformerCollisionInfo { above, below, left: false, right: false }
}

fn intent(x_movement: i64, jumping: bool) -> PlatformerInput {
    PlatformerInput { x_movement, jumping }
}

fn update(
    velocity: Vec2,
    input: PlatformerInput,
    info: PlatformerCollisionInfo,
    dt: i64,
) -> (Vec2, Vec2) {
    let mut controller = PlatformerController::default();
    controller.velocity = velocity;
    let mut delta = PlatformerMoveDelta(Vec2 { x: 9, y: 9 });
    platformer_controller_update(&mut controller, &input, &mut delta, &info, dt);
    assert_eq!(controller.max_speed, 50_000);
    assert_eq!(controller.acceleration, 1_000);
    assert_eq!(controller.deceleration, 1_000);
    assert_eq!(controller.gravity, 150_000);
    (controller.velocity, delta.0)
}

#[test]
fn default_controller_and_components() {
    let controller = PlatformerController::default();
    assert_eq!(controller.max_speed, 5 * UNIT);
    assert_eq!(controller.acceleration, UNIT / 10);
    assert_eq!(controller.deceleration, UNIT / 10);
    assert_eq!(controller.gravity, 15 * UNIT);
    assert_eq!(controller.velocity, Vec2 { x: 0, y: 0 });
    assert!(controller.is_wf());
    assert_eq!(JUMP_SPEED, 8 * UNIT);
    assert_eq!(PlatformerInput::default(), intent(0, false));
    assert_eq!(PlatformerMoveDelta::default(), PlatformerMoveDelta(Vec2 { x: 0, y: 0 }));
    assert_eq!(PlatformerCollisionInfo::default(), contacts(false, false));
}

#[test]
fn controller_limits() {
    let good = PlatformerController::default();
    let broken = [
        PlatformerController { max_speed: -1, ..good },
        PlatformerController { max_speed: LIMIT + 1, ..good },
        PlatformerController { acceleration: 0, ..good },
        PlatformerController { acceleration: LIMIT + 1, ..good },
        PlatformerController { deceleration: 0, ..good },
        PlatformerController { deceleration: -1_000, ..good },
        PlatformerController { gravity: LIMIT + 1, ..good },
        PlatformerController { gravity: -LIMIT - 1, ..good },
        PlatformerController { velocity: Vec2 { x: LIMIT + 1, y: 0 }, ..good },
        PlatformerController { velocity: Vec2 { x: 0, y: -LIMIT - 1 }, ..good },
    ];
    for controller in broken.iter() {
        assert!(!controller.is_wf());
    }
    let edge = PlatformerController {
        max_speed: 0,
        acceleration: 1,
        deceleration: LIMIT,
        gravity: -LIMIT,
        velocity: Vec2 { x: LIMIT, y: -LIMIT },
    };
    assert!(edge.is_wf());
}

#[test]
fn reset_clears_every_flag() {
    let mut info = PlatformerCollisionInfo { above: true, below: true, left: true, right: true };
    info.reset();
    assert_eq!(info, contacts(false, false));
    let mut info = PlatformerCollisionInfo { above: false, below: true, left: false, right: true };
    info.reset();
    assert_eq!(info, contacts(false, false));
}

#[test]
fn jump_from_the_ground_outweighs_gravity() {
    let (velocity, delta) = update(Vec2 { x: 0, y: -30_000 }, intent(0, true), contacts(false, true), TICK);
    assert_eq!(velocity.y, 77_495);
    assert_eq!(delta.y, 1_294);
    assert!(delta.y > 0);
    assert_eq!(velocity.x, 0);
    assert_eq!(delta.x, 0);
}

#[test]
fn jump_needs_ground_below() {
    let (velocity, delta) = update(Vec2 { x: 0, y: 10_000 }, intent(0, true), contacts(false, false), TICK);
    assert_eq!(velocity.y, 7_495);
    assert_eq!(delta.y, 125);
    let (velocity, _) = update(Vec2 { x: 0, y: 10_000 }, intent(0, true), contacts(true, false), TICK);
    assert_eq!(velocity.y, -2_505);
}

#[test]
fn contact_above_or_below_cancels_vertical_velocity() {
    let (velocity, delta) = update(Vec2 { x: 0, y: -30_000 }, intent(0, false), contacts(false, true), TICK);
    assert_eq!(velocity.y, -2_505);
    assert_eq!(delta.y, -41);
    let (velocity, _) = update(Vec2 { x: 0, y: 50_000 }, intent(0, false), contacts(true, false), TICK);
    assert_eq!(velocity.y, -2_505);
    let (velocity, _) = update(Vec2 { x: 0, y: 50_000 }, intent(0, false), contacts(true, true), TICK);
    assert_eq!(velocity.y, -2_505);
}

#[test]
fn side_contacts_do_not_cancel_vertical_velocity() {
    let info = PlatformerCollisionInfo { above: false, below: false, left: true, right: true };
    let (velocity, _) = update(Vec2 { x: 0, y: 50_000 }, intent(0, true), info, TICK);
    assert_eq!(velocity.y, 47_495);
}

#[test]
fn gravity_accumulates_in_free_fall() {
    let (velocity, delta) = update(Vec2 { x: 0, y: 0 }, intent(0, false), contacts(false, false), 2_000);
    assert_eq!(velocity.y, -30_000);
    assert_eq!(delta.y, -6_000);
    let (velocity, delta) = update(velocity, intent(0, false), contacts(false, false), 2_000);
    assert_eq!(velocity.y, -60_000);
    assert_eq!(delta.y, -12_000);
}

#[test]
fn intent_accelerates_toward_the_greatest_speed() {
    let (velocity, delta) = update(Vec2 { x: 0, y: 0 }, intent(UNIT, false), contacts(false, true), TICK);
    assert_eq!(velocity.x, 8_350);
    assert_eq!(delta.x, 139);
    let (velocity, delta) = update(Vec2 { x: 0, y: 0 }, intent(-UNIT, false), contacts(false, true), TICK);
    assert_eq!(velocity.x, -8_350);
    assert_eq!(delta.x, -139);
    let (velocity, _) = update(Vec2 { x: 0, y: 0 }, intent(UNIT / 2, false), contacts(false, true), TICK);
    assert_eq!(velocity.x, 4_175);
    let (velocity, _) = update(Vec2 { x: 0, y: 0 }, intent(1, false), contacts(false, true), TICK);
    assert_eq!(velocity.x, 0);
    let (velocity, _) = update(Vec2 { x: 10_000, y: 0 }, intent(-UNIT, false), contacts(false, true), TICK);
    assert_eq!(velocity.x, 1_650);
}

#[test]
fn horizontal_speed_is_held_within_the_greatest_speed() {
    let (velocity, delta) = update(Vec2 { x: 45_000, y: 0 }, intent(UNIT, false), contacts(false, true), TICK);
    assert_eq!(velocity.x, 50_000);
    assert_eq!(delta.x, 835);
    let (velocity, _) = update(Vec2 { x: -45_000, y: 0 }, intent(-UNIT, false), contacts(false, true), TICK);
    assert_eq!(velocity.x, -50_000);
    let (velocity, _) = update(Vec2 { x: 90_000, y: 0 }, intent(UNIT, false), contacts(false, true), TICK);
    assert_eq!(velocity.x, 50_000);
    let (velocity, _) = update(Vec2 { x: 90_000, y: 0 }, intent(-UNIT, false), contacts(false, true), TICK);
    assert_eq!(velocity.x, 50_000);
    let (velocity, _) = update(Vec2 { x: 0, y: 0 }, intent(UNIT, false), contacts(false, true), 10 * UNIT);
    assert_eq!(velocity.x, 50_000);
}

#[test]
fn without_intent_the_body_slows_down_and_stops() {
    let (velocity, delta) = update(Vec2 { x: 20_000, y: 0 }, intent(0, false), contacts(false, true), TICK);
    assert_eq!(velocity.x, 11_650);
    assert_eq!(delta.x, 194);
    let (velocity, _) = update(Vec2 { x: -20_000, y: 0 }, intent(0, false), contacts(false, true), TICK);
    assert_eq!(velocity.x, -11_650);
    let (velocity, delta) = update(Vec2 { x: 5_000, y: 0 }, intent(0, false), contacts(false, true), TICK);
    assert_eq!(velocity.x, 0);
    assert_eq!(delta.x, 0);
    let (velocity, _) = update(Vec2 { x: -8_350, y: 0 }, intent(0, false), contacts(false, true), TICK);
    assert_eq!(velocity.x, 0);
    let (velocity, _) = update(Vec2 { x: 8_351, y: 0 }, intent(0, false), contacts(false, true), TICK);
    assert_eq!(velocity.x, 1);
}

#[test]
fn step_of_no_time_moves_nothing() {
    let (velocity, delta) = update(Vec2 { x: 20_000, y: 30_000 }, intent(UNIT, false), contacts(false, false), 0);
    assert_eq!(velocity, Vec2 { x: 20_000, y: 30_000 });
    assert_eq!(delta, Vec2 { x: 0, y: 0 });
    let (velocity, delta) = update(Vec2 { x: 20_000, y: 30_000 }, intent(0, true), contacts(false, true), 0);
    assert_eq!(velocity, Vec2 { x: 20_000, y: JUMP_SPEED });
    assert_eq!(delta, Vec2 { x: 0, y: 0 });
}

#[test]
fn update_at_the_limits() {
    let mut controller = PlatformerController {
        max_speed: LIMIT,
        acceleration: 1,
        deceleration: 1,
        gravity: LIMIT,
        velocity: Vec2 { x: -LIMIT, y: -LIMIT },
    };
    let mut delta = PlatformerMoveDelta::default();
    platformer_controller_update(&mut controller, &intent(UNIT, false), &mut delta, &contacts(false, false), LIMIT);
    assert_eq!(controller.velocity.x, LIMIT);
    assert_eq!(controller.velocity.y, -LIMIT - 25_000_000_000_000);
    assert_eq!(delta.0.x, 25_000_000_000_000);
    assert_eq!(delta.0.y, -1_250_025_000_000_000_000);
    controller.velocity = Vec2 { x: -LIMIT, y: LIMIT };
    controller.gravity = -LIMIT;
    platformer_controller_update(&mut controller, &intent(0, false), &mut delta, &contacts(false, false), LIMIT);
    assert_eq!(controller.velocity.x, 0);
    assert_eq!(delta.0.y, 1_250_025_000_000_000_000);
}

#[test]
fn move_adds_the_delta() {
    let mut position = Vec2 { x: 100, y: 200 };
    platformer_move(&PlatformerMoveDelta(Vec2 { x: -30, y: 40 }), &mut position);
    assert_eq!(position, Vec2 { x: 70, y: 240 });
    platformer_move(&PlatformerMoveDelta(Vec2 { x: 0, y: 0 }), &mut position);
    assert_eq!(position, Vec2 { x: 70, y: 240 });
    let mut far = Vec2 { x: i64::MAX - 5, y: i64::MIN + 5 };
    platformer_move(&PlatformerMoveDelta(Vec2 { x: 5, y: -5 }), &mut far);
    assert_eq!(far, Vec2 { x: i64::MAX, y: i64::MIN });
}

#[test]
fn keys_become_intent() {
    let mut input = intent(1_234, true);
    get_keyboard_input(&mut input, false, false, false, false);
    assert_eq!(input, intent(0, false));
    get_keyboard_input(&mut input, true, false, false, false);
    assert_eq!(input, intent(-UNIT, false));
    get_keyboard_input(&mut input, false, true, false, false);
    assert_eq!(input, intent(UNIT, false));
    get_keyboard_input(&mut input, true, true, false, false);
    assert_eq!(input, intent(0, false));
    get_keyboard_input(&mut input, false, false, true, false);
    assert_eq!(input, intent(0, true));
    get_keyboard_input(&mut input, false, true, false, true);
    assert_eq!(input, intent(UNIT, true));
    get_keyboard_input(&mut input, true, false, true, true);
    assert_eq!(input, intent(-UNIT, true));
}

#[test]
fn player_is_spawned_at_rest() {
    let body = spawn_player(Vec2 { x: 3, y: -4 });
    assert_eq!((PLAYER_WIDTH, PLAYER_HEIGHT), (UNIT, 3 * UNIT / 2));
    assert_eq!(body.position, Vec2 { x: 3, y: -4 });
    assert_eq!(body.half_extent, Vec2 { x: 5_000, y: 7_500 });
    assert_eq!(body.input, PlatformerInput::default());
    assert_eq!(body.controller, PlatformerController::default());
    assert_eq!(body.raycaster, PlatformerRaycaster::default());
    assert_eq!(body.delta, PlatformerMoveDelta::default());
    assert_eq!(body.collision_info, PlatformerCollisionInfo::default());
    assert_eq!(Body::new(Vec2 { x: 3, y: -4 }, Vec2 { x: 5_000, y: 7_500 }), Ok(body));
}

#[test]
fn body_without_width_or_height_is_refused() {
    let at = Vec2 { x: 0, y: 0 };
    assert_eq!(Body::new(at, Vec2 { x: 0, y: 7_500 }), Err(ConfigError::DegenerateBody));
    assert_eq!(Body::new(at, Vec2 { x: 5_000, y: 0 }), Err(ConfigError::DegenerateBody));
    assert_eq!(Body::new(at, Vec2 { x: -1, y: 7_500 }), Err(ConfigError::DegenerateBody));
    assert_eq!(Body::new(at, Vec2 { x: 5_000, y: i64::MIN }), Err(ConfigError::DegenerateBody));
    assert_eq!(Body::new(at, Vec2 { x: 0, y: 0 }), Err(ConfigError::DegenerateBody));
    assert!(Body::new(at, Vec2 { x: 1, y: 1 }).is_ok());
    assert!(Body::new(at, Vec2 { x: i64::MAX, y: i64::MAX }).is_ok());
}

#[test]
fn body_bounds_are_position_less_and_plus_half_extent() {
    let body = spawn_player(Vec2 { x: 20_000, y: -10_000 });
    assert!(body.is_bounded());
    let bounds = body.compute_aabb();
    assert_eq!(bounds.mins, Vec2 { x: 15_000, y: -17_500 });
    assert_eq!(bounds.maxs, Vec2 { x: 25_000, y: -2_500 });
    assert!(spawn_player(Vec2 { x: LIMIT - 5_000, y: -LIMIT + 7_500 }).is_bounded());
    assert!(!spawn_player(Vec2 { x: LIMIT - 4_999, y: 0 }).is_bounded());
    assert!(!spawn_player(Vec2 { x: 0, y: -LIMIT + 7_499 }).is_bounded());
    assert!(!spawn_player(Vec2 { x: i64::MAX, y: i64::MIN }).is_bounded());
    let mut flat = body;
    flat.half_extent.y = 0;
    assert!(!flat.is_bounded());
}

#[test]
fn step_in_open_space_falls_freely() {
    let world = |_ray: Ray| -> Option<i64> { None };
    let mut body = spawn_player(Vec2 { x: 0, y: 0 });
    let mut lines: Vec<DebugLine> = Vec::new();
    assert_eq!(body.step(2_000, &world, &mut lines), Ok(()));
    assert_eq!(body.controller.velocity, Vec2 { x: 0, y: -30_000 });
    assert_eq!(body.delta, PlatformerMoveDelta(Vec2 { x: 0, y: -6_000 }));
    assert_eq!(body.position, Vec2 { x: 0, y: -6_000 });
    assert_eq!(body.collision_info, contacts(false, false));
    assert_eq!(body.raycaster.origins.bottom_left, Vec2 { x: -4_850, y: -7_350 });
    assert_eq!(lines.len(), 4);
    body.input = intent(UNIT, false);
    assert_eq!(body.step(2_000, &world, &mut lines), Ok(()));
    assert_eq!(body.controller.velocity, Vec2 { x: 50_000, y: -60_000 });
    assert_eq!(body.position, Vec2 { x: 10_000, y: -18_000 });
    assert_eq!(body.raycaster.origins.bottom_left, Vec2 { x: -4_850, y: -13_350 });
    assert_eq!(lines.len(), 12);
    assert_eq!(body.half_extent, Vec2 { x: 5_000, y: 7_500 });
    assert_eq!(body.input, intent(UNIT, false));
}

#[test]
fn step_uses_the_contacts_of_the_step_before() {
    let floor = |ray: Ray| -> Option<i64> {
        let toi = ray.origin.y;
        if ray.direction.y < 0 && 0 <= toi && toi <= ray.max_toi {
            Some(toi)
        } else {
            None
        }
    };
    let mut body = spawn_player(Vec2 { x: 0, y: 7_500 + 5_000 });
    let mut lines: Vec<DebugLine> = Vec::new();
    body.input = intent(0, true);
    assert_eq!(body.step(2_000, &floor, &mut lines), Ok(()));
    assert_eq!(body.position, Vec2 { x: 0, y: 7_500 });
    assert_eq!(body.delta.0, Vec2 { x: 0, y: -5_000 });
    assert_eq!(body.controller.velocity.y, -30_000);
    assert!(body.collision_info.below);
    assert_eq!(body.step(TICK, &floor, &mut lines), Ok(()));
    assert_eq!(body.controller.velocity.y, 77_495);
    assert_eq!(body.position, Vec2 { x: 0, y: 7_500 + 1_294 });
    assert!(!body.collision_info.below && !body.collision_info.above);
    assert_eq!(body.step(TICK, &floor, &mut lines), Ok(()));
    assert_eq!(body.controller.velocity.y, 74_990);
}

#[test]
fn step_that_cannot_be_computed_is_not_taken() {
    let world = |_ray: Ray| -> Option<i64> { Some(0) };
    let marker = DebugLine { start: Vec2 { x: 1, y: 2 }, end: Vec2 { x: 3, y: 4 }, axis: Axis::Vertical };
    let good = spawn_player(Vec2 { x: 0, y: 0 });
    let mut broken = Vec::new();
    broken.push((good, -1));
    broken.push((good, LIMIT + 1));
    let mut body = good;
    body.position.x = LIMIT;
    broken.push((body, TICK));
    body = good;
    body.half_extent.x = 0;
    broken.push((body, TICK));
    body = good;
    body.controller.acceleration = 0;
    broken.push((body, TICK));
    body = good;
    body.controller.velocity.y = LIMIT + 1;
    broken.push((body, TICK));
    body = good;
    body.input.x_movement = UNIT + 1;
    broken.push((body, TICK));
    body = good;
    body.raycaster.margin = -1;
    broken.push((body, TICK));
    body = good;
    body.controller.velocity.y = -LIMIT;
    body.controller.gravity = LIMIT;
    broken.push((body, LIMIT));
    for (before, dt) in broken {
        let mut body = before;
        let mut lines = vec![marker];
        assert_eq!(body.step(dt, &world, &mut lines), Err(StepError::OutOfRange));
        assert_eq!(body, before);
        assert_eq!(lines, vec![marker]);
    }
    let mut body = good;
    let mut lines = vec![marker];
    assert_eq!(body.step(0, &world, &mut lines), Ok(()));
    assert_eq!(body.position, good.position);
    assert_eq!(lines, vec![marker]);
}

#[test]
fn horizontal_speed_is_contained() {
    let speeds: [i64; 7] = [-50_000, -8_351, -1, 0, 1, 8_350, 50_000];
    let steps: [i64; 5] = [0, 1, TICK, 2_000, LIMIT];
    for &speed in speeds.iter() {
        for &dt in steps.iter() {
            for &x_movement in [-UNIT, -1, 1, UNIT / 2, UNIT].iter() {
                let (velocity, _) = update(Vec2 { x: speed, y: 0 }, intent(x_movement, false), contacts(false, true), dt);
                assert!(velocity.x.abs() <= 50_000);
            }
            let (velocity, _) = update(Vec2 { x: speed, y: 0 }, intent(0, false), contacts(false, true), dt);
            assert!(velocity.x.abs() <= speed.abs());
            assert!(velocity.x == 0 || velocity.x.signum() == speed.signum());
        }
    }
}

#[test]
fn jump_speed_does_not_depend_on_the_velocity_before() {
    for &before in [-LIMIT, -30_000, 0, 77_495, LIMIT].iter() {
        for &above in [false, true].iter() {
            let (velocity, delta) = update(Vec2 { x: 0, y: before }, intent(0, true), contacts(above, true), TICK);
            assert_eq!(velocity.y, JUMP_SPEED - 2_505);
            assert_eq!(delta.y, 1_294);
        }
    }
}
