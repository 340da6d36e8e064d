use platformer::fixed::{Vec2, LIMIT, UNIT};
use platformer::platformer::{update_raycaster, Aabb, PlatformerRaycaster, RaycastOrigins, MIN_RAY_COUNT};
use platformer::sweep::{
    cast_ray, debug_line, Axis, AxisSweep, DebugLine, Ray, ORIGIN_LIMIT, RAY_FILTER, RAY_MEMBERSHIPS,
};

fn player_bounds() -> Aabb {
    Aabb { mins: Vec2 { x: -5_000, y: -7_500 }, maxs: Vec2 { x: 5_000, y: 7_500 } }
}

fn refreshed_default() -> PlatformerRaycaster {
    let mut raycaster = PlatformerRaycaster::default();
    update_raycaster(&mut raycaster, &player_bounds());
    raycaster
}

#[test]
fn default_raycaster() {
    let raycaster = PlatformerRaycaster::default();
    assert_eq!(raycaster.margin, 150);
    assert_eq!(raycaster.horizontal_ray_count, 4);
    assert_eq!(raycaster.vertical_ray_count, 4);
    assert_eq!(raycaster.horizontal_ray_spacing, 0);
    assert_eq!(raycaster.vertical_ray_spacing, 0);
    assert_eq!(raycaster.origins, RaycastOrigins::default());
    assert_eq!(raycaster.origins.top_left, Vec2 { x: 0, y: 0 });
    assert_eq!(raycaster.origins.bottom_right, Vec2 { x: 0, y: 0 });
}

#[test]
fn refresh_draws_the_corners_inward_by_the_margin() {
    let raycaster = refreshed_default();
    assert_eq!(raycaster.margin, 150);
    assert_eq!(raycaster.origins.bottom_left, Vec2 { x: -4_850, y: -7_350 });
    assert_eq!(raycaster.origins.bottom_right, Vec2 { x: 4_850, y: -7_350 });
    assert_eq!(raycaster.origins.top_left, Vec2 { x: -4_850, y: 7_350 });
    assert_eq!(raycaster.origins.top_right, Vec2 { x: 4_850, y: 7_350 });
}

#[test]
fn refresh_divides_the_inner_edges() {
    let raycaster = refreshed_default();
    assert_eq!(raycaster.horizontal_ray_spacing, 4_900);
    assert_eq!(raycaster.vertical_ray_spacing, 3_233);
    let mut wide = PlatformerRaycaster::default();
    wide.horizontal_ray_count = 8;
    wide.vertical_ray_count = 3;
    update_raycaster(&mut wide, &player_bounds());
    assert_eq!(wide.horizontal_ray_count, 8);
    assert_eq!(wide.vertical_ray_count, 3);
    assert_eq!(wide.horizontal_ray_spacing, 2_100);
    assert_eq!(wide.vertical_ray_spacing, 4_850);
}

#[test]
fn refresh_raises_ray_counts_to_two() {
    assert_eq!(MIN_RAY_COUNT, 2);
    for &(horizontal, vertical) in [(0u32, 0u32), (1, 0), (0, 1), (1, 1)].iter() {
        let mut raycaster = PlatformerRaycaster::default();
        raycaster.horizontal_ray_count = horizontal;
        raycaster.vertical_ray_count = vertical;
        update_raycaster(&mut raycaster, &player_bounds());
        assert_eq!(raycaster.horizontal_ray_count, 2);
        assert_eq!(raycaster.vertical_ray_count, 2);
        assert_eq!(raycaster.horizontal_ray_spacing, 14_700);
        assert_eq!(raycaster.vertical_ray_spacing, 9_700);
    }
    let mut many = PlatformerRaycaster::default();
    many.horizontal_ray_count = u32::MAX;
    many.vertical_ray_count = 2;
    update_raycaster(&mut many, &player_bounds());
    assert_eq!(many.horizontal_ray_count, u32::MAX);
    assert_eq!(many.horizontal_ray_spacing, 0);
    assert_eq!(many.vertical_ray_count, 2);
}

#[test]
fn refresh_follows_the_bounds() {
    let mut raycaster = refreshed_default();
    let moved = Aabb { mins: Vec2 { x: 20_000, y: 1_000 }, maxs: Vec2 { x: 23_000, y: 2_000 } };
    update_raycaster(&mut raycaster, &moved);
    assert_eq!(raycaster.origins.bottom_left, Vec2 { x: 20_150, y: 1_150 });
    assert_eq!(raycaster.origins.top_right, Vec2 { x: 22_850, y: 1_850 });
    assert_eq!(raycaster.horizontal_ray_spacing, 233);
    assert_eq!(raycaster.vertical_ray_spacing, 900);
}

#[test]
fn refresh_with_a_margin_wider_than_the_body() {
    let mut raycaster = PlatformerRaycaster::default();
    raycaster.margin = 80;
    let bounds = Aabb { mins: Vec2 { x: 0, y: 0 }, maxs: Vec2 { x: 100, y: 100 } };
    update_raycaster(&mut raycaster, &bounds);
    assert_eq!(raycaster.origins.bottom_left, Vec2 { x: 80, y: 80 });
    assert_eq!(raycaster.origins.top_right, Vec2 { x: 20, y: 20 });
    assert_eq!(raycaster.horizontal_ray_spacing, -20);
    assert_eq!(raycaster.vertical_ray_spacing, -20);
}

#[test]
fn refresh_at_the_limits() {
    let mut raycaster = PlatformerRaycaster::default();
    raycaster.margin = LIMIT;
    raycaster.horizontal_ray_count = 2;
    let bounds = Aabb { mins: Vec2 { x: LIMIT, y: LIMIT }, maxs: Vec2 { x: -LIMIT, y: -LIMIT } };
    update_raycaster(&mut raycaster, &bounds);
    assert_eq!(raycaster.origins.bottom_left, Vec2 { x: 2 * LIMIT, y: 2 * LIMIT });
    assert_eq!(raycaster.origins.top_right, Vec2 { x: -2 * LIMIT, y: -2 * LIMIT });
    assert_eq!(raycaster.horizontal_ray_spacing, -4 * LIMIT);
    assert!(Aabb { mins: Vec2 { x: LIMIT, y: 0 }, maxs: Vec2 { x: 0, y: -LIMIT } }.is_within_limit());
    assert!(!Aabb { mins: Vec2 { x: LIMIT + 1, y: 0 }, maxs: Vec2 { x: 0, y: 0 } }.is_within_limit());
    assert!(!Aabb { mins: Vec2 { x: 0, y: 0 }, maxs: Vec2 { x: 0, y: -LIMIT - 1 } }.is_within_limit());
}

#[test]
fn corners_and_samples_stay_within_the_shrunk_bounds() {
    let boxes = [
        (Vec2 { x: -5_000, y: -7_500 }, Vec2 { x: 5_000, y: 7_500 }),
        (Vec2 { x: 0, y: 0 }, Vec2 { x: 301, y: 1_000 }),
        (Vec2 { x: -LIMIT, y: -LIMIT }, Vec2 { x: LIMIT, y: LIMIT }),
        (Vec2 { x: 17, y: -40_000 }, Vec2 { x: 90_000, y: -39_000 }),
    ];
    for &(mins, maxs) in boxes.iter() {
        for &margin in [0i64, 1, 150].iter() {
            for &count in [2u32, 3, 4, 7, 1_000].iter() {
                let bounds = Aabb { mins, maxs };
                let mut raycaster = PlatformerRaycaster::default();
                raycaster.margin = margin;
                raycaster.horizontal_ray_count = count;
                raycaster.vertical_ray_count = count;
                update_raycaster(&mut raycaster, &bounds);
                let (left, right) = (mins.x + margin, maxs.x - margin);
                let (bottom, top) = (mins.y + margin, maxs.y - margin);
                let origins = raycaster.origins;
                for corner in [origins.top_left, origins.top_right, origins.bottom_left, origins.bottom_right] {
                    assert!(left <= corner.x && corner.x <= right);
                    assert!(bottom <= corner.y && corner.y <= top);
                }
                for index in 0..count as i64 {
                    let up = origins.bottom_left.y + raycaster.horizontal_ray_spacing * index;
                    let along = origins.bottom_left.x + raycaster.vertical_ray_spacing * index;
                    assert!(bottom <= up && up <= top);
                    assert!(left <= along && along <= right);
                }
            }
        }
    }
}

#[test]
fn horizontal_rays_leave_the_edge_that_faces_the_travel() {
    let raycaster = refreshed_default();
    let right = AxisSweep::begin(20_000, raycaster.margin);
    let ray = cast_ray(&raycaster, Axis::Horizontal, &right, 2, 0);
    assert_eq!(
        ray,
        Ray {
            origin: Vec2 { x: 4_850, y: 2_450 },
            direction: Vec2 { x: UNIT, y: 0 },
            max_toi: 20_150,
            solid: true,
            memberships: RAY_MEMBERSHIPS,
            filter: RAY_FILTER,
        }
    );
    let left = AxisSweep::begin(-300, raycaster.margin);
    let ray = cast_ray(&raycaster, Axis::Horizontal, &left, 0, 0);
    assert_eq!(ray.origin, Vec2 { x: -4_850, y: -7_350 });
    assert_eq!(ray.direction, Vec2 { x: -UNIT, y: 0 });
    assert_eq!(ray.max_toi, 450);
    let ray = cast_ray(&raycaster, Axis::Horizontal, &left, 3, 0);
    assert_eq!(ray.origin, Vec2 { x: -4_850, y: 7_350 });
}

#[test]
fn horizontal_rays_ignore_the_shift() {
    let raycaster = refreshed_default();
    let sweep = AxisSweep::begin(20_000, raycaster.margin);
    assert_eq!(
        cast_ray(&raycaster, Axis::Horizontal, &sweep, 1, 777),
        cast_ray(&raycaster, Axis::Horizontal, &sweep, 1, 0)
    );
}

#[test]
fn vertical_rays_are_shifted_by_the_horizontal_displacement() {
    let raycaster = refreshed_default();
    let down = AxisSweep::begin(-6_000, raycaster.margin);
    let ray = cast_ray(&raycaster, Axis::Vertical, &down, 0, 0);
    assert_eq!(ray.origin, Vec2 { x: -4_850, y: -7_350 });
    assert_eq!(ray.direction, Vec2 { x: 0, y: -UNIT });
    assert_eq!(ray.max_toi, 6_150);
    assert!(ray.solid);
    assert_eq!((ray.memberships, ray.filter), (0b0001, 0b0010));
    let ray = cast_ray(&raycaster, Axis::Vertical, &down, 3, 2_850);
    assert_eq!(ray.origin, Vec2 { x: -4_850 + 3 * 3_233 + 2_850, y: -7_350 });
    let up = AxisSweep::begin(1_294, raycaster.margin);
    let ray = cast_ray(&raycaster, Axis::Vertical, &up, 1, -40);
    assert_eq!(ray.origin, Vec2 { x: -4_850 + 3_233 - 40, y: 7_350 });
    assert_eq!(ray.direction, Vec2 { x: 0, y: UNIT });
    assert_eq!(ray.max_toi, 1_444);
}

#[test]
fn rays_carry_the_current_search_length() {
    let raycaster = refreshed_default();
    let mut sweep = AxisSweep::begin(20_000, raycaster.margin);
    sweep.record(Some(3_150));
    let ray = cast_ray(&raycaster, Axis::Horizontal, &sweep, 1, 0);
    assert_eq!(ray.max_toi, 3_150);
    assert_eq!(ray.origin, Vec2 { x: 4_850, y: -2_450 });
}

#[test]
fn farthest_ray_origin_fits() {
    let mut raycaster = PlatformerRaycaster::default();
    raycaster.margin = LIMIT;
    raycaster.horizontal_ray_count = 2;
    raycaster.vertical_ray_count = u32::MAX;
    let bounds = Aabb { mins: Vec2 { x: LIMIT, y: LIMIT }, maxs: Vec2 { x: -LIMIT, y: -LIMIT } };
    update_raycaster(&mut raycaster, &bounds);
    let sweep = AxisSweep::begin(LIMIT, raycaster.margin);
    let ray = cast_ray(&raycaster, Axis::Horizontal, &sweep, u32::MAX - 1, 0);
    assert_eq!(ray.origin.y, 2 * LIMIT - 4 * LIMIT * (u32::MAX as i64 - 1));
    assert!(ray.origin.y >= -ORIGIN_LIMIT);
    assert_eq!(ORIGIN_LIMIT, 4 * LIMIT * (1i64 << 32));
    let line = debug_line(&ray, &sweep);
    assert_eq!(line.end.x, ray.origin.x + 2 * LIMIT);
}

#[test]
fn debug_line_runs_along_the_ray() {
    let raycaster = refreshed_default();
    let mut sweep = AxisSweep::begin(-6_000, raycaster.margin);
    let ray = cast_ray(&raycaster, Axis::Vertical, &sweep, 0, 0);
    assert_eq!(
        debug_line(&ray, &sweep),
        DebugLine {
            start: Vec2 { x: -4_850, y: -7_350 },
            end: Vec2 { x: -4_850, y: -13_500 },
            axis: Axis::Vertical,
        }
    );
    sweep.record(Some(5_150));
    assert_eq!(
        debug_line(&ray, &sweep),
        DebugLine {
            start: Vec2 { x: -4_850, y: -7_350 },
            end: Vec2 { x: -4_850, y: -12_500 },
            axis: Axis::Vertical,
        }
    );
    let right = AxisSweep::begin(1_000, raycaster.margin);
    let ray = cast_ray(&raycaster, Axis::Horizontal, &right, 0, 0);
    assert_eq!(
        debug_line(&ray, &right),
        DebugLine {
            start: Vec2 { x: 4_850, y: -7_350 },
            end: Vec2 { x: 6_000, y: -7_350 },
            axis: Axis::Horizontal,
        }
    );
}
