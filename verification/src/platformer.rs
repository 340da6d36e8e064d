//! The components that the kernel keeps for a body and the four systems that
//! run on them in each step: the motion integrator, the raycaster's refresh,
//! the collision resolver and the position applier.
use vstd::prelude::*;
use crate::fixed::{
    LIMIT, UNIT, Vec2, clamped, div_toward_zero, magnitude, mul_div, mul_div_within,
    product_bounds, quotient, quotient_bounds, sign_of, within_limit,
};
use crate::math::{move_towards, moved_towards};
use crate::sweep::{
    Axis, AxisSweep, DebugLine, Ray, cast_ray, debug_line, pass_only_shortens, pass_ray, ray_line,
    shortens,
};

verus! {

/// The smallest number of rays that may leave one edge of a body.
pub const MIN_RAY_COUNT: u32 = 2;

/// The vertical speed a jump sets, in sub-units a second.
pub const JUMP_SPEED: i64 = 80_000;

/// The four corners of a body's bounds, drawn inward by the raycaster's margin.
#[derive(Clone, Copy, Debug, PartialEq, Eq, Structural)]
pub struct RaycastOrigins {
    pub top_left: Vec2,
    pub top_right: Vec2,
    pub bottom_left: Vec2,
    pub bottom_right: Vec2,
}

/// The ray grid of one body: how many rays leave each edge, how far apart, and
/// from which corners.
#[derive(Clone, Copy, Debug, PartialEq, Eq, Structural)]
pub struct PlatformerRaycaster {
    pub margin: i64,
    pub horizontal_ray_count: u32,
    pub vertical_ray_count: u32,
    pub horizontal_ray_spacing: i64,
    pub vertical_ray_spacing: i64,
    pub origins: RaycastOrigins,
}

impl PlatformerRaycaster {
    /// The margin is not negative, and margin, corners and spacings are small
    /// enough that every ray origin can be computed.
    pub open spec fn wf(&self) -> bool {
        &&& 0 <= self.margin <= LIMIT
        &&& -4 * LIMIT <= self.horizontal_ray_spacing <= 4 * LIMIT
        &&& -4 * LIMIT <= self.vertical_ray_spacing <= 4 * LIMIT
        &&& -2 * LIMIT <= self.origins.top_left.x <= 2 * LIMIT
        &&& -2 * LIMIT <= self.origins.top_left.y <= 2 * LIMIT
        &&& -2 * LIMIT <= self.origins.top_right.x <= 2 * LIMIT
        &&& -2 * LIMIT <= self.origins.top_right.y <= 2 * LIMIT
        &&& -2 * LIMIT <= self.origins.bottom_left.x <= 2 * LIMIT
        &&& -2 * LIMIT <= self.origins.bottom_left.y <= 2 * LIMIT
        &&& -2 * LIMIT <= self.origins.bottom_right.x <= 2 * LIMIT
        &&& -2 * LIMIT <= self.origins.bottom_right.y <= 2 * LIMIT
    }

    /// Tells whether the raycaster is well-formed.
    pub fn is_wf(&self) -> (ok: bool)
        ensures
            ok == self.wf(),
    {
        0 <= self.margin && self.margin <= LIMIT && -4 * LIMIT <= self.horizontal_ray_spacing
            && self.horizontal_ray_spacing <= 4 * LIMIT && -4 * LIMIT <= self.vertical_ray_spacing
            && self.vertical_ray_spacing <= 4 * LIMIT && corner_fits(&self.origins.top_left)
            && corner_fits(&self.origins.top_right) && corner_fits(&self.origins.bottom_left)
            && corner_fits(&self.origins.bottom_right)
    }
}

/// Tells whether both coordinates of a corner lie within twice the limit.
fn corner_fits(corner: &Vec2) -> (ok: bool)
    ensures
        ok == (-2 * LIMIT <= corner.x <= 2 * LIMIT && -2 * LIMIT <= corner.y <= 2 * LIMIT),
{
    -2 * LIMIT <= corner.x && corner.x <= 2 * LIMIT && -2 * LIMIT <= corner.y && corner.y <= 2
        * LIMIT
}

/// The displacement a body asks for in one step; the resolver shortens it in place.
#[derive(Clone, Copy, Debug, PartialEq, Eq, Structural)]
pub struct PlatformerMoveDelta(pub Vec2);

/// The sides of a body that touched solid geometry during the last resolution.
#[derive(Clone, Copy, Debug, PartialEq, Eq, Structural)]
pub struct PlatformerCollisionInfo {
    pub above: bool,
    pub below: bool,
    pub left: bool,
    pub right: bool,
}

impl PlatformerCollisionInfo {
    /// Clears all four flags.
    pub fn reset(&mut self)
        ensures
            *final(self) == PlatformerCollisionInfo::initial(),
    {
        self.above = false;
        self.below = false;
        self.left = false;
        self.right = false;
    }
}

/// An axis-aligned rectangle of the world, by its least and greatest corner.
#[derive(Clone, Copy, Debug, PartialEq, Eq, Structural)]
pub struct Aabb {
    pub mins: Vec2,
    pub maxs: Vec2,
}

impl Aabb {
    /// Both corners lie within the limit.
    pub open spec fn within_limit(&self) -> bool {
        self.mins.within_limit() && self.maxs.within_limit()
    }

    /// Tells whether both corners lie within the limit.
    pub fn is_within_limit(&self) -> (ok: bool)
        ensures
            ok == self.within_limit(),
    {
        self.mins.is_within_limit() && self.maxs.is_within_limit()
    }
}

/// What a body is asked to do in the coming step.
#[derive(Clone, Copy, Debug, PartialEq, Eq, Structural)]
pub struct PlatformerInput {
    /// The horizontal intent, from `-UNIT` (full left) to `UNIT` (full right).
    pub x_movement: i64,
    pub jumping: bool,
}

impl PlatformerInput {
    /// The horizontal intent is at most full either way.
    pub open spec fn wf(&self) -> bool {
        -UNIT <= self.x_movement <= UNIT
    }

    /// Tells whether the input is well-formed.
    pub fn is_wf(&self) -> (ok: bool)
        ensures
            ok == self.wf(),
    {
        -UNIT <= self.x_movement && self.x_movement <= UNIT
    }
}

/// A ray count, raised to `MIN_RAY_COUNT` where it is below it.
pub open spec fn clamped_ray_count(count: u32) -> u32 {
    if count < MIN_RAY_COUNT {
        MIN_RAY_COUNT
    } else {
        count
    }
}

/// The raycaster refreshed for a body whose bounds are `bounds`: the margin is
/// kept, the ray counts are raised to the minimum, the corners are those of
/// the bounds drawn inward by the margin on all four sides, and each spacing
/// divides an inner edge into one part less than there are rays.
pub open spec fn refreshed(raycaster: PlatformerRaycaster, bounds: Aabb) -> PlatformerRaycaster {
    let horizontal_ray_count = clamped_ray_count(raycaster.horizontal_ray_count);
    let vertical_ray_count = clamped_ray_count(raycaster.vertical_ray_count);
    let left = (bounds.mins.x + raycaster.margin) as i64;
    let bottom = (bounds.mins.y + raycaster.margin) as i64;
    let right = (bounds.maxs.x - raycaster.margin) as i64;
    let top = (bounds.maxs.y - raycaster.margin) as i64;
    PlatformerRaycaster {
        margin: raycaster.margin,
        horizontal_ray_count,
        vertical_ray_count,
        horizontal_ray_spacing: quotient(top - bottom, horizontal_ray_count - 1) as i64,
        vertical_ray_spacing: quotient(right - left, vertical_ray_count - 1) as i64,
        origins: RaycastOrigins {
            top_left: Vec2 { x: left, y: top },
            top_right: Vec2 { x: right, y: top },
            bottom_left: Vec2 { x: left, y: bottom },
            bottom_right: Vec2 { x: right, y: bottom },
        },
    }
}

/// Whether `point` lies within `bounds` drawn inward by `margin` on all sides.
pub open spec fn within_shrunk(point: Vec2, bounds: Aabb, margin: i64) -> bool {
    &&& bounds.mins.x + margin <= point.x <= bounds.maxs.x - margin
    &&& bounds.mins.y + margin <= point.y <= bounds.maxs.y - margin
}

/// With a margin of less than half the width and half the height of the
/// bounds, the four corners of a refreshed raycaster lie within the bounds
/// drawn inward by the margin.
pub proof fn origins_lie_within_bounds(raycaster: PlatformerRaycaster, bounds: Aabb)
    requires
        0 <= raycaster.margin <= LIMIT,
        bounds.within_limit(),
        2 * raycaster.margin < bounds.maxs.x - bounds.mins.x,
        2 * raycaster.margin < bounds.maxs.y - bounds.mins.y,
    ensures
        within_shrunk(refreshed(raycaster, bounds).origins.top_left, bounds, raycaster.margin),
        within_shrunk(refreshed(raycaster, bounds).origins.top_right, bounds, raycaster.margin),
        within_shrunk(refreshed(raycaster, bounds).origins.bottom_left, bounds, raycaster.margin),
        within_shrunk(refreshed(raycaster, bounds).origins.bottom_right, bounds, raycaster.margin),
{
}

/// Under the same condition the sample points along the edges stay within
/// them: going up the left edge by the horizontal spacing, once for each
/// horizontal ray but the first, never passes the top corner, and going along
/// the bottom edge by the vertical spacing never passes the right corner.
pub proof fn samples_lie_within_edges(raycaster: PlatformerRaycaster, bounds: Aabb, index: u32)
    requires
        0 <= raycaster.margin <= LIMIT,
        bounds.within_limit(),
        2 * raycaster.margin < bounds.maxs.x - bounds.mins.x,
        2 * raycaster.margin < bounds.maxs.y - bounds.mins.y,
    ensures
        index < refreshed(raycaster, bounds).horizontal_ray_count ==> refreshed(
            raycaster,
            bounds,
        ).origins.bottom_left.y <= refreshed(raycaster, bounds).origins.bottom_left.y + refreshed(
            raycaster,
            bounds,
        ).horizontal_ray_spacing * index <= refreshed(raycaster, bounds).origins.top_left.y,
        index < refreshed(raycaster, bounds).vertical_ray_count ==> refreshed(
            raycaster,
            bounds,
        ).origins.bottom_left.x <= refreshed(raycaster, bounds).origins.bottom_left.x + refreshed(
            raycaster,
            bounds,
        ).vertical_ray_spacing * index <= refreshed(raycaster, bounds).origins.bottom_right.x,
{
    let fresh = refreshed(raycaster, bounds);
    let height = fresh.origins.top_left.y - fresh.origins.bottom_left.y;
    let width = fresh.origins.bottom_right.x - fresh.origins.bottom_left.x;
    if index < fresh.horizontal_ray_count {
        parts_fit(height, fresh.horizontal_ray_count - 1, index as int);
    }
    if index < fresh.vertical_ray_count {
        parts_fit(width, fresh.vertical_ray_count - 1, index as int);
    }
}

/// A length that is not negative, divided into `parts` parts: `index` parts
/// of it are no longer than the whole, for any `index` up to `parts`.
proof fn parts_fit(length: int, parts: int, index: int)
    requires
        0 <= length,
        0 < parts,
        0 <= index <= parts,
    ensures
        0 <= quotient(length, parts) * index <= length,
{
    let part = length / parts;
    vstd::arithmetic::div_mod::lemma_fundamental_div_mod(length, parts);
    vstd::arithmetic::div_mod::lemma_div_pos_is_pos(length, parts);
    assert(0 <= part * index <= part * parts) by (nonlinear_arith)
        requires
            0 <= part,
            0 <= index <= parts,
    ;
    assert(part * parts == parts * part) by (nonlinear_arith);
}

/// Refreshes the ray grid of a body from its current bounds.
pub fn update_raycaster(raycaster: &mut PlatformerRaycaster, bounds: &Aabb)
    requires
        0 <= old(raycaster).margin <= LIMIT,
        bounds.within_limit(),
    ensures
        *final(raycaster) == refreshed(*old(raycaster), *bounds),
        final(raycaster).wf(),
        final(raycaster).horizontal_ray_count >= MIN_RAY_COUNT,
        final(raycaster).vertical_ray_count >= MIN_RAY_COUNT,
{
    if raycaster.horizontal_ray_count < MIN_RAY_COUNT {
        raycaster.horizontal_ray_count = MIN_RAY_COUNT;
    }
    if raycaster.vertical_ray_count < MIN_RAY_COUNT {
        raycaster.vertical_ray_count = MIN_RAY_COUNT;
    }
    let left: i64 = bounds.mins.x + raycaster.margin;
    let bottom: i64 = bounds.mins.y + raycaster.margin;
    let right: i64 = bounds.maxs.x - raycaster.margin;
    let top: i64 = bounds.maxs.y - raycaster.margin;
    proof {
        quotient_bounds(top - bottom, raycaster.horizontal_ray_count - 1);
        quotient_bounds(right - left, raycaster.vertical_ray_count - 1);
    }
    raycaster.horizontal_ray_spacing = div_toward_zero(
        (top - bottom) as i128,
        (raycaster.horizontal_ray_count - 1) as i128,
    ) as i64;
    raycaster.vertical_ray_spacing = div_toward_zero(
        (right - left) as i128,
        (raycaster.vertical_ray_count - 1) as i128,
    ) as i64;
    raycaster.origins.bottom_left = Vec2 { x: left, y: bottom };
    raycaster.origins.bottom_right = Vec2 { x: right, y: bottom };
    raycaster.origins.top_left = Vec2 { x: left, y: top };
    raycaster.origins.top_right = Vec2 { x: right, y: top };
}

/// The velocity of a body and the constants of its motion. Speeds are in
/// sub-units a second, times in ticks.
#[derive(Clone, Copy, Debug, PartialEq, Eq, Structural)]
pub struct PlatformerController {
    /// The greatest horizontal speed.
    pub max_speed: i64,
    /// The time it takes to reach `max_speed` from rest.
    pub acceleration: i64,
    /// The time it takes to come to rest from `max_speed`.
    pub deceleration: i64,
    /// The downward acceleration, in sub-units a second each second.
    pub gravity: i64,
    pub velocity: Vec2,
}

impl PlatformerController {
    /// The greatest speed is not negative, the two times are positive, and
    /// all values lie within the limit.
    pub open spec fn wf(&self) -> bool {
        &&& 0 <= self.max_speed <= LIMIT
        &&& 0 < self.acceleration <= LIMIT
        &&& 0 < self.deceleration <= LIMIT
        &&& within_limit(self.gravity as int)
        &&& self.velocity.within_limit()
    }

    /// Tells whether the controller is well-formed.
    pub fn is_wf(&self) -> (ok: bool)
        ensures
            ok == self.wf(),
    {
        0 <= self.max_speed && self.max_speed <= LIMIT && 0 < self.acceleration
            && self.acceleration <= LIMIT && 0 < self.deceleration && self.deceleration <= LIMIT
            && -LIMIT <= self.gravity && self.gravity <= LIMIT && self.velocity.is_within_limit()
    }
}

/// The vertical velocity after a step of `dt` ticks. A body that touched
/// something above or below in the step before loses its vertical velocity; a
/// jump asked for while it stood on something sets it to `JUMP_SPEED`; gravity
/// is taken off in either case.
pub open spec fn vertical_velocity_after(
    controller: PlatformerController,
    input: PlatformerInput,
    contacts: PlatformerCollisionInfo,
    dt: i64,
) -> int {
    let rested = if contacts.above || contacts.below {
        0
    } else {
        controller.velocity.y as int
    };
    let launched = if input.jumping && contacts.below {
        JUMP_SPEED as int
    } else {
        rested
    };
    launched - quotient(controller.gravity * dt, UNIT as int)
}

/// The horizontal velocity after a step of `dt` ticks. With an intent, the
/// velocity changes by the intent's share of `max_speed * dt / acceleration`
/// and is held within the greatest speed either way; without one, it moves
/// toward zero by `max_speed * dt / deceleration` and stops there.
pub open spec fn horizontal_velocity_after(
    controller: PlatformerController,
    input: PlatformerInput,
    dt: i64,
) -> int {
    if input.x_movement != 0 {
        clamped(
            controller.velocity.x + quotient(
                input.x_movement * controller.max_speed * dt,
                controller.acceleration * UNIT,
            ),
            -controller.max_speed,
            controller.max_speed as int,
        )
    } else {
        moved_towards(
            controller.velocity.x as int,
            0,
            quotient(controller.max_speed * dt, controller.deceleration as int),
        )
    }
}

/// The distance covered in `dt` ticks at `velocity`.
pub open spec fn displacement(velocity: int, dt: i64) -> int {
    quotient(velocity * dt, UNIT as int)
}

/// The controller after a step of `dt` ticks: its velocity is advanced, its
/// constants are kept.
pub open spec fn controller_after(
    controller: PlatformerController,
    input: PlatformerInput,
    contacts: PlatformerCollisionInfo,
    dt: i64,
) -> PlatformerController {
    PlatformerController {
        velocity: Vec2 {
            x: horizontal_velocity_after(controller, input, dt) as i64,
            y: vertical_velocity_after(controller, input, contacts, dt) as i64,
        },
        ..controller
    }
}

/// The displacement a body asks for in a step of `dt` ticks: the distance
/// covered at the velocity that the step leaves.
pub open spec fn requested_delta(
    controller: PlatformerController,
    input: PlatformerInput,
    contacts: PlatformerCollisionInfo,
    dt: i64,
) -> Vec2 {
    Vec2 {
        x: displacement(horizontal_velocity_after(controller, input, dt), dt) as i64,
        y: displacement(vertical_velocity_after(controller, input, contacts, dt), dt) as i64,
    }
}

/// With an intent the horizontal speed after a step is no greater than the
/// greatest speed. Without one the velocity moves toward zero and never
/// past it: it keeps its sign or comes to rest, and its magnitude does not grow.
pub proof fn horizontal_speed_is_contained(
    controller: PlatformerController,
    input: PlatformerInput,
    dt: i64,
)
    requires
        controller.wf(),
        input.wf(),
        0 <= dt <= LIMIT,
    ensures
        input.x_movement != 0 ==> -controller.max_speed <= horizontal_velocity_after(
            controller,
            input,
            dt,
        ) <= controller.max_speed,
        input.x_movement == 0 ==> shortens(
            controller.velocity.x as int,
            horizontal_velocity_after(controller, input, dt),
        ),
{
    if input.x_movement == 0 {
        let slowing = quotient(controller.max_speed * dt, controller.deceleration as int);
        product_bounds(controller.max_speed as int, dt as int, LIMIT as int, LIMIT as int);
        assert(controller.max_speed * dt >= 0) by (nonlinear_arith)
            requires
                controller.max_speed >= 0,
                dt >= 0,
        ;
        quotient_bounds(controller.max_speed * dt, controller.deceleration as int);
        crate::math::moved_towards_stays_between(controller.velocity.x as int, 0, slowing);
    }
}

/// A jump asked for by a body that stood on something in the step before
/// sets the vertical velocity to the jump speed, less one step of gravity,
/// whatever the velocity was.
pub proof fn jump_starts_from_the_jump_speed(
    controller: PlatformerController,
    input: PlatformerInput,
    contacts: PlatformerCollisionInfo,
    dt: i64,
)
    requires
        input.jumping,
        contacts.below,
    ensures
        vertical_velocity_after(controller, input, contacts, dt) == JUMP_SPEED - quotient(
            controller.gravity * dt,
            UNIT as int,
        ),
{
}

/// Advances the velocity of a body by one step of `dt` ticks and writes the
/// displacement it asks for into `delta`. `collision_info` is what the
/// resolver left in the step before.
pub fn platformer_controller_update(
    controller: &mut PlatformerController,
    input: &PlatformerInput,
    delta: &mut PlatformerMoveDelta,
    collision_info: &PlatformerCollisionInfo,
    dt: i64,
)
    requires
        old(controller).wf(),
        input.wf(),
        0 <= dt <= LIMIT,
    ensures
        *final(controller) == controller_after(*old(controller), *input, *collision_info, dt),
        final(delta).0 == requested_delta(*old(controller), *input, *collision_info, dt),
        final(controller).velocity.x == horizontal_velocity_after(*old(controller), *input, dt),
        final(controller).velocity.y == vertical_velocity_after(
            *old(controller),
            *input,
            *collision_info,
            dt,
        ),
        final(delta).0.x == displacement(final(controller).velocity.x as int, dt),
        final(delta).0.y == displacement(final(controller).velocity.y as int, dt),
{
    if collision_info.above || collision_info.below {
        controller.velocity.y = 0;
    }
    if input.jumping && collision_info.below {
        controller.velocity.y = JUMP_SPEED;
    }
    proof {
        mul_div_within(controller.gravity as int, dt as int, UNIT as int, 500_000_000, 500_000_000, 10_000);
    }
    controller.velocity.y = controller.velocity.y - mul_div(controller.gravity, dt, UNIT);

    if input.x_movement != 0 {
        proof {
            product_bounds(input.x_movement as int, controller.max_speed as int, 10_000, 500_000_000);
            product_bounds(controller.acceleration as int, UNIT as int, 500_000_000, 10_000);
            assert(controller.acceleration * UNIT >= UNIT) by (nonlinear_arith)
                requires
                    controller.acceleration >= 1,
            ;
            mul_div_within(
                input.x_movement * controller.max_speed,
                dt as int,
                controller.acceleration * UNIT,
                5_000_000_000_000,
                500_000_000,
                10_000,
            );
        }
        let push: i64 = mul_div(
            input.x_movement * controller.max_speed,
            dt,
            controller.acceleration * UNIT,
        );
        let pushed: i64 = controller.velocity.x + push;
        controller.velocity.x = if pushed < -controller.max_speed {
            -controller.max_speed
        } else if pushed > controller.max_speed {
            controller.max_speed
        } else {
            pushed
        };
    } else {
        proof {
            mul_div_within(
                controller.max_speed as int,
                dt as int,
                controller.deceleration as int,
                500_000_000,
                500_000_000,
                1,
            );
            quotient_bounds(controller.max_speed * dt, controller.deceleration as int);
            product_bounds(controller.max_speed as int, dt as int, 500_000_000, 500_000_000);
        }
        let slowing: i64 = mul_div(controller.max_speed, dt, controller.deceleration);
        controller.velocity.x = move_towards(controller.velocity.x, 0, slowing);
    }
    proof {
        mul_div_within(
            controller.velocity.x as int,
            dt as int,
            UNIT as int,
            500_000_000,
            500_000_000,
            10_000,
        );
        mul_div_within(
            controller.velocity.y as int,
            dt as int,
            UNIT as int,
            25_000_500_000_000,
            500_000_000,
            10_000,
        );
    }
    delta.0.x = mul_div(controller.velocity.x, dt, UNIT);
    delta.0.y = mul_div(controller.velocity.y, dt, UNIT);
}

/// Moves a body by its resolved displacement.
pub fn platformer_move(delta: &PlatformerMoveDelta, position: &mut Vec2)
    requires
        i64::MIN <= old(position).x + delta.0.x <= i64::MAX,
        i64::MIN <= old(position).y + delta.0.y <= i64::MAX,
    ensures
        final(position).x == old(position).x + delta.0.x,
        final(position).y == old(position).y + delta.0.y,
{
    position.x = position.x + delta.0.x;
    position.y = position.y + delta.0.y;
}

/// The number of rays a pass casts: none where nothing is requested along its
/// axis, else the raycaster's vertical ray count.
pub open spec fn pass_ray_count(raycaster: PlatformerRaycaster, requested: i64) -> nat {
    if requested == 0 {
        0
    } else {
        raycaster.vertical_ray_count as nat
    }
}

/// The pass along one axis as it stands when `hits` have been recorded.
pub open spec fn pass_state(
    raycaster: PlatformerRaycaster,
    requested: i64,
    hits: Seq<Option<i64>>,
) -> AxisSweep {
    AxisSweep::initial(requested, raycaster.margin).after_hits(hits)
}

/// The ray with the given index of a pass whose rays were answered with
/// `hits`: it is cast while the pass stands where the answers before it left it.
pub open spec fn nth_ray(
    raycaster: PlatformerRaycaster,
    axis: Axis,
    requested: i64,
    shift: i64,
    hits: Seq<Option<i64>>,
    index: int,
) -> Ray {
    pass_ray(raycaster, axis, pass_state(raycaster, requested, hits.take(index)), index as u32, shift)
}

/// The segment drawn for the ray with the given index: the ray, as long as
/// the search is once the ray's own answer is recorded.
pub open spec fn nth_line(
    raycaster: PlatformerRaycaster,
    axis: Axis,
    requested: i64,
    shift: i64,
    hits: Seq<Option<i64>>,
    index: int,
) -> DebugLine {
    ray_line(
        nth_ray(raycaster, axis, requested, shift, hits, index),
        pass_state(raycaster, requested, hits.take(index + 1)),
    )
}

/// Whether `hits` are answers that `world_query` can have given to the rays of
/// one pass, each ray cast with the search length that the answers before it left.
pub open spec fn pass_answers<Q: Fn(Ray) -> Option<i64>>(
    world_query: Q,
    raycaster: PlatformerRaycaster,
    axis: Axis,
    requested: i64,
    shift: i64,
    hits: Seq<Option<i64>>,
) -> bool {
    &&& hits.len() == pass_ray_count(raycaster, requested)
    &&& forall|i: int|
        0 <= i < hits.len() ==> world_query.ensures(
            (#[trigger] nth_ray(raycaster, axis, requested, shift, hits, i),),
            hits[i],
        )
}

/// The segments a pass hands to the debugging overlay, one for each ray.
pub open spec fn pass_lines(
    raycaster: PlatformerRaycaster,
    axis: Axis,
    requested: i64,
    shift: i64,
    hits: Seq<Option<i64>>,
) -> Seq<DebugLine> {
    Seq::new(hits.len(), |i: int| nth_line(raycaster, axis, requested, shift, hits, i))
}

/// Every ray of a pass is well-formed, whatever the answers before it: it
/// runs along the axis of the pass in the direction of travel, searches no
/// farther than the request and the margin allow, and looks for solid world
/// geometry only.
pub proof fn pass_rays_are_well_formed(
    raycaster: PlatformerRaycaster,
    axis: Axis,
    requested: i64,
    shift: i64,
    hits: Seq<Option<i64>>,
    index: u32,
)
    requires
        raycaster.wf(),
        within_limit(requested as int),
        within_limit(shift as int),
        requested != 0,
    ensures
        nth_ray(raycaster, axis, requested, shift, hits, index as int).wf(),
        nth_ray(raycaster, axis, requested, shift, hits, index as int).max_toi <= magnitude(
            requested as int,
        ) + raycaster.margin,
        axis == Axis::Horizontal ==> nth_ray(
            raycaster,
            axis,
            requested,
            shift,
            hits,
            index as int,
        ).direction == (Vec2 { x: (sign_of(requested as int) * UNIT) as i64, y: 0 }),
        axis == Axis::Vertical ==> nth_ray(
            raycaster,
            axis,
            requested,
            shift,
            hits,
            index as int,
        ).direction == (Vec2 { x: 0, y: (sign_of(requested as int) * UNIT) as i64 }),
{
    let first = AxisSweep::initial(requested, raycaster.margin);
    crate::sweep::after_hits_keeps_bounds(first, hits.take(index as int));
    let spacing = if axis == Axis::Horizontal {
        raycaster.horizontal_ray_spacing
    } else {
        raycaster.vertical_ray_spacing
    };
    assert(-4 * LIMIT * 0xffff_ffff <= spacing * index <= 4 * LIMIT * 0xffff_ffff)
        by (nonlinear_arith)
        requires
            -4 * LIMIT <= spacing <= 4 * LIMIT,
            0 <= index <= 0xffff_ffff,
    ;
}

/// One more answer changes nothing about the rays and segments before it.
proof fn earlier_rays_stay(
    raycaster: PlatformerRaycaster,
    axis: Axis,
    requested: i64,
    shift: i64,
    earlier: Seq<Option<i64>>,
    hit: Option<i64>,
    index: int,
)
    requires
        0 <= index < earlier.len(),
    ensures
        nth_ray(raycaster, axis, requested, shift, earlier.push(hit), index) == nth_ray(
            raycaster,
            axis,
            requested,
            shift,
            earlier,
            index,
        ),
        nth_line(raycaster, axis, requested, shift, earlier.push(hit), index) == nth_line(
            raycaster,
            axis,
            requested,
            shift,
            earlier,
            index,
        ),
        earlier.push(hit)[index] == earlier[index],
{
    assert(earlier.push(hit).take(index) =~= earlier.take(index));
    assert(earlier.push(hit).take(index + 1) =~= earlier.take(index + 1));
}

/// The ray after `earlier` answers is cast where those answers left the
/// pass, and its own answer `hit` moves the pass on by one step.
proof fn latest_ray_follows(
    raycaster: PlatformerRaycaster,
    axis: Axis,
    requested: i64,
    shift: i64,
    earlier: Seq<Option<i64>>,
    hit: Option<i64>,
)
    ensures
        nth_ray(raycaster, axis, requested, shift, earlier.push(hit), earlier.len() as int)
            == pass_ray(
            raycaster,
            axis,
            pass_state(raycaster, requested, earlier),
            earlier.len() as u32,
            shift,
        ),
        pass_state(raycaster, requested, earlier.push(hit)) == pass_state(
            raycaster,
            requested,
            earlier,
        ).after_hit(hit),
        nth_line(raycaster, axis, requested, shift, earlier.push(hit), earlier.len() as int)
            == ray_line(
            pass_ray(
                raycaster,
                axis,
                pass_state(raycaster, requested, earlier),
                earlier.len() as u32,
                shift,
            ),
            pass_state(raycaster, requested, earlier).after_hit(hit),
        ),
{
    let hits = earlier.push(hit);
    assert(hits.drop_last() =~= earlier);
    assert(hits.take(earlier.len() as int) =~= earlier);
    assert(hits.take(earlier.len() as int + 1) =~= hits);
}

/// Runs one pass: casts its rays in order, asks `world_query` about each and
/// records the answers.
fn sweep_axis<Q: Fn(Ray) -> Option<i64>>(
    world_query: &Q,
    raycaster: &PlatformerRaycaster,
    axis: Axis,
    requested: i64,
    shift: i64,
    debug_lines: &mut Vec<DebugLine>,
) -> (out: (AxisSweep, Ghost<Seq<Option<i64>>>))
    requires
        raycaster.wf(),
        within_limit(requested as int),
        within_limit(shift as int),
        forall|ray: Ray| ray.wf() ==> world_query.requires((ray,)),
    ensures
        pass_answers(*world_query, *raycaster, axis, requested, shift, out.1@),
        out.0 == pass_state(*raycaster, requested, out.1@),
        out.0.wf(),
        shortens(requested as int, out.0.resolved()),
        requested == 0 ==> !out.0.contact,
        final(debug_lines)@ == old(debug_lines)@ + pass_lines(
            *raycaster,
            axis,
            requested,
            shift,
            out.1@,
        ),
{
    let mut sweep: AxisSweep = AxisSweep::begin(requested, raycaster.margin);
    let ghost mut hits: Seq<Option<i64>> = Seq::empty();
    assert(debug_lines@ =~= old(debug_lines)@ + pass_lines(*raycaster, axis, requested, shift, hits));
    if requested != 0 {
        let mut index: u32 = 0;
        while index < raycaster.vertical_ray_count
            invariant
                raycaster.wf(),
                within_limit(shift as int),
                forall|ray: Ray| ray.wf() ==> world_query.requires((ray,)),
                index <= raycaster.vertical_ray_count,
                hits.len() == index,
                sweep.wf(),
                sweep.direction != 0,
                sweep == pass_state(*raycaster, requested, hits),
                forall|i: int|
                    0 <= i < hits.len() ==> world_query.ensures(
                        (#[trigger] nth_ray(*raycaster, axis, requested, shift, hits, i),),
                        hits[i],
                    ),
                debug_lines@ == old(debug_lines)@ + pass_lines(
                    *raycaster,
                    axis,
                    requested,
                    shift,
                    hits,
                ),
            decreases raycaster.vertical_ray_count - index,
        {
            let ray: Ray = cast_ray(raycaster, axis, &sweep, index, shift);
            let hit: Option<i64> = world_query(ray);
            let ghost earlier = hits;
            let ghost lines_before = debug_lines@;
            sweep.record(hit);
            let line: DebugLine = debug_line(&ray, &sweep);
            debug_lines.push(line);
            proof {
                hits = earlier.push(hit);
                latest_ray_follows(*raycaster, axis, requested, shift, earlier, hit);
                assert forall|i: int| 0 <= i < hits.len() implies world_query.ensures(
                    (#[trigger] nth_ray(*raycaster, axis, requested, shift, hits, i),),
                    hits[i],
                ) by {
                    if i < index {
                        earlier_rays_stay(*raycaster, axis, requested, shift, earlier, hit, i);
                    }
                }
                let lines = pass_lines(*raycaster, axis, requested, shift, hits);
                let lines_earlier = pass_lines(*raycaster, axis, requested, shift, earlier);
                assert forall|i: int| 0 <= i < index implies #[trigger] lines[i]
                    == lines_earlier[i] by {
                    earlier_rays_stay(*raycaster, axis, requested, shift, earlier, hit, i);
                }
                assert(lines =~= lines_earlier.push(line));
                assert(debug_lines@ =~= old(debug_lines)@ + lines);
            }
            index = index + 1;
        }
    }
    proof {
        pass_only_shortens(requested, raycaster.margin, hits);
    }
    (sweep, Ghost(hits))
}

/// The displacement that is left of `requested` when the rays of the
/// horizontal pass were answered with `horizontal_hits` and those of the
/// vertical pass with `vertical_hits`.
pub open spec fn resolved_delta(
    raycaster: PlatformerRaycaster,
    requested: Vec2,
    horizontal_hits: Seq<Option<i64>>,
    vertical_hits: Seq<Option<i64>>,
) -> Vec2 {
    Vec2 {
        x: pass_state(raycaster, requested.x, horizontal_hits).resolved() as i64,
        y: pass_state(raycaster, requested.y, vertical_hits).resolved() as i64,
    }
}

/// The contact flags after both passes: a side is in contact where the pass
/// along its axis travelled toward it and one of its rays registered a hit.
pub open spec fn resolved_contacts(
    raycaster: PlatformerRaycaster,
    requested: Vec2,
    horizontal_hits: Seq<Option<i64>>,
    vertical_hits: Seq<Option<i64>>,
) -> PlatformerCollisionInfo {
    PlatformerCollisionInfo {
        above: pass_state(raycaster, requested.y, vertical_hits).touches(1),
        below: pass_state(raycaster, requested.y, vertical_hits).touches(-1),
        left: pass_state(raycaster, requested.x, horizontal_hits).touches(-1),
        right: pass_state(raycaster, requested.x, horizontal_hits).touches(1),
    }
}

/// Whether `resolved`, `contacts` and `lines_after` are an outcome of resolving
/// `requested` against the world that `world_query` answers for: there are
/// answers to the rays of the two passes, the vertical rays moved sideways by
/// the resolved horizontal displacement, that leave exactly this displacement,
/// these contact flags and these segments after `lines_before`.
pub open spec fn is_resolution<Q: Fn(Ray) -> Option<i64>>(
    world_query: Q,
    raycaster: PlatformerRaycaster,
    requested: Vec2,
    resolved: Vec2,
    contacts: PlatformerCollisionInfo,
    lines_before: Seq<DebugLine>,
    lines_after: Seq<DebugLine>,
) -> bool {
    exists|horizontal_hits: Seq<Option<i64>>, vertical_hits: Seq<Option<i64>>|
        {
            &&& #[trigger] pass_answers(
                world_query,
                raycaster,
                Axis::Horizontal,
                requested.x,
                0,
                horizontal_hits,
            )
            &&& #[trigger] pass_answers(
                world_query,
                raycaster,
                Axis::Vertical,
                requested.y,
                resolved.x,
                vertical_hits,
            )
            &&& resolved == resolved_delta(raycaster, requested, horizontal_hits, vertical_hits)
            &&& contacts == resolved_contacts(raycaster, requested, horizontal_hits, vertical_hits)
            &&& lines_after == lines_before + pass_lines(
                raycaster,
                Axis::Horizontal,
                requested.x,
                0,
                horizontal_hits,
            ) + pass_lines(raycaster, Axis::Vertical, requested.y, resolved.x, vertical_hits)
        }
}

/// Resolves the displacement `delta` of one body against the world.
///
/// All four contact flags are cleared. Then the horizontal pass runs, then the
/// vertical pass, whose rays start moved sideways by the horizontal
/// displacement that the first pass left. `world_query` is asked once for each
/// ray, in order, and answers with the distance to the nearest solid surface
/// along the ray, if there is one within the ray's length. Each ray's segment
/// is appended to `debug_lines`.
pub fn platformer_check_collisions<Q: Fn(Ray) -> Option<i64>>(
    world_query: &Q,
    delta: &mut PlatformerMoveDelta,
    collision_info: &mut PlatformerCollisionInfo,
    raycaster: &PlatformerRaycaster,
    debug_lines: &mut Vec<DebugLine>,
)
    requires
        raycaster.wf(),
        old(delta).0.within_limit(),
        forall|ray: Ray| ray.wf() ==> world_query.requires((ray,)),
    ensures
        is_resolution(
            *world_query,
            *raycaster,
            old(delta).0,
            final(delta).0,
            *final(collision_info),
            old(debug_lines)@,
            final(debug_lines)@,
        ),
        shortens(old(delta).0.x as int, final(delta).0.x as int),
        shortens(old(delta).0.y as int, final(delta).0.y as int),
        old(delta).0.x == 0 ==> final(delta).0.x == 0,
        old(delta).0.x == 0 ==> !final(collision_info).left && !final(collision_info).right,
        old(delta).0.y == 0 ==> final(delta).0.y == 0,
        old(delta).0.y == 0 ==> !final(collision_info).above && !final(collision_info).below,
        !(final(collision_info).left && final(collision_info).right),
        !(final(collision_info).above && final(collision_info).below),
{
    collision_info.reset();
    let requested: Vec2 = delta.0;
    let across = sweep_axis(world_query, raycaster, Axis::Horizontal, requested.x, 0, debug_lines);
    let horizontal: AxisSweep = across.0;
    delta.0.x = horizontal.resolved_delta();
    collision_info.left = horizontal.contact && horizontal.direction == -1;
    collision_info.right = horizontal.contact && horizontal.direction == 1;
    let along = sweep_axis(
        world_query,
        raycaster,
        Axis::Vertical,
        requested.y,
        delta.0.x,
        debug_lines,
    );
    let vertical: AxisSweep = along.0;
    delta.0.y = vertical.resolved_delta();
    collision_info.below = vertical.contact && vertical.direction == -1;
    collision_info.above = vertical.contact && vertical.direction == 1;
    proof {
        let horizontal_hits = across.1@;
        let vertical_hits = along.1@;
        assert(delta.0 == resolved_delta(*raycaster, requested, horizontal_hits, vertical_hits));
        assert(*collision_info == resolved_contacts(
            *raycaster,
            requested,
            horizontal_hits,
            vertical_hits,
        ));
        assert(pass_answers(
            *world_query,
            *raycaster,
            Axis::Vertical,
            requested.y,
            delta.0.x,
            vertical_hits,
        ));
    }
}

impl PlatformerInput {
    /// No intent: no horizontal movement and no jump.
    pub open spec fn initial() -> PlatformerInput {
        PlatformerInput { x_movement: 0, jumping: false }
    }
}

impl Default for PlatformerInput {
    fn default() -> (input: PlatformerInput)
        ensures
            input == PlatformerInput::initial(),
    {
        PlatformerInput { x_movement: 0, jumping: false }
    }
}

impl PlatformerRaycaster {
    /// The raycaster a body starts with: a margin of 0.015 units and four
    /// rays an edge; corners and spacings wait for the first refresh.
    pub open spec fn initial() -> PlatformerRaycaster {
        PlatformerRaycaster {
            margin: 150,
            horizontal_ray_count: 4,
            vertical_ray_count: 4,
            horizontal_ray_spacing: 0,
            vertical_ray_spacing: 0,
            origins: RaycastOrigins {
                top_left: Vec2 { x: 0, y: 0 },
                top_right: Vec2 { x: 0, y: 0 },
                bottom_left: Vec2 { x: 0, y: 0 },
                bottom_right: Vec2 { x: 0, y: 0 },
            },
        }
    }
}

impl Default for RaycastOrigins {
    fn default() -> (origins: RaycastOrigins)
        ensures
            origins == PlatformerRaycaster::initial().origins,
    {
        RaycastOrigins {
            top_left: Vec2 { x: 0, y: 0 },
            top_right: Vec2 { x: 0, y: 0 },
            bottom_left: Vec2 { x: 0, y: 0 },
            bottom_right: Vec2 { x: 0, y: 0 },
        }
    }
}

impl Default for PlatformerRaycaster {
    fn default() -> (raycaster: PlatformerRaycaster)
        ensures
            raycaster == PlatformerRaycaster::initial(),
            raycaster.wf(),
    {
        PlatformerRaycaster {
            margin: 150,
            horizontal_ray_count: 4,
            vertical_ray_count: 4,
            horizontal_ray_spacing: 0,
            vertical_ray_spacing: 0,
            origins: RaycastOrigins::default(),
        }
    }
}

impl PlatformerController {
    /// The controller a body starts with: at rest, with a greatest speed of 5
    /// units a second reached and lost in a tenth of a second, and a gravity
    /// of 15 units a second each second.
    pub open spec fn initial() -> PlatformerController {
        PlatformerController {
            max_speed: 50_000,
            acceleration: 1_000,
            deceleration: 1_000,
            gravity: 150_000,
            velocity: Vec2 { x: 0, y: 0 },
        }
    }
}

impl Default for PlatformerController {
    fn default() -> (controller: PlatformerController)
        ensures
            controller == PlatformerController::initial(),
            controller.wf(),
    {
        PlatformerController {
            max_speed: 50_000,
            acceleration: 1_000,
            deceleration: 1_000,
            gravity: 150_000,
            velocity: Vec2 { x: 0, y: 0 },
        }
    }
}

impl Default for PlatformerMoveDelta {
    fn default() -> (delta: PlatformerMoveDelta)
        ensures
            delta == PlatformerMoveDelta(Vec2 { x: 0, y: 0 }),
    {
        PlatformerMoveDelta(Vec2 { x: 0, y: 0 })
    }
}

impl PlatformerCollisionInfo {
    /// No side in contact.
    pub open spec fn initial() -> PlatformerCollisionInfo {
        PlatformerCollisionInfo { above: false, below: false, left: false, right: false }
    }
}

impl Default for PlatformerCollisionInfo {
    fn default() -> (contacts: PlatformerCollisionInfo)
        ensures
            contacts == PlatformerCollisionInfo::initial(),
    {
        PlatformerCollisionInfo { above: false, below: false, left: false, right: false }
    }
}

} // verus!
