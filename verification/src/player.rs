//! A body of the world: its place, its size and the components that the
//! kernel keeps for it, and the step that moves it.
use vstd::prelude::*;
use crate::fixed::{LIMIT, UNIT, Vec2};
use crate::level::ConfigError;
use crate::platformer::{
    Aabb, PlatformerCollisionInfo, PlatformerController, PlatformerInput, PlatformerMoveDelta,
    PlatformerRaycaster, controller_after, is_resolution, platformer_check_collisions,
    platformer_controller_update, platformer_move, refreshed, requested_delta, update_raycaster,
};
use crate::sweep::{DebugLine, Ray, shortens};

verus! {

/// The width of the player's body, in sub-units.
pub const PLAYER_WIDTH: i64 = 10_000;

/// The height of the player's body, in sub-units.
pub const PLAYER_HEIGHT: i64 = 15_000;

/// Why a step was not taken.
#[derive(Clone, Copy, Debug, PartialEq, Eq, Structural)]
pub enum StepError {
    /// A value of the body or the time step lies outside the limits within
    /// which a step can be computed.
    OutOfRange,
}

/// A moving rectangle with everything the kernel keeps for it.
#[derive(Clone, Copy, Debug, PartialEq, Eq, Structural)]
pub struct Body {
    /// The centre of the body.
    pub position: Vec2,
    /// Half the width and half the height of the body.
    pub half_extent: Vec2,
    pub input: PlatformerInput,
    pub controller: PlatformerController,
    pub raycaster: PlatformerRaycaster,
    pub delta: PlatformerMoveDelta,
    pub collision_info: PlatformerCollisionInfo,
}

impl Body {
    /// The body has a width and a height.
    pub open spec fn wf(&self) -> bool {
        self.half_extent.x > 0 && self.half_extent.y > 0
    }

    /// The bounds of the body lie within the limit.
    pub open spec fn bounded(&self) -> bool {
        &&& -LIMIT <= self.position.x - self.half_extent.x
        &&& self.position.x + self.half_extent.x <= LIMIT
        &&& -LIMIT <= self.position.y - self.half_extent.y
        &&& self.position.y + self.half_extent.y <= LIMIT
    }

    /// The bounds of the body: its position, less and plus its half-extent.
    pub open spec fn bounds(&self) -> Aabb {
        Aabb {
            mins: Vec2 {
                x: (self.position.x - self.half_extent.x) as i64,
                y: (self.position.y - self.half_extent.y) as i64,
            },
            maxs: Vec2 {
                x: (self.position.x + self.half_extent.x) as i64,
                y: (self.position.y + self.half_extent.y) as i64,
            },
        }
    }

    /// Whether a step of `dt` ticks can be computed for the body: its
    /// components are well-formed, its bounds and the displacement that the
    /// step asks for lie within the limit, and so does the time step.
    pub open spec fn steppable(&self, dt: i64) -> bool {
        &&& self.wf()
        &&& self.bounded()
        &&& self.controller.wf()
        &&& self.input.wf()
        &&& 0 <= self.raycaster.margin <= LIMIT
        &&& 0 <= dt <= LIMIT
        &&& requested_delta(self.controller, self.input, self.collision_info, dt).within_limit()
    }

    /// The body at rest that `new` makes: the given place and half-extent, and
    /// the components every body starts with.
    pub open spec fn at_rest(position: Vec2, half_extent: Vec2) -> Body {
        Body {
            position,
            half_extent,
            input: PlatformerInput::initial(),
            controller: PlatformerController::initial(),
            raycaster: PlatformerRaycaster::initial(),
            delta: PlatformerMoveDelta(Vec2 { x: 0, y: 0 }),
            collision_info: PlatformerCollisionInfo::initial(),
        }
    }

    /// Puts a body together from its place, its half-extent and fresh components.
    fn assemble(position: Vec2, half_extent: Vec2) -> (body: Body)
        ensures
            body == Body::at_rest(position, half_extent),
    {
        Body {
            position,
            half_extent,
            input: PlatformerInput::default(),
            controller: PlatformerController::default(),
            raycaster: PlatformerRaycaster::default(),
            delta: PlatformerMoveDelta::default(),
            collision_info: PlatformerCollisionInfo::default(),
        }
    }

    /// Makes a body at rest with the given half-extent. A body without a
    /// width or without a height is refused.
    pub fn new(position: Vec2, half_extent: Vec2) -> (made: Result<Body, ConfigError>)
        ensures
            half_extent.x <= 0 || half_extent.y <= 0 <==> made == Err::<Body, ConfigError>(
                ConfigError::DegenerateBody,
            ),
            half_extent.x > 0 && half_extent.y > 0 ==> made == Ok::<Body, ConfigError>(
                Body::at_rest(position, half_extent),
            ),
            made is Ok ==> made->Ok_0.wf(),
    {
        if half_extent.x <= 0 || half_extent.y <= 0 {
            Err(ConfigError::DegenerateBody)
        } else {
            Ok(Body::assemble(position, half_extent))
        }
    }

    /// Tells whether the body has a width and a height and bounds within the limit.
    pub fn is_bounded(&self) -> (ok: bool)
        ensures
            ok == (self.wf() && self.bounded()),
    {
        if self.half_extent.x <= 0 || self.half_extent.y <= 0 {
            return false;
        }
        if !self.position.is_within_limit() || !self.half_extent.is_within_limit() {
            return false;
        }
        -LIMIT <= self.position.x - self.half_extent.x && self.position.x + self.half_extent.x
            <= LIMIT && -LIMIT <= self.position.y - self.half_extent.y && self.position.y
            + self.half_extent.y <= LIMIT
    }

    /// Computes the bounds of the body.
    pub fn compute_aabb(&self) -> (bounds: Aabb)
        requires
            self.wf(),
            self.bounded(),
        ensures
            bounds == self.bounds(),
            bounds.within_limit(),
    {
        Aabb {
            mins: Vec2 {
                x: self.position.x - self.half_extent.x,
                y: self.position.y - self.half_extent.y,
            },
            maxs: Vec2 {
                x: self.position.x + self.half_extent.x,
                y: self.position.y + self.half_extent.y,
            },
        }
    }

    /// Takes one step of `dt` ticks: advances the velocity from the body's
    /// input and from the contacts of the step before, refreshes the ray grid
    /// from the bounds, resolves the displacement against the world and moves
    /// the body by what is left of it. A step that cannot be computed within
    /// the limits is not taken, and leaves the body and the segments as they were.
    pub fn step<Q: Fn(Ray) -> Option<i64>>(
        &mut self,
        dt: i64,
        world_query: &Q,
        debug_lines: &mut Vec<DebugLine>,
    ) -> (done: Result<(), StepError>)
        requires
            forall|ray: Ray| ray.wf() ==> world_query.requires((ray,)),
        ensures
            old(self).steppable(dt) <==> done is Ok,
            done is Err ==> *final(self) == *old(self) && final(debug_lines)@ == old(
                debug_lines,
            )@,
            done is Ok ==> {
                &&& final(self).half_extent == old(self).half_extent
                &&& final(self).input == old(self).input
                &&& final(self).controller == controller_after(
                    old(self).controller,
                    old(self).input,
                    old(self).collision_info,
                    dt,
                )
                &&& final(self).raycaster == refreshed(old(self).raycaster, old(self).bounds())
                &&& is_resolution(
                    *world_query,
                    final(self).raycaster,
                    requested_delta(
                        old(self).controller,
                        old(self).input,
                        old(self).collision_info,
                        dt,
                    ),
                    final(self).delta.0,
                    final(self).collision_info,
                    old(debug_lines)@,
                    final(debug_lines)@,
                )
                &&& shortens(
                    requested_delta(
                        old(self).controller,
                        old(self).input,
                        old(self).collision_info,
                        dt,
                    ).x as int,
                    final(self).delta.0.x as int,
                )
                &&& shortens(
                    requested_delta(
                        old(self).controller,
                        old(self).input,
                        old(self).collision_info,
                        dt,
                    ).y as int,
                    final(self).delta.0.y as int,
                )
                &&& final(self).position.x == old(self).position.x + final(self).delta.0.x
                &&& final(self).position.y == old(self).position.y + final(self).delta.0.y
                &&& final(self).wf()
            },
    {
        if !(self.is_bounded() && self.controller.is_wf() && self.input.is_wf() && 0
            <= self.raycaster.margin && self.raycaster.margin <= LIMIT && 0 <= dt && dt <= LIMIT) {
            return Err(StepError::OutOfRange);
        }
        let mut controller: PlatformerController = self.controller;
        let mut delta: PlatformerMoveDelta = self.delta;
        platformer_controller_update(&mut controller, &self.input, &mut delta, &self.collision_info, dt);
        if !delta.0.is_within_limit() {
            return Err(StepError::OutOfRange);
        }
        let bounds: Aabb = self.compute_aabb();
        let mut raycaster: PlatformerRaycaster = self.raycaster;
        update_raycaster(&mut raycaster, &bounds);
        let mut collision_info: PlatformerCollisionInfo = self.collision_info;
        platformer_check_collisions(world_query, &mut delta, &mut collision_info, &raycaster, debug_lines);
        let mut position: Vec2 = self.position;
        platformer_move(&delta, &mut position);
        self.controller = controller;
        self.raycaster = raycaster;
        self.delta = delta;
        self.collision_info = collision_info;
        self.position = position;
        Ok(())
    }
}

/// Makes the player's body at rest at `position`: a body of the player's
/// width and height.
pub fn spawn_player(position: Vec2) -> (body: Body)
    ensures
        body == Body::at_rest(position, Vec2 { x: 5_000, y: 7_500 }),
        body.wf(),
{
    Body::assemble(position, Vec2 { x: PLAYER_WIDTH / 2, y: PLAYER_HEIGHT / 2 })
}

/// The intent that the pressed keys stand for: the left key pushes the
/// horizontal intent fully left, the right key fully right, and both cancel;
/// either of the two jump keys asks for a jump.
pub open spec fn keyboard_intent(left: bool, right: bool, jump: bool, up: bool) -> PlatformerInput {
    PlatformerInput {
        x_movement: ((if right { UNIT as int } else { 0 }) - (if left { UNIT as int } else { 0 }))
            as i64,
        jumping: jump || up,
    }
}

/// Writes the intent that the pressed keys stand for into `input`.
pub fn get_keyboard_input(input: &mut PlatformerInput, left: bool, right: bool, jump: bool, up: bool)
    ensures
        *final(input) == keyboard_intent(left, right, jump, up),
        final(input).wf(),
{
    input.x_movement = 0;
    if left {
        input.x_movement = input.x_movement - UNIT;
    }
    if right {
        input.x_movement = input.x_movement + UNIT;
    }
    input.jumping = jump || up;
}

} // verus!
