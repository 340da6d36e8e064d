//! One pass of the collision resolver: the rays that leave an edge of a body
//! along one axis, and what their answers do to the displacement along it.
use vstd::prelude::*;
use crate::fixed::{LIMIT, UNIT, Vec2, clamped, magnitude, sign_of, within_limit};
use crate::platformer::PlatformerRaycaster;

verus! {

/// Collision category of the rays a body casts.
pub const RAY_MEMBERSHIPS: u32 = 0b0001;

/// Collision categories a ray may hit: solid world geometry and nothing else.
pub const RAY_FILTER: u32 = 0b0010;

/// Largest magnitude of a ray origin's coordinate: a corner, the horizontal
/// shift and the widest spacing times the largest ray index.
pub const ORIGIN_LIMIT: i64 = 8_589_934_592_000_000_000;

/// A query to the world: the nearest solid surface from `origin` along
/// `direction`, no farther than `max_toi`.
#[derive(Clone, Copy, Debug, PartialEq, Eq, Structural)]
pub struct Ray {
    pub origin: Vec2,
    /// An axis direction of length `UNIT`.
    pub direction: Vec2,
    pub max_toi: i64,
    /// Whether a ray that starts inside a shape hits it at distance zero.
    pub solid: bool,
    pub memberships: u32,
    pub filter: u32,
}

impl Ray {
    /// The origin lies where a ray of a well-formed raycaster can start.
    pub open spec fn in_reach(&self) -> bool {
        &&& -ORIGIN_LIMIT <= self.origin.x <= ORIGIN_LIMIT
        &&& -ORIGIN_LIMIT <= self.origin.y <= ORIGIN_LIMIT
    }

    /// The ray is one that a pass casts: it starts within reach, runs along
    /// an axis, searches no farther than a request and a margin allow, and
    /// looks for solid world geometry only.
    pub open spec fn wf(&self) -> bool {
        &&& self.in_reach()
        &&& {
            ||| (self.direction.x == UNIT || self.direction.x == -UNIT) && self.direction.y == 0
            ||| self.direction.x == 0 && (self.direction.y == UNIT || self.direction.y == -UNIT)
        }
        &&& 0 <= self.max_toi <= 2 * LIMIT
        &&& self.solid
        &&& self.memberships == RAY_MEMBERSHIPS
        &&& self.filter == RAY_FILTER
    }
}

/// The axis a pass sweeps along.
#[derive(Clone, Copy, Debug, PartialEq, Eq, Structural)]
pub enum Axis {
    Horizontal,
    Vertical,
}

/// A segment for a debugging overlay: one cast ray, as long as its search was
/// when the ray had been answered.
#[derive(Clone, Copy, Debug, PartialEq, Eq, Structural)]
pub struct DebugLine {
    pub start: Vec2,
    pub end: Vec2,
    /// The axis of the pass that cast the ray.
    pub axis: Axis,
}

/// The state of one pass: how far the body may still travel along the axis and
/// how far the next ray searches.
#[derive(Clone, Copy, Debug, PartialEq, Eq, Structural)]
pub struct AxisSweep {
    /// The sign of the requested displacement; 0 where nothing was requested.
    pub direction: i64,
    pub margin: i64,
    /// The magnitude of the requested displacement.
    pub requested: i64,
    /// The magnitude of the displacement allowed so far.
    pub travel: i64,
    /// The distance within which the next ray searches.
    pub ray_length: i64,
    /// Whether a ray of this pass has registered a hit.
    pub contact: bool,
}

impl AxisSweep {
    /// The pass as it stands before its first ray.
    pub open spec fn initial(delta: i64, margin: i64) -> AxisSweep {
        AxisSweep {
            direction: sign_of(delta as int) as i64,
            margin,
            requested: magnitude(delta as int) as i64,
            travel: magnitude(delta as int) as i64,
            ray_length: (magnitude(delta as int) + margin) as i64,
            contact: false,
        }
    }

    /// The state is one that `initial` and `after_hit` can reach within the limits.
    pub open spec fn wf(&self) -> bool {
        &&& 0 <= self.margin <= LIMIT
        &&& 0 <= self.requested <= LIMIT
        &&& self.direction == -1 || self.direction == 0 || self.direction == 1
        &&& (self.direction == 0) == (self.requested == 0)
        &&& 0 <= self.ray_length <= self.requested + self.margin
        &&& if self.contact {
            self.travel == clamped(self.ray_length - self.margin, 0, self.requested as int)
        } else {
            self.travel == self.requested && self.ray_length == self.requested + self.margin
        }
    }

    /// A ray's answer registers where the pass has a direction and the answer
    /// reports a hit no farther than the current search length.
    pub open spec fn registers(&self, hit: Option<i64>) -> bool {
        &&& self.direction != 0
        &&& hit matches Some(toi)
        &&& 0 <= toi <= self.ray_length
    }

    /// The pass after one more ray was answered with `hit`. A hit that
    /// registers shortens the travel to the hit distance less the margin, held
    /// between zero and the request, and the search length to the hit distance.
    pub open spec fn after_hit(self, hit: Option<i64>) -> AxisSweep {
        if self.registers(hit) {
            AxisSweep {
                travel: clamped(hit.unwrap() - self.margin, 0, self.requested as int) as i64,
                ray_length: hit.unwrap(),
                contact: true,
                ..self
            }
        } else {
            self
        }
    }

    /// The pass after its rays were answered with `hits`, first ray first.
    pub open spec fn after_hits(self, hits: Seq<Option<i64>>) -> AxisSweep
        decreases hits.len(),
    {
        if hits.len() == 0 {
            self
        } else {
            self.after_hits(hits.drop_last()).after_hit(hits.last())
        }
    }

    /// The displacement the pass allows: the travel, in the requested direction.
    pub open spec fn resolved(&self) -> int {
        if self.direction < 0 {
            -self.travel
        } else if self.direction > 0 {
            self.travel as int
        } else {
            0
        }
    }

    /// Whether the pass ended in contact on the side that `side` (-1 or 1) names.
    pub open spec fn touches(&self, side: int) -> bool {
        self.contact && self.direction == side
    }

    /// Starts a pass for the displacement `delta` along one axis.
    pub fn begin(delta: i64, margin: i64) -> (sweep: AxisSweep)
        requires
            within_limit(delta as int),
            0 <= margin <= LIMIT,
        ensures
            sweep == AxisSweep::initial(delta, margin),
            sweep.wf(),
    {
        let requested: i64 = if delta < 0 { -delta } else { delta };
        let direction: i64 = if delta < 0 { -1 } else if delta > 0 { 1 } else { 0 };
        AxisSweep {
            direction,
            margin,
            requested,
            travel: requested,
            ray_length: requested + margin,
            contact: false,
        }
    }

    /// Takes in the answer to the ray cast last.
    pub fn record(&mut self, hit: Option<i64>)
        requires
            old(self).wf(),
        ensures
            *final(self) == old(self).after_hit(hit),
            final(self).wf(),
    {
        if let Some(toi) = hit {
            if self.direction != 0 && 0 <= toi && toi <= self.ray_length {
                let reach: i64 = toi - self.margin;
                self.travel = if reach < 0 { 0 } else if reach > self.requested { self.requested } else { reach };
                self.ray_length = toi;
                self.contact = true;
            }
        }
    }

    /// The displacement the pass allows so far.
    pub fn resolved_delta(&self) -> (delta: i64)
        requires
            self.wf(),
        ensures
            delta == self.resolved(),
    {
        if self.direction < 0 { -self.travel } else if self.direction > 0 { self.travel } else { 0 }
    }
}

/// Recording answers keeps a pass well-formed and keeps what it was started
/// with; the travel and the search length never grow, and a contact once made stays.
pub proof fn after_hits_keeps_bounds(first: AxisSweep, hits: Seq<Option<i64>>)
    requires
        first.wf(),
    ensures
        first.after_hits(hits).wf(),
        first.after_hits(hits).direction == first.direction,
        first.after_hits(hits).margin == first.margin,
        first.after_hits(hits).requested == first.requested,
        0 <= first.after_hits(hits).travel <= first.travel,
        first.after_hits(hits).ray_length <= first.ray_length,
        first.contact ==> first.after_hits(hits).contact,
    decreases hits.len(),
{
    if hits.len() > 0 {
        after_hits_keeps_bounds(first, hits.drop_last());
    }
}

/// Whether `resolved` is `requested` shortened: it lies between zero and
/// `requested`, so that its magnitude is no larger and its sign is not the opposite.
pub open spec fn shortens(requested: int, resolved: int) -> bool {
    &&& requested >= 0 ==> 0 <= resolved <= requested
    &&& requested <= 0 ==> requested <= resolved <= 0
}

/// Whatever the world answers, a pass only shortens the displacement it was
/// started for: the resolved displacement is no longer than the requested one
/// and never points the other way.
pub proof fn pass_only_shortens(delta: i64, margin: i64, hits: Seq<Option<i64>>)
    requires
        within_limit(delta as int),
        0 <= margin <= LIMIT,
    ensures
        shortens(delta as int, AxisSweep::initial(delta, margin).after_hits(hits).resolved()),
        magnitude(AxisSweep::initial(delta, margin).after_hits(hits).resolved()) <= magnitude(
            delta as int,
        ),
        sign_of(AxisSweep::initial(delta, margin).after_hits(hits).resolved()) == 0 || sign_of(
            AxisSweep::initial(delta, margin).after_hits(hits).resolved(),
        ) == sign_of(delta as int),
{
    after_hits_keeps_bounds(AxisSweep::initial(delta, margin), hits);
}

/// A pass for which no displacement is requested does nothing, whatever is
/// recorded: the resolved displacement is zero and no side is in contact.
pub proof fn idle_pass_is_inert(margin: i64, hits: Seq<Option<i64>>)
    requires
        0 <= margin <= LIMIT,
    ensures
        AxisSweep::initial(0, margin).after_hits(hits).resolved() == 0,
        !AxisSweep::initial(0, margin).after_hits(hits).contact,
        !AxisSweep::initial(0, margin).after_hits(hits).touches(-1),
        !AxisSweep::initial(0, margin).after_hits(hits).touches(1),
    decreases hits.len(),
{
    after_hits_keeps_bounds(AxisSweep::initial(0, margin), hits);
    if hits.len() > 0 {
        idle_pass_is_inert(margin, hits.drop_last());
    }
}

/// Where no ray finds anything, a pass leaves the requested displacement as
/// it is and no side in contact.
pub proof fn pass_without_hits_keeps_request(delta: i64, margin: i64, hits: Seq<Option<i64>>)
    requires
        within_limit(delta as int),
        0 <= margin <= LIMIT,
        forall|i: int| 0 <= i < hits.len() ==> hits[i] is None,
    ensures
        AxisSweep::initial(delta, margin).after_hits(hits) == AxisSweep::initial(delta, margin),
        AxisSweep::initial(delta, margin).after_hits(hits).resolved() == delta,
        !AxisSweep::initial(delta, margin).after_hits(hits).contact,
    decreases hits.len(),
{
    if hits.len() > 0 {
        pass_without_hits_keeps_request(delta, margin, hits.drop_last());
    }
}

/// Whether `hit` reports a surface within the length that the pass `first`
/// starts searching with.
pub open spec fn in_first_reach(first: AxisSweep, hit: Option<i64>) -> bool {
    &&& first.direction != 0
    &&& hit matches Some(toi)
    &&& 0 <= toi <= first.ray_length
}

/// A pass stops at the nearest hit, in whatever order the rays find their
/// hits. It ends in contact exactly where some answer lies within the length
/// the pass started with; the search length is then the least such answer,
/// and the travel is that distance less the margin, held between zero and
/// the request.
pub proof fn pass_stops_at_nearest_hit(delta: i64, margin: i64, hits: Seq<Option<i64>>)
    requires
        within_limit(delta as int),
        0 <= margin <= LIMIT,
    ensures
        AxisSweep::initial(delta, margin).after_hits(hits).contact <==> exists|i: int|
            0 <= i < hits.len() && in_first_reach(AxisSweep::initial(delta, margin), #[trigger] hits[i]),
        AxisSweep::initial(delta, margin).after_hits(hits).contact ==> exists|i: int|
            0 <= i < hits.len() && #[trigger] hits[i] == Some(
                AxisSweep::initial(delta, margin).after_hits(hits).ray_length,
            ),
        forall|i: int|
            0 <= i < hits.len() && in_first_reach(AxisSweep::initial(delta, margin), #[trigger] hits[i])
                ==> AxisSweep::initial(delta, margin).after_hits(hits).ray_length
                <= hits[i].unwrap(),
        AxisSweep::initial(delta, margin).after_hits(hits).travel == if AxisSweep::initial(
            delta,
            margin,
        ).after_hits(hits).contact {
            clamped(
                AxisSweep::initial(delta, margin).after_hits(hits).ray_length - margin,
                0,
                magnitude(delta as int),
            )
        } else {
            magnitude(delta as int)
        },
    decreases hits.len(),
{
    let first = AxisSweep::initial(delta, margin);
    let last = first.after_hits(hits);
    after_hits_keeps_bounds(first, hits);
    if hits.len() > 0 {
        let earlier = hits.drop_last();
        let before = first.after_hits(earlier);
        let hit = hits.last();
        pass_stops_at_nearest_hit(delta, margin, earlier);
        after_hits_keeps_bounds(first, earlier);
        assert forall|i: int| 0 <= i < earlier.len() implies earlier[i] == hits[i] by {}
        if before.registers(hit) {
            assert(in_first_reach(first, hits[hits.len() - 1]));
            assert(hits[hits.len() - 1] == Some(last.ray_length));
        } else if before.contact {
            let i = choose|i: int|
                0 <= i < earlier.len() && #[trigger] earlier[i] == Some(before.ray_length);
            assert(hits[i] == Some(last.ray_length));
            let j = choose|j: int| 0 <= j < earlier.len() && in_first_reach(first, #[trigger] earlier[j]);
            assert(in_first_reach(first, hits[j]));
        }
        if last.contact && !before.contact {
            assert(before.registers(hit));
        }
        assert forall|i: int|
            0 <= i < hits.len() && in_first_reach(first, #[trigger] hits[i]) implies last.ray_length
            <= hits[i].unwrap() by {
            if i < earlier.len() {
                assert(in_first_reach(first, earlier[i]));
            }
        }
        if !last.contact {
            assert forall|i: int| 0 <= i < hits.len() implies !in_first_reach(
                first,
                #[trigger] hits[i],
            ) by {
                if i < earlier.len() {
                    assert(earlier[i] == hits[i]);
                }
            }
        }
    }
}

/// The ray with the given index of a pass along `axis`, cast while the pass
/// stands at `sweep`. Rays leave the edge that faces the direction of travel,
/// the first from the bottom-left corner of that edge's run, each one spacing
/// further along it. A vertical ray is moved sideways by `shift`, the
/// horizontal displacement that was resolved before; a horizontal ray ignores it.
pub open spec fn pass_ray(
    raycaster: PlatformerRaycaster,
    axis: Axis,
    sweep: AxisSweep,
    index: u32,
    shift: i64,
) -> Ray {
    match axis {
        Axis::Horizontal => {
            let base = if sweep.direction == -1 {
                raycaster.origins.bottom_left
            } else {
                raycaster.origins.bottom_right
            };
            Ray {
                origin: Vec2 {
                    x: base.x,
                    y: (base.y + raycaster.horizontal_ray_spacing * index) as i64,
                },
                direction: Vec2 { x: (sweep.direction * UNIT) as i64, y: 0 },
                max_toi: sweep.ray_length,
                solid: true,
                memberships: RAY_MEMBERSHIPS,
                filter: RAY_FILTER,
            }
        },
        Axis::Vertical => {
            let base = if sweep.direction == -1 {
                raycaster.origins.bottom_left
            } else {
                raycaster.origins.top_left
            };
            Ray {
                origin: Vec2 {
                    x: (base.x + raycaster.vertical_ray_spacing * index + shift) as i64,
                    y: base.y,
                },
                direction: Vec2 { x: 0, y: (sweep.direction * UNIT) as i64 },
                max_toi: sweep.ray_length,
                solid: true,
                memberships: RAY_MEMBERSHIPS,
                filter: RAY_FILTER,
            }
        },
    }
}

/// The length `length` taken along a direction: toward the negative side,
/// toward the positive side, or not at all.
pub open spec fn along(direction: int, length: int) -> int {
    if direction < 0 {
        -length
    } else if direction > 0 {
        length
    } else {
        0
    }
}

/// The segment drawn for `ray` once the pass stands at `sweep`: from the ray's
/// origin along its direction, as long as the search length is then.
pub open spec fn ray_line(ray: Ray, sweep: AxisSweep) -> DebugLine {
    DebugLine {
        start: ray.origin,
        end: Vec2 {
            x: (ray.origin.x + along(ray.direction.x as int, sweep.ray_length as int)) as i64,
            y: (ray.origin.y + along(ray.direction.y as int, sweep.ray_length as int)) as i64,
        },
        axis: if ray.direction.y != 0 {
            Axis::Vertical
        } else {
            Axis::Horizontal
        },
    }
}

/// Computes the ray with the given index of a pass.
pub fn cast_ray(
    raycaster: &PlatformerRaycaster,
    axis: Axis,
    sweep: &AxisSweep,
    index: u32,
    shift: i64,
) -> (ray: Ray)
    requires
        raycaster.wf(),
        sweep.wf(),
        within_limit(shift as int),
    ensures
        ray == pass_ray(*raycaster, axis, *sweep, index, shift),
        ray.in_reach(),
        sweep.direction != 0 ==> ray.wf(),
{
    let steps: i64 = index as i64;
    let heading: i64 = sweep.direction * UNIT;
    match axis {
        Axis::Horizontal => {
            let base: Vec2 = if sweep.direction == -1 {
                raycaster.origins.bottom_left
            } else {
                raycaster.origins.bottom_right
            };
            let spacing: i64 = raycaster.horizontal_ray_spacing;
            assert(-4 * LIMIT * 0xffff_ffff <= spacing * steps <= 4 * LIMIT * 0xffff_ffff)
                by (nonlinear_arith)
                requires
                    -4 * LIMIT <= spacing <= 4 * LIMIT,
                    0 <= steps <= 0xffff_ffff,
            ;
            Ray {
                origin: Vec2 { x: base.x, y: base.y + spacing * steps },
                direction: Vec2 { x: heading, y: 0 },
                max_toi: sweep.ray_length,
                solid: true,
                memberships: RAY_MEMBERSHIPS,
                filter: RAY_FILTER,
            }
        },
        Axis::Vertical => {
            let base: Vec2 = if sweep.direction == -1 {
                raycaster.origins.bottom_left
            } else {
                raycaster.origins.top_left
            };
            let spacing: i64 = raycaster.vertical_ray_spacing;
            assert(-4 * LIMIT * 0xffff_ffff <= spacing * steps <= 4 * LIMIT * 0xffff_ffff)
                by (nonlinear_arith)
                requires
                    -4 * LIMIT <= spacing <= 4 * LIMIT,
                    0 <= steps <= 0xffff_ffff,
            ;
            Ray {
                origin: Vec2 { x: base.x + spacing * steps + shift, y: base.y },
                direction: Vec2 { x: 0, y: heading },
                max_toi: sweep.ray_length,
                solid: true,
                memberships: RAY_MEMBERSHIPS,
                filter: RAY_FILTER,
            }
        },
    }
}

/// Computes the segment that shows `ray` once the pass stands at `sweep`.
pub fn debug_line(ray: &Ray, sweep: &AxisSweep) -> (line: DebugLine)
    requires
        sweep.wf(),
        ray.in_reach(),
    ensures
        line == ray_line(*ray, *sweep),
{
    let along_x: i64 = if ray.direction.x < 0 {
        -sweep.ray_length
    } else if ray.direction.x > 0 {
        sweep.ray_length
    } else {
        0
    };
    let along_y: i64 = if ray.direction.y < 0 {
        -sweep.ray_length
    } else if ray.direction.y > 0 {
        sweep.ray_length
    } else {
        0
    };
    DebugLine {
        start: ray.origin,
        end: Vec2 { x: ray.origin.x + along_x, y: ray.origin.y + along_y },
        axis: if ray.direction.y != 0 {
            Axis::Vertical
        } else {
            Axis::Horizontal
        },
    }
}

} // verus!
