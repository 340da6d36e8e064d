//! The geometry table: which collider a tile gets, by its identifier in the
//! tileset and by how the level flips it.
use vstd::prelude::*;
use crate::fixed::{Vec2, div_toward_zero, magnitude, quotient, quotient_bounds};

verus! {

/// Collision category of tile colliders: solid world geometry.
pub const TILE_MEMBERSHIPS: u32 = 0b0010;

/// Collision categories a tile collider answers to: the rays of bodies.
pub const TILE_FILTER: u32 = 0b0001;

/// The outline of a tile's collider, before any mirroring.
#[derive(Clone, Copy, Debug, PartialEq, Eq, Structural)]
pub enum TileColliderType {
    /// The whole tile.
    Square,
    /// A ramp from the bottom-right corner up to the top-left corner.
    Slope,
    /// A ramp from half height on the right up to full height on the left.
    HalfSlopeRising,
    /// A ramp from the bottom-right corner up to half height on the left.
    HalfSlopeFalling,
}

/// The table's entry for one tile identifier: an outline, and whether the
/// tileset draws it mirrored.
#[derive(Clone, Copy, Debug, PartialEq, Eq, Structural)]
pub struct TileColliderDescriptor {
    pub shape_kind: TileColliderType,
    pub mirrored_x: bool,
    pub mirrored_y: bool,
}

/// A fault in the configuration of the world or of a body.
#[derive(Clone, Copy, Debug, PartialEq, Eq, Structural)]
pub enum ConfigError {
    /// A hull was asked for with fewer than three distinct corners.
    DegenerateHull,
    /// A body was asked for whose width or height is not positive.
    DegenerateBody,
}

/// A collider for the world: a box by its half-extents, or the convex hull of
/// some points. Coordinates are relative to the tile's centre.
#[derive(Debug)]
pub enum ColliderShape {
    Cuboid { hx: i64, hy: i64 },
    ConvexHull { points: Vec<Vec2> },
}

/// What a collider shape is, in mathematical integers.
pub enum ShapeModel {
    Cuboid { hx: int, hy: int },
    ConvexHull { points: Seq<(int, int)> },
}

/// The points of a hull as pairs of integers.
pub open spec fn points_model(points: Seq<Vec2>) -> Seq<(int, int)> {
    Seq::new(points.len(), |i: int| (points[i].x as int, points[i].y as int))
}

impl View for ColliderShape {
    type V = ShapeModel;

    open spec fn view(&self) -> ShapeModel {
        match self {
            ColliderShape::Cuboid { hx, hy } => ShapeModel::Cuboid { hx: *hx as int, hy: *hy as int },
            ColliderShape::ConvexHull { points } => ShapeModel::ConvexHull {
                points: points_model(points@),
            },
        }
    }
}

/// Whether the table has an entry of its own for `tile_id`.
pub open spec fn is_known_tile(tile_id: i32) -> bool {
    ||| tile_id == 6
    ||| tile_id == 7
    ||| tile_id == 44
    ||| tile_id == 45
    ||| tile_id == 46
    ||| tile_id == 47
    ||| tile_id == 86
    ||| tile_id == 87
    ||| tile_id == 124
    ||| tile_id == 125
    ||| tile_id == 126
    ||| tile_id == 127
}

/// The table. The grass tiles and the stone tiles, eighty identifiers apart,
/// have the same outlines; every other tile is a square.
pub open spec fn descriptor_for(tile_id: i32) -> TileColliderDescriptor {
    let (shape_kind, mirrored_x) = if tile_id == 6 || tile_id == 86 {
        (TileColliderType::Slope, false)
    } else if tile_id == 7 || tile_id == 87 {
        (TileColliderType::Slope, true)
    } else if tile_id == 44 || tile_id == 124 {
        (TileColliderType::HalfSlopeRising, false)
    } else if tile_id == 45 || tile_id == 125 {
        (TileColliderType::HalfSlopeFalling, false)
    } else if tile_id == 46 || tile_id == 126 {
        (TileColliderType::HalfSlopeFalling, true)
    } else if tile_id == 47 || tile_id == 127 {
        (TileColliderType::HalfSlopeRising, true)
    } else {
        (TileColliderType::Square, false)
    };
    TileColliderDescriptor { shape_kind, mirrored_x, mirrored_y: false }
}

/// The flips that a level's flip bits ask for: bit 0 flips a tile
/// horizontally, bit 1 vertically; values other than 1, 2 and 3 flip nothing.
pub open spec fn flips_of(f: i64) -> (bool, bool) {
    (f == 1 || f == 3, f == 2 || f == 3)
}

/// A point mirrored across the vertical axis (`across_x`), the horizontal
/// axis (`across_y`), both or neither.
pub open spec fn mirrored_point(point: (int, int), across_x: bool, across_y: bool) -> (int, int) {
    (if across_x { -point.0 } else { point.0 }, if across_y { -point.1 } else { point.1 })
}

/// Every point of `points` mirrored, in the same order.
pub open spec fn mirrored(points: Seq<(int, int)>, across_x: bool, across_y: bool) -> Seq<(int, int)> {
    Seq::new(points.len(), |i: int| mirrored_point(points[i], across_x, across_y))
}

/// The corners of an outline of half-size `h` that is not mirrored. A square
/// has no list of corners: it is a box.
pub open spec fn outline(shape_kind: TileColliderType, h: int) -> Seq<(int, int)> {
    match shape_kind {
        TileColliderType::Square => Seq::empty(),
        TileColliderType::Slope => seq![(-h, -h), (h, -h), (-h, h)],
        TileColliderType::HalfSlopeRising => seq![(-h, -h), (h, -h), (h, 0), (-h, h)],
        TileColliderType::HalfSlopeFalling => seq![(-h, -h), (h, -h), (-h, 0)],
    }
}

/// The collider of a tile of the given size: its outline from the table,
/// mirrored across an axis where exactly one of the table and the level flips
/// it, with half the size as half-extent.
pub open spec fn shape_for(tile_id: i32, tile_size: i64, flip_x: bool, flip_y: bool) -> ShapeModel {
    let entry = descriptor_for(tile_id);
    let h = quotient(tile_size as int, 2);
    if entry.shape_kind == TileColliderType::Square {
        ShapeModel::Cuboid { hx: h, hy: h }
    } else {
        ShapeModel::ConvexHull {
            points: mirrored(
                outline(entry.shape_kind, h),
                entry.mirrored_x != flip_x,
                entry.mirrored_y != flip_y,
            ),
        }
    }
}

/// Whether the collider of such a tile would be a hull of fewer than three
/// distinct corners: its outline is not a square and its half-size is zero.
pub open spec fn is_degenerate(tile_id: i32, tile_size: i64) -> bool {
    descriptor_for(tile_id).shape_kind != TileColliderType::Square && quotient(tile_size as int, 2)
        == 0
}

/// The corners of a shape: those of the box, or the points of the hull.
pub open spec fn vertices(shape: ShapeModel) -> Seq<(int, int)> {
    match shape {
        ShapeModel::Cuboid { hx, hy } => seq![(-hx, -hy), (hx, -hy), (hx, hy), (-hx, hy)],
        ShapeModel::ConvexHull { points } => points,
    }
}

/// A tile that the table does not name is a square that no flip changes.
pub proof fn unknown_tile_is_square(tile_id: i32, tile_size: i64, flip_x: bool, flip_y: bool)
    requires
        !is_known_tile(tile_id),
    ensures
        descriptor_for(tile_id) == (TileColliderDescriptor {
            shape_kind: TileColliderType::Square,
            mirrored_x: false,
            mirrored_y: false,
        }),
        shape_for(tile_id, tile_size, flip_x, flip_y) == (ShapeModel::Cuboid {
            hx: quotient(tile_size as int, 2),
            hy: quotient(tile_size as int, 2),
        }),
        !is_degenerate(tile_id, tile_size),
{
}

/// Mirroring twice across the same axes gives the points back.
pub proof fn mirroring_is_involutive(points: Seq<(int, int)>, across_x: bool, across_y: bool)
    ensures
        mirrored(mirrored(points, across_x, across_y), across_x, across_y) == points,
{
    assert(mirrored(mirrored(points, across_x, across_y), across_x, across_y) =~= points);
}

/// Flipping a tile mirrors its collider: the corners of the tile flipped
/// along an axis are the corners of the unflipped tile, mirrored across it.
/// Flipping it again gives the first collider back.
pub proof fn flip_mirrors_shape(
    tile_id: i32,
    tile_size: i64,
    flip_x: bool,
    flip_y: bool,
    across_x: bool,
    across_y: bool,
)
    requires
        is_known_tile(tile_id),
    ensures
        vertices(shape_for(tile_id, tile_size, flip_x != across_x, flip_y != across_y)) == mirrored(
            vertices(shape_for(tile_id, tile_size, flip_x, flip_y)),
            across_x,
            across_y,
        ),
        mirrored(
            mirrored(vertices(shape_for(tile_id, tile_size, flip_x, flip_y)), across_x, across_y),
            across_x,
            across_y,
        ) == vertices(shape_for(tile_id, tile_size, flip_x, flip_y)),
{
    let before = vertices(shape_for(tile_id, tile_size, flip_x, flip_y));
    let after = vertices(shape_for(tile_id, tile_size, flip_x != across_x, flip_y != across_y));
    assert(after =~= mirrored(before, across_x, across_y));
    mirroring_is_involutive(before, across_x, across_y);
}

/// Twice the signed area of the triangle `p`, `q`, `r`: positive where the
/// path from `p` over `q` to `r` turns left, negative where it turns right,
/// zero where the three points lie on one line.
pub open spec fn turn(p: (int, int), q: (int, int), r: (int, int)) -> int {
    (q.0 - p.0) * (r.1 - q.1) - (q.1 - p.1) * (r.0 - q.0)
}

/// The turn at the corner after the one with the given index, walking the
/// points in order and from the last back to the first.
pub open spec fn corner_turn(points: Seq<(int, int)>, index: int) -> int {
    turn(
        points[index],
        points[(index + 1) % (points.len() as int)],
        points[(index + 2) % (points.len() as int)],
    )
}

/// Whether the points, in their order, are the corners of a convex polygon
/// with an inside: there are at least three, and walking them turns the same
/// way at every corner. Such points are distinct and each is a corner of
/// their hull.
pub open spec fn is_convex_outline(points: Seq<(int, int)>) -> bool {
    &&& points.len() >= 3
    &&& {
        ||| forall|i: int| 0 <= i < points.len() ==> #[trigger] corner_turn(points, i) > 0
        ||| forall|i: int| 0 <= i < points.len() ==> #[trigger] corner_turn(points, i) < 0
    }
}

/// Mirroring across one axis reverses every turn; across both, or none, it
/// keeps them.
proof fn turn_of_mirrored(
    p: (int, int),
    q: (int, int),
    r: (int, int),
    across_x: bool,
    across_y: bool,
)
    ensures
        turn(
            mirrored_point(p, across_x, across_y),
            mirrored_point(q, across_x, across_y),
            mirrored_point(r, across_x, across_y),
        ) == if across_x != across_y {
            -turn(p, q, r)
        } else {
            turn(p, q, r)
        },
{
    let a = q.0 - p.0;
    let b = q.1 - p.1;
    let c = r.0 - q.0;
    let d = r.1 - q.1;
    assert((-a) * d - b * (-c) == -(a * d - b * c)) by (nonlinear_arith);
    assert(a * (-d) - (-b) * c == -(a * d - b * c)) by (nonlinear_arith);
    assert((-a) * (-d) - (-b) * (-c) == a * d - b * c) by (nonlinear_arith);
}

/// Every outline of the table but the square, of a half-size other than
/// zero, turns left at each of its corners.
proof fn outline_turns_left(shape_kind: TileColliderType, h: int, index: int)
    requires
        shape_kind != TileColliderType::Square,
        h != 0,
        0 <= index < outline(shape_kind, h).len(),
    ensures
        corner_turn(outline(shape_kind, h), index) > 0,
{
    let area = h * h;
    assert(area > 0) by (nonlinear_arith)
        requires
            h != 0,
            area == h * h,
    ;
    let points = outline(shape_kind, h);
    let low = (-h, -h);
    let right = (h, -h);
    let left = (-h, h);
    let half_right = (h, 0int);
    let half_left = (-h, 0int);
    assert(turn(low, right, left) == 4 * area) by (nonlinear_arith)
        requires
            low == (-h, -h),
            right == (h, -h),
            left == (-h, h),
            area == h * h,
    ;
    assert(turn(right, left, low) == 4 * area) by (nonlinear_arith)
        requires
            low == (-h, -h),
            right == (h, -h),
            left == (-h, h),
            area == h * h,
    ;
    assert(turn(left, low, right) == 4 * area) by (nonlinear_arith)
        requires
            low == (-h, -h),
            right == (h, -h),
            left == (-h, h),
            area == h * h,
    ;
    assert(turn(low, right, half_right) == 2 * area) by (nonlinear_arith)
        requires
            low == (-h, -h),
            right == (h, -h),
            half_right == (h, 0int),
            area == h * h,
    ;
    assert(turn(right, half_right, left) == 2 * area) by (nonlinear_arith)
        requires
            right == (h, -h),
            half_right == (h, 0int),
            left == (-h, h),
            area == h * h,
    ;
    assert(turn(half_right, left, low) == 4 * area) by (nonlinear_arith)
        requires
            half_right == (h, 0int),
            left == (-h, h),
            low == (-h, -h),
            area == h * h,
    ;
    assert(turn(low, right, half_left) == 2 * area) by (nonlinear_arith)
        requires
            low == (-h, -h),
            right == (h, -h),
            half_left == (-h, 0int),
            area == h * h,
    ;
    assert(turn(right, half_left, low) == 2 * area) by (nonlinear_arith)
        requires
            low == (-h, -h),
            right == (h, -h),
            half_left == (-h, 0int),
            area == h * h,
    ;
    assert(turn(half_left, low, right) == 2 * area) by (nonlinear_arith)
        requires
            low == (-h, -h),
            right == (h, -h),
            half_left == (-h, 0int),
            area == h * h,
    ;
    match shape_kind {
        TileColliderType::Square => {},
        TileColliderType::Slope => {
            assert(points =~= seq![low, right, left]);
            if index == 0 {
                assert(corner_turn(points, 0) == turn(low, right, left));
            } else if index == 1 {
                assert(corner_turn(points, 1) == turn(right, left, low));
            } else {
                assert(corner_turn(points, 2) == turn(left, low, right));
            }
        },
        TileColliderType::HalfSlopeRising => {
            assert(points =~= seq![low, right, half_right, left]);
            if index == 0 {
                assert(corner_turn(points, 0) == turn(low, right, half_right));
            } else if index == 1 {
                assert(corner_turn(points, 1) == turn(right, half_right, left));
            } else if index == 2 {
                assert(corner_turn(points, 2) == turn(half_right, left, low));
            } else {
                assert(corner_turn(points, 3) == turn(left, low, right));
            }
        },
        TileColliderType::HalfSlopeFalling => {
            assert(points =~= seq![low, right, half_left]);
            if index == 0 {
                assert(corner_turn(points, 0) == turn(low, right, half_left));
            } else if index == 1 {
                assert(corner_turn(points, 1) == turn(right, half_left, low));
            } else {
                assert(corner_turn(points, 2) == turn(half_left, low, right));
            }
        },
    }
}

/// The hull of every tile that the table names, of a size for which it is not
/// degenerate, is given by the corners of a convex polygon, whatever the
/// flips: no point of it lies inside the hull of the others, and the hull
/// has an inside.
pub proof fn hulls_are_convex(tile_id: i32, tile_size: i64, flip_x: bool, flip_y: bool)
    requires
        is_known_tile(tile_id),
        !is_degenerate(tile_id, tile_size),
    ensures
        shape_for(tile_id, tile_size, flip_x, flip_y) is ConvexHull,
        is_convex_outline(vertices(shape_for(tile_id, tile_size, flip_x, flip_y))),
{
    let entry = descriptor_for(tile_id);
    let h = quotient(tile_size as int, 2);
    let across_x = entry.mirrored_x != flip_x;
    let across_y = entry.mirrored_y != flip_y;
    let base = outline(entry.shape_kind, h);
    let points = mirrored(base, across_x, across_y);
    let n = points.len() as int;
    assert(vertices(shape_for(tile_id, tile_size, flip_x, flip_y)) == points);
    assert forall|i: int| 0 <= i < n implies #[trigger] corner_turn(points, i) == if across_x
        != across_y {
        -corner_turn(base, i)
    } else {
        corner_turn(base, i)
    } && corner_turn(base, i) > 0 by {
        turn_of_mirrored(base[i], base[(i + 1) % n], base[(i + 2) % n], across_x, across_y);
        outline_turns_left(entry.shape_kind, h, i);
    }
}

/// Looks up the table's entry for a tile identifier.
pub fn tile_descriptor(tile_id: i32) -> (entry: TileColliderDescriptor)
    ensures
        entry == descriptor_for(tile_id),
        !is_known_tile(tile_id) ==> entry.shape_kind == TileColliderType::Square
            && !entry.mirrored_x && !entry.mirrored_y,
{
    let (shape_kind, mirrored_x) = match tile_id {
        6 | 86 => (TileColliderType::Slope, false),
        7 | 87 => (TileColliderType::Slope, true),
        44 | 124 => (TileColliderType::HalfSlopeRising, false),
        45 | 125 => (TileColliderType::HalfSlopeFalling, false),
        46 | 126 => (TileColliderType::HalfSlopeFalling, true),
        47 | 127 => (TileColliderType::HalfSlopeRising, true),
        _ => (TileColliderType::Square, false),
    };
    TileColliderDescriptor { shape_kind, mirrored_x, mirrored_y: false }
}

/// Reads the flips out of a level's flip bits.
pub fn tile_flips(f: i64) -> (flips: (bool, bool))
    ensures
        flips == flips_of(f),
{
    match f {
        1 => (true, false),
        2 => (false, true),
        3 => (true, true),
        _ => (false, false),
    }
}

/// Builds the collider of a tile. `flip_x` and `flip_y` are the flips that
/// the level asks for; they combine with those of the table.
pub fn get_collider_shape(tile_id: i32, tile_size: i64, flip_x: bool, flip_y: bool) -> (made: Result<
    ColliderShape,
    ConfigError,
>)
    ensures
        is_degenerate(tile_id, tile_size) <==> made == Err::<ColliderShape, ConfigError>(
            ConfigError::DegenerateHull,
        ),
        !is_degenerate(tile_id, tile_size) ==> made is Ok && made->Ok_0@ == shape_for(
            tile_id,
            tile_size,
            flip_x,
            flip_y,
        ),
        !is_known_tile(tile_id) ==> made is Ok && made->Ok_0@ == (ShapeModel::Cuboid {
            hx: quotient(tile_size as int, 2),
            hy: quotient(tile_size as int, 2),
        }),
{
    let entry: TileColliderDescriptor = tile_descriptor(tile_id);
    proof {
        quotient_bounds(tile_size as int, 2);
        assert(magnitude(2) == 2);
        assert(magnitude(tile_size as int) / 2 <= 0x4000_0000_0000_0000);
    }
    let h: i64 = div_toward_zero(tile_size as i128, 2) as i64;
    let across_x: bool = entry.mirrored_x != flip_x;
    let across_y: bool = entry.mirrored_y != flip_y;
    let left: i64 = if across_x { h } else { -h };
    let right: i64 = -left;
    let bottom: i64 = if across_y { h } else { -h };
    let top: i64 = -bottom;
    match entry.shape_kind {
        TileColliderType::Square => Ok(ColliderShape::Cuboid { hx: h, hy: h }),
        _ if h == 0 => Err(ConfigError::DegenerateHull),
        TileColliderType::Slope => {
            let mut points: Vec<Vec2> = Vec::new();
            points.push(Vec2 { x: left, y: bottom });
            points.push(Vec2 { x: right, y: bottom });
            points.push(Vec2 { x: left, y: top });
            let shape = ColliderShape::ConvexHull { points };
            assert(shape@->ConvexHull_points =~= shape_for(tile_id, tile_size, flip_x, flip_y)->ConvexHull_points);
            Ok(shape)
        },
        TileColliderType::HalfSlopeRising => {
            let mut points: Vec<Vec2> = Vec::new();
            points.push(Vec2 { x: left, y: bottom });
            points.push(Vec2 { x: right, y: bottom });
            points.push(Vec2 { x: right, y: 0 });
            points.push(Vec2 { x: left, y: top });
            let shape = ColliderShape::ConvexHull { points };
            assert(shape@->ConvexHull_points =~= shape_for(tile_id, tile_size, flip_x, flip_y)->ConvexHull_points);
            Ok(shape)
        },
        TileColliderType::HalfSlopeFalling => {
            let mut points: Vec<Vec2> = Vec::new();
            points.push(Vec2 { x: left, y: bottom });
            points.push(Vec2 { x: right, y: bottom });
            points.push(Vec2 { x: left, y: 0 });
            let shape = ColliderShape::ConvexHull { points };
            assert(shape@->ConvexHull_points =~= shape_for(tile_id, tile_size, flip_x, flip_y)->ConvexHull_points);
            Ok(shape)
        },
    }
}

/// What the world is given for one tile: its collider, the collision
/// categories of the collider, and the flips that its sprite is drawn with.
#[derive(Debug)]
pub struct TileCollider {
    pub shape: ColliderShape,
    pub flip_x: bool,
    pub flip_y: bool,
    pub memberships: u32,
    pub filter: u32,
}

/// Prepares one tile of a level for the world: reads its flips out of the
/// flip bits `f`, builds its collider and marks it as solid geometry that
/// the rays of bodies can hit.
pub fn spawn_tile(tile_id: i32, f: i64, tile_size: i64) -> (made: Result<TileCollider, ConfigError>)
    ensures
        is_degenerate(tile_id, tile_size) <==> made == Err::<TileCollider, ConfigError>(
            ConfigError::DegenerateHull,
        ),
        !is_degenerate(tile_id, tile_size) ==> {
            &&& made is Ok
            &&& made->Ok_0.shape@ == shape_for(tile_id, tile_size, flips_of(f).0, flips_of(f).1)
            &&& made->Ok_0.flip_x == flips_of(f).0
            &&& made->Ok_0.flip_y == flips_of(f).1
            &&& made->Ok_0.memberships == TILE_MEMBERSHIPS
            &&& made->Ok_0.filter == TILE_FILTER
        },
{
    let (flip_x, flip_y) = tile_flips(f);
    match get_collider_shape(tile_id, tile_size, flip_x, flip_y) {
        Ok(shape) => Ok(
            TileCollider { shape, flip_x, flip_y, memberships: TILE_MEMBERSHIPS, filter: TILE_FILTER },
        ),
        Err(error) => Err(error),
    }
}

} // verus!
