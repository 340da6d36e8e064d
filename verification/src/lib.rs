//! A kinematic platformer kernel for tile-based worlds.
//!
//! A body is an axis-aligned rectangle that is moved by its own velocity and
//! must not enter solid geometry. In each step the kernel advances the
//! velocity from the body's input, casts rays from the edges of the body in
//! the direction of travel, shortens the displacement where a ray finds a
//! surface, records which sides of the body are in contact, and moves the
//! body by what is left. It also holds the table that gives each tile of the
//! world its collider: a box, or one of three slopes, mirrored as the level
//! asks.
//!
//! All quantities are fixed-point integers (see [`fixed`]): lengths and
//! speeds in sub-units, 10,000 to the world unit, and times in ticks, 10,000
//! to the second. The world itself is not part of the kernel: the resolver
//! asks it about one ray at a time through a function that its caller
//! supplies.
pub mod fixed;
pub mod level;
pub mod math;
pub mod platformer;
pub mod player;
pub mod sweep;
