//! Collision and selection engine for a shared two-dimensional board.
//!
//! Participants place, move and remove geometric pieces (units), static
//! regions (terrain) and decorative annotations (underlays and overlays).
//! The engine decides whether a candidate placement overlaps any other
//! solid shape, and which shape occupies a given point; a small state
//! machine drives the press/drag/release interaction, and an allocator
//! hands out the smallest free identifier.
//!
//! All coordinates are exact unsigned integers; every overlap test is an
//! exact integer predicate with a strict-inequality convention: shapes
//! that merely touch do not overlap.

pub mod allocator;
pub mod board;
pub mod collider;
pub mod drag;
pub mod geometry;
pub mod records;
pub mod scene;

pub use collider::Shape;
pub use collider::ShapeType;
pub use geometry::Position;
