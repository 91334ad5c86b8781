//! Geometry primitives: sizes, points, rectangles and alignment policies.
//!
//! Coordinates and extents are plain `i64` values in a single abstract unit.
//! Nothing here validates geometry: a degenerate value (a negative width, an
//! off-canvas coordinate) is carried through unchanged, by design.

use vstd::prelude::*;

verus! {

/// The extent of an element, independent of its position.
#[derive(Debug, Clone, Copy, PartialEq, Eq, Structural)]
pub struct Size {
    /// The horizontal extent.
    pub width: i64,
    /// The vertical extent.
    pub height: i64,
}

impl Size {
    /// Creates a new [`Size`] with the given width and height.
    pub fn new(width: i64, height: i64) -> (s: Size)
        ensures
            s == (Size { width, height }),
    {
        Size { width, height }
    }
}

/// A coordinate, absolute or parent-relative depending on context.
#[derive(Debug, Clone, Copy, PartialEq, Eq, Structural)]
pub struct Point {
    /// The horizontal coordinate.
    pub x: i64,
    /// The vertical coordinate.
    pub y: i64,
}

impl Point {
    /// Creates a new [`Point`] with the given coordinates.
    pub fn new(x: i64, y: i64) -> (p: Point)
        ensures
            p == (Point { x, y }),
    {
        Point { x, y }
    }
}

/// An axis-aligned bounding box; `x`, `y` is the top-left corner.
#[derive(Debug, Clone, Copy, PartialEq, Eq, Structural)]
pub struct Rectangle {
    /// The horizontal coordinate of the top-left corner.
    pub x: i64,
    /// The vertical coordinate of the top-left corner.
    pub y: i64,
    /// The horizontal extent.
    pub width: i64,
    /// The vertical extent.
    pub height: i64,
}

/// The policy that places an element within a larger allotted space
/// along one axis.
#[derive(Debug, Clone, Copy, PartialEq, Eq, Structural)]
pub enum Align {
    /// Keep the element at the start of the space.
    Start,
    /// Center the element within the space.
    Center,
    /// Push the element to the end of the space.
    End,
}

} // verus!
