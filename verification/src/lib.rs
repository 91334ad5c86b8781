//! A retained-mode layout tree: the geometric result of a layout pass.
//!
//! A [`layout::Node`] records the computed bounds of one element and owns the
//! nodes of its children, forming the tree that rendering and hit-testing
//! walk. Geometry primitives live in [`geometry`]; the styling surface for
//! scrollable widgets lives in [`scrollable`].

pub mod geometry;
pub mod layout;
pub mod scrollable;
