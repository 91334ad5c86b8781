//! The layout tree: the bounds of an element and of its children.
//!
//! A [`Node`] is built once by a layout algorithm, adjusted in place by
//! [`Node::align`] and [`Node::move_to`], then read by consumers such as a
//! renderer or a hit-tester. Children are stored verbatim, in the coordinate
//! space of the parent: no operation on a node ever recurses into them.

use vstd::prelude::*;

use crate::geometry::{Align, Point, Rectangle, Size};

verus! {

/// Half of `d`, rounded toward zero.
pub open spec fn half_toward_zero(d: int) -> int {
    if d >= 0 {
        d / 2
    } else {
        -((-d) / 2)
    }
}

/// The coordinate of an element after it is placed within a space along one
/// axis: `Start` keeps it, `Center` shifts it by half the leftover room,
/// `End` shifts it by all of it. Leftover room may be negative (overflow);
/// the shift is then negative and nothing is clamped.
pub open spec fn aligned_coordinate(coordinate: int, extent: int, space: int, policy: Align) -> int {
    match policy {
        Align::Start => coordinate,
        Align::Center => coordinate + half_toward_zero(space - extent),
        Align::End => coordinate + (space - extent),
    }
}

/// Whether aligning along one axis stays within the machine's integers:
/// the leftover room and the shifted coordinate must both be representable.
pub open spec fn aligned_coordinate_fits(coordinate: int, extent: int, space: int, policy: Align) -> bool {
    match policy {
        Align::Start => true,
        Align::Center => {
            &&& -i64::MAX <= space - extent <= i64::MAX
            &&& i64::MIN <= coordinate + half_toward_zero(space - extent) <= i64::MAX
        },
        Align::End => {
            &&& i64::MIN <= space - extent <= i64::MAX
            &&& i64::MIN <= coordinate + (space - extent) <= i64::MAX
        },
    }
}

/// The bounds of an element and its children.
#[derive(Debug)]
pub struct Node {
    bounds: Rectangle,
    children: Vec<Node>,
}

impl Node {
    /// This node's own box.
    pub closed spec fn spec_bounds(&self) -> Rectangle {
        self.bounds
    }

    /// This node's children, in the order they were attached.
    pub closed spec fn spec_children(&self) -> Seq<Node> {
        self.children@
    }

    /// Creates a new [`Node`] with the given [`Size`], placed at the origin,
    /// with no children.
    pub fn new(size: Size) -> (node: Node)
        ensures
            node.spec_bounds() == (Rectangle { x: 0, y: 0, width: size.width, height: size.height }),
            node.spec_children() == Seq::<Node>::empty(),
    {
        Self::with_children(size, Vec::new())
    }

    /// Creates a new [`Node`] with the given [`Size`] and children, placed at
    /// the origin. The children are stored verbatim: no validation that they
    /// fit within `size`, and no geometric transform on them.
    pub fn with_children(size: Size, children: Vec<Node>) -> (node: Node)
        ensures
            node.spec_bounds() == (Rectangle { x: 0, y: 0, width: size.width, height: size.height }),
            node.spec_children() == children@,
    {
        Node {
            bounds: Rectangle {
                x: 0,
                y: 0,
                width: size.width,
                height: size.height,
            },
            children,
        }
    }

    /// Returns the [`Size`] of the [`Node`].
    pub fn size(&self) -> (size: Size)
        ensures
            size == (Size { width: self.spec_bounds().width, height: self.spec_bounds().height }),
    {
        Size::new(self.bounds.width, self.bounds.height)
    }

    /// Returns the bounds of the [`Node`].
    pub fn bounds(&self) -> (bounds: Rectangle)
        ensures
            bounds == self.spec_bounds(),
    {
        self.bounds
    }

    /// Returns the children of the [`Node`], in their original order.
    pub fn children(&self) -> (children: &[Node])
        ensures
            children@ == self.spec_children(),
    {
        self.children.as_slice()
    }

    /// Repositions this node's own box within a container of the given
    /// `space`, independently per axis: `horizontal_alignment` moves `x`
    /// against `width`, `vertical_alignment` moves `y` against `height`.
    /// Size and children are untouched.
    pub fn align(&mut self, horizontal_alignment: Align, vertical_alignment: Align, space: Size)
        requires
            aligned_coordinate_fits(
                old(self).spec_bounds().x as int,
                old(self).spec_bounds().width as int,
                space.width as int,
                horizontal_alignment,
            ),
            aligned_coordinate_fits(
                old(self).spec_bounds().y as int,
                old(self).spec_bounds().height as int,
                space.height as int,
                vertical_alignment,
            ),
        ensures
            final(self).spec_bounds().x == aligned_coordinate(
                old(self).spec_bounds().x as int,
                old(self).spec_bounds().width as int,
                space.width as int,
                horizontal_alignment,
            ),
            final(self).spec_bounds().y == aligned_coordinate(
                old(self).spec_bounds().y as int,
                old(self).spec_bounds().height as int,
                space.height as int,
                vertical_alignment,
            ),
            final(self).spec_bounds().width == old(self).spec_bounds().width,
            final(self).spec_bounds().height == old(self).spec_bounds().height,
            final(self).spec_children() == old(self).spec_children(),
    {
        match horizontal_alignment {
            Align::Start => {}
            Align::Center => {
                self.bounds.x = shift_by_half(self.bounds.x, self.bounds.width, space.width);
            }
            Align::End => {
                self.bounds.x = self.bounds.x + (space.width - self.bounds.width);
            }
        }

        match vertical_alignment {
            Align::Start => {}
            Align::Center => {
                self.bounds.y = shift_by_half(self.bounds.y, self.bounds.height, space.height);
            }
            Align::End => {
                self.bounds.y = self.bounds.y + (space.height - self.bounds.height);
            }
        }
    }

    /// Moves this node to `position`: an absolute repositioning that discards
    /// the previous coordinates. Size and children are untouched.
    pub fn move_to(&mut self, position: Point)
        ensures
            final(self).spec_bounds() == (Rectangle {
                x: position.x,
                y: position.y,
                width: old(self).spec_bounds().width,
                height: old(self).spec_bounds().height,
            }),
            final(self).spec_children() == old(self).spec_children(),
    {
        self.bounds.x = position.x;
        self.bounds.y = position.y;
    }
}

/// Whether two nodes describe the same tree: the same box, and children that
/// are pairwise deeply equal, in the same order.
pub closed spec fn deep_equal(a: Node, b: Node) -> bool
    decreases a,
{
    &&& a.bounds == b.bounds
    &&& a.children@.len() == b.children@.len()
    &&& forall|i: int|
        0 <= i < a.children@.len() ==> deep_equal(#[trigger] a.children@[i], b.children@[i])
}

/// What [`deep_equal`] means, said through the public accessors: the boxes
/// are equal, and the children line up pairwise, deeply equal in order.
pub proof fn lemma_deep_equal_characterization(a: Node, b: Node)
    ensures
        deep_equal(a, b) <==> {
            &&& a.spec_bounds() == b.spec_bounds()
            &&& a.spec_children().len() == b.spec_children().len()
            &&& forall|i: int|
                0 <= i < a.spec_children().len() ==> deep_equal(
                    #[trigger] a.spec_children()[i],
                    b.spec_children()[i],
                )
        },
{
}

/// Every node is deeply equal to itself.
pub proof fn lemma_deep_equal_reflexive(a: Node)
    ensures
        deep_equal(a, a),
    decreases a,
{
    assert forall|i: int| 0 <= i < a.children@.len() implies deep_equal(
        #[trigger] a.children@[i],
        a.children@[i],
    ) by {
        lemma_deep_equal_reflexive(a.children@[i]);
    }
}

/// Aligning with `Start` on both axes is the identity: whatever space the
/// node is offered, such a call is always within the machine's integers and
/// leaves every coordinate of its box unchanged.
pub proof fn lemma_align_start_is_identity(bounds: Rectangle, space: Size)
    ensures
        aligned_coordinate_fits(bounds.x as int, bounds.width as int, space.width as int, Align::Start),
        aligned_coordinate_fits(bounds.y as int, bounds.height as int, space.height as int, Align::Start),
        aligned_coordinate(bounds.x as int, bounds.width as int, space.width as int, Align::Start) == bounds.x as int,
        aligned_coordinate(bounds.y as int, bounds.height as int, space.height as int, Align::Start) == bounds.y as int,
{
}

impl Default for Node {
    /// An empty leaf: a zero-sized box at the origin, with no children.
    fn default() -> (res: Node)
        ensures
            res.spec_bounds() == (Rectangle { x: 0, y: 0, width: 0, height: 0 }),
            res.spec_children() == Seq::<Node>::empty(),
    {
        Node::new(Size { width: 0, height: 0 })
    }
}

impl Clone for Node {
    /// Deep copy: the same box, and a copy of every child, deeply equal and
    /// in the original order.
    fn clone(&self) -> (res: Node)
        ensures
            deep_equal(*self, res),
        decreases *self,
    {
        let mut children: Vec<Node> = Vec::new();
        let mut i: usize = 0;
        while i < self.children.len()
            invariant
                i <= self.children.len(),
                children@.len() == i as int,
                forall|j: int|
                    0 <= j < i as int ==> deep_equal(self.children@[j], #[trigger] children@[j]),
            decreases self.children.len() - i,
        {
            children.push(self.children[i].clone());
            i = i + 1;
        }
        Node { bounds: self.bounds, children }
    }
}

/// The coordinate shifted by half the leftover room `space - extent`.
fn shift_by_half(coordinate: i64, extent: i64, space: i64) -> (shifted: i64)
    requires
        aligned_coordinate_fits(coordinate as int, extent as int, space as int, Align::Center),
    ensures
        shifted == coordinate + half_toward_zero(space - extent),
{
    let leftover: i64 = space - extent;
    if leftover >= 0 {
        coordinate + leftover / 2
    } else {
        let deficit: i64 = -leftover;
        coordinate - deficit / 2
    }
}

} // verus!
