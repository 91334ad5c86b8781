use layout_tree::geometry::{Align, Point, Rectangle, Size};
use layout_tree::layout::Node;

fn rect(x: i64, y: i64, width: i64, height: i64) -> Rectangle {
    Rectangle {
        x,
        y,
        width,
        height,
    }
}

#[test]
fn new_places_size_at_origin() {
    let node = Node::new(Size::new(10, 20));
    assert_eq!(node.size(), Size::new(10, 20));
    assert_eq!(node.bounds(), rect(0, 0, 10, 20));
    assert!(node.children().is_empty());
}

#[test]
fn new_keeps_degenerate_sizes() {
    let node = Node::new(Size::new(-3, 0));
    assert_eq!(node.bounds(), rect(0, 0, -3, 0));
    assert_eq!(node.size(), Size::new(-3, 0));
}

#[test]
fn with_children_keeps_children_verbatim() {
    let mut child_a = Node::new(Size::new(5, 5));
    child_a.move_to(Point::new(1, 2));
    let child_b = Node::new(Size::new(7, 8));

    let parent = Node::with_children(Size::new(50, 50), vec![child_a, child_b]);

    assert_eq!(parent.size(), Size::new(50, 50));
    assert_eq!(parent.bounds(), rect(0, 0, 50, 50));
    let children = parent.children();
    assert_eq!(children.len(), 2);
    assert_eq!(children[0].bounds(), rect(1, 2, 5, 5));
    assert_eq!(children[1].bounds(), rect(0, 0, 7, 8));
}

#[test]
fn align_start_start_changes_nothing() {
    let mut node = Node::new(Size::new(10, 10));
    node.move_to(Point::new(4, 9));
    node.align(Align::Start, Align::Start, Size::new(100, 100));
    assert_eq!(node.bounds(), rect(4, 9, 10, 10));
}

#[test]
fn align_center_center() {
    let mut node = Node::new(Size::new(10, 10));
    node.align(Align::Center, Align::Center, Size::new(100, 100));
    assert_eq!(node.bounds(), rect(45, 45, 10, 10));
    assert_eq!(node.size(), Size::new(10, 10));
}

#[test]
fn align_end_start() {
    let mut node = Node::new(Size::new(10, 10));
    node.align(Align::End, Align::Start, Size::new(100, 100));
    assert_eq!(node.bounds().x, 90);
    assert_eq!(node.bounds().y, 0);
}

#[test]
fn align_center_overflow_goes_negative() {
    let mut node = Node::new(Size::new(150, 10));
    node.align(Align::Center, Align::Start, Size::new(100, 100));
    assert_eq!(node.bounds().x, -25);
    assert_eq!(node.bounds(), rect(-25, 0, 150, 10));
}

#[test]
fn align_center_rounds_toward_zero() {
    let mut node = Node::new(Size::new(10, 10));
    node.align(Align::Center, Align::Start, Size::new(101, 100));
    assert_eq!(node.bounds().x, 45);

    let mut overflowing = Node::new(Size::new(101, 10));
    overflowing.align(Align::Center, Align::Start, Size::new(100, 100));
    assert_eq!(overflowing.bounds().x, 0);
}

#[test]
fn align_accumulates_on_prior_position() {
    let mut node = Node::new(Size::new(10, 10));
    node.move_to(Point::new(5, 5));
    node.align(Align::End, Align::Center, Size::new(20, 20));
    assert_eq!(node.bounds(), rect(15, 10, 10, 10));
}

#[test]
fn move_to_is_absolute() {
    let mut node = Node::new(Size::new(10, 10));
    node.move_to(Point::new(5, 5));
    assert_eq!(node.bounds(), rect(5, 5, 10, 10));
    node.move_to(Point::new(3, 3));
    assert_eq!(node.bounds(), rect(3, 3, 10, 10));
}

#[test]
fn align_and_move_to_leave_children_and_size_alone() {
    let mut child_a = Node::new(Size::new(5, 5));
    child_a.move_to(Point::new(1, 1));
    let child_b = Node::new(Size::new(6, 6));

    let mut parent = Node::with_children(Size::new(50, 50), vec![child_a, child_b]);
    parent.align(Align::Center, Align::End, Size::new(200, 200));
    parent.move_to(Point::new(30, 40));

    assert_eq!(parent.size(), Size::new(50, 50));
    assert_eq!(parent.bounds(), rect(30, 40, 50, 50));
    let children = parent.children();
    assert_eq!(children.len(), 2);
    assert_eq!(children[0].bounds(), rect(1, 1, 5, 5));
    assert_eq!(children[1].bounds(), rect(0, 0, 6, 6));
}

#[test]
fn default_is_an_empty_leaf_at_origin() {
    let node = Node::default();
    assert_eq!(node.bounds(), rect(0, 0, 0, 0));
    assert!(node.children().is_empty());
}

#[test]
fn clone_copies_the_whole_tree() {
    let mut child = Node::new(Size::new(5, 5));
    child.move_to(Point::new(2, 3));
    let mut original = Node::with_children(Size::new(20, 20), vec![child]);
    original.move_to(Point::new(1, 1));

    let mut copy = original.clone();
    assert_eq!(copy.bounds(), rect(1, 1, 20, 20));
    assert_eq!(copy.children().len(), 1);
    assert_eq!(copy.children()[0].bounds(), rect(2, 3, 5, 5));

    copy.move_to(Point::new(9, 9));
    assert_eq!(original.bounds(), rect(1, 1, 20, 20));
    assert_eq!(copy.bounds(), rect(9, 9, 20, 20));
}

#[test]
fn composed_tree_keeps_grandchildren() {
    let leaf = Node::new(Size::new(2, 2));
    let mut inner = Node::with_children(Size::new(10, 10), vec![leaf]);
    inner.move_to(Point::new(3, 3));
    let parent = Node::with_children(Size::new(50, 50), vec![inner]);

    let children = parent.children();
    assert_eq!(children.len(), 1);
    assert_eq!(children[0].bounds(), rect(3, 3, 10, 10));
    let grandchildren = children[0].children();
    assert_eq!(grandchildren.len(), 1);
    assert_eq!(grandchildren[0].bounds(), rect(0, 0, 2, 2));
}
