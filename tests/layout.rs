use boxflow::{
    query_size, update_subtree, Action, App, Axis, Block, CrossAlign, Direction, Edges, Layout,
    LayoutLimits, Length, MarginCursor, Node, NodeKind, Rect, SceneGraph, Vec2, WindowEvent,
};

fn v(x: i64, y: i64) -> Vec2 {
    Vec2::new(x, y)
}

fn sized_leaf(w: i64, h: i64) -> Node {
    let mut n = Node::leaf();
    n.size = Some(Length::px(w, h));
    n
}

fn flow(direction: Direction, cross_align: CrossAlign, children: Vec<usize>) -> Node {
    let mut n = Node::leaf();
    n.kind = NodeKind::Flow(Layout::new(direction, cross_align));
    n.children = children;
    n
}

fn limits(max: Vec2) -> LayoutLimits {
    LayoutLimits { min: v(0, 0), max }
}

fn area(w: i64, h: i64) -> Rect {
    Rect { min: v(0, 0), max: v(w, h) }
}

/// Two leaves of 100x50 and 50x80 in a horizontal container.
fn two_children(cross_align: CrossAlign) -> (SceneGraph, usize, usize, usize) {
    let mut g = SceneGraph::new();
    let a = g.add(sized_leaf(100, 50));
    let b = g.add(sized_leaf(50, 80));
    let c = g.add(flow(Direction::Horizontal, cross_align, vec![a, b]));
    (g, a, b, c)
}

fn block(rect: Rect, margin: Edges) -> Block {
    Block::new(rect, margin)
}

#[test]
fn horizontal_start_places_children_side_by_side() {
    let (mut g, a, b, c) = two_children(CrossAlign::Start);
    let r = update_subtree(&mut g, c, area(300, 100), limits(v(300, 100)));
    assert_eq!(r.rect.size(), v(150, 80));
    assert_eq!(g.local_position(a), Some(v(0, 0)));
    assert_eq!(g.local_position(b), Some(v(100, 0)));
    assert_eq!(g.rect(a), Some(area(100, 50)));
    assert_eq!(g.rect(b), Some(area(50, 80)));
}

#[test]
fn horizontal_center_centres_the_shorter_child() {
    let (mut g, a, b, c) = two_children(CrossAlign::Center);
    let r = update_subtree(&mut g, c, area(300, 100), limits(v(300, 100)));
    assert_eq!(r.rect.size(), v(150, 80));
    assert_eq!(g.local_position(a), Some(v(0, 15)));
    assert_eq!(g.local_position(b), Some(v(100, 0)));
}

#[test]
fn horizontal_end_aligns_to_the_far_side() {
    let (mut g, a, b, c) = two_children(CrossAlign::End);
    let _ = update_subtree(&mut g, c, area(300, 100), limits(v(300, 100)));
    assert_eq!(g.local_position(a), Some(v(0, 30)));
    assert_eq!(g.local_position(b), Some(v(100, 0)));
}

#[test]
fn trailing_margin_is_flushed_at_finish() {
    let mut g = SceneGraph::new();
    let mut leaf = sized_leaf(20, 20);
    leaf.margin = Some(Edges::new(10, 10, 0, 0));
    let a = g.add(leaf);
    let c = g.add(flow(Direction::Horizontal, CrossAlign::Start, vec![a]));
    let r = update_subtree(&mut g, c, area(300, 100), limits(v(300, 100)));
    assert_eq!(r.rect.size().x, 40);
    assert_eq!(g.local_position(a), Some(v(10, 0)));
}

#[test]
fn stretch_fills_the_cross_axis() {
    let mut g = SceneGraph::new();
    let mut first = sized_leaf(100, 10);
    first.margin = Some(Edges::new(0, 0, 5, 5));
    let a = g.add(first);
    let b = g.add(sized_leaf(50, 10));
    let c = g.add(flow(Direction::Horizontal, CrossAlign::Stretch, vec![a, b]));
    let _ = update_subtree(&mut g, c, area(300, 100), limits(v(300, 100)));
    assert_eq!(g.rect(a).unwrap().size().y, 90);
    assert_eq!(g.rect(b).unwrap().size().y, 100);
}

#[test]
fn second_pass_changes_nothing() {
    let (mut g, a, b, c) = two_children(CrossAlign::Center);
    let first = update_subtree(&mut g, c, area(300, 100), limits(v(300, 100)));
    let rects = (g.rect(a), g.rect(b));
    let positions = (g.local_position(a), g.local_position(b));
    let second = update_subtree(&mut g, c, area(300, 100), limits(v(300, 100)));
    assert_eq!(first, second);
    assert_eq!((g.rect(a), g.rect(b)), rects);
    assert_eq!((g.local_position(a), g.local_position(b)), positions);
    assert!(!g.placed.set_rect(a, rects.0.unwrap()));
    assert!(!g.placed.set_position(b, positions.1.unwrap()));
    assert!(g.placed.set_position(b, v(1, 2)));
}

#[test]
fn leaf_size_is_clamped_into_limits() {
    let mut g = SceneGraph::new();
    let a = g.add(sized_leaf(500, 5));
    let lim = LayoutLimits { min: v(10, 20), max: v(300, 100) };
    let r = update_subtree(&mut g, a, area(300, 100), lim);
    assert_eq!(r.rect.size(), v(300, 20));
}

#[test]
fn container_size_is_clamped_into_limits() {
    let (mut g, _, _, c) = two_children(CrossAlign::Start);
    let lim = LayoutLimits { min: v(0, 0), max: v(120, 60) };
    let r = update_subtree(&mut g, c, area(120, 60), lim);
    assert_eq!(r.rect.size(), v(120, 60));
}

#[test]
fn nonnegative_margins_collapse_to_the_larger() {
    let mut c = MarginCursor::new(v(0, 0), Axis::PosX, Axis::PosY);
    let p1 = c.put(&block(area(10, 10), Edges::new(0, 4, 0, 0)));
    let p2 = c.put(&block(area(10, 10), Edges::new(7, 0, 0, 0)));
    assert_eq!(p1, v(0, 0));
    assert_eq!(p2.x - 10, 7);
}

#[test]
fn negative_margin_cancels_part_of_the_gap() {
    let mut c = MarginCursor::new(v(0, 0), Axis::PosX, Axis::PosY);
    c.put(&block(area(10, 10), Edges::new(0, -2, 0, 0)));
    let p2 = c.put(&block(area(10, 10), Edges::new(5, 0, 0, 0)));
    assert_eq!(p2.x - 10, 3);
}

#[test]
fn two_negative_margins_give_no_gap() {
    let mut c = MarginCursor::new(v(0, 0), Axis::PosX, Axis::PosY);
    c.put(&block(area(10, 10), Edges::new(0, -5, 0, 0)));
    let p2 = c.put(&block(area(10, 10), Edges::new(-2, 0, 0, 0)));
    assert_eq!(p2.x - 10, 0);
}

#[test]
fn cursor_tracks_line_height_and_finishes_line() {
    let mut c = MarginCursor::new(v(0, 0), Axis::PosY, Axis::PosX);
    c.put(&block(area(30, 10), Edges::new(1, 2, 0, 0)));
    c.put(&block(area(20, 10), Edges::new(0, 0, 3, 0)));
    assert_eq!(c.line_height, 33);
    let line = c.finish();
    assert_eq!(line, Rect { min: v(0, 0), max: v(33, 23) });
    assert_eq!(c.pending_margin, 0);
}

#[test]
fn reversed_cursor_moves_backwards() {
    let mut c = MarginCursor::new(v(100, 0), Axis::NegX, Axis::PosY);
    let p = c.put(&block(area(10, 10), Edges::zero()));
    assert_eq!(p, v(90, 0));
    assert_eq!(c.cursor, v(90, 0));
}

#[test]
fn inset_then_pad_gives_the_rect_back() {
    let r = Rect { min: v(3, -4), max: v(50, 60) };
    let e = Edges::new(1, 2, 3, 4);
    let inner = r.inset(&e);
    assert_eq!(inner, Rect { min: v(4, -1), max: v(48, 56) });
    assert_eq!(inner.pad(&e), r);
    assert_eq!(r.pad(&Edges::even(-2)).inset(&Edges::even(-2)), r);
}

#[test]
fn rect_primitives() {
    let r = Rect::from_size_pos(v(10, 20), v(5, 6));
    assert_eq!(r, Rect { min: v(5, 6), max: v(15, 26) });
    assert_eq!(r.size(), v(10, 20));
    assert_eq!(r.pos(), v(5, 6));
    assert_eq!(r.translate(v(1, -1)), Rect { min: v(6, 5), max: v(16, 25) });
    assert_eq!(r.clamp(v(0, 0), v(8, 30)), Rect { min: v(5, 6), max: v(13, 26) });
    assert_eq!(Rect::from_two_points(v(9, 1), v(2, 7)), Rect { min: v(2, 1), max: v(9, 7) });
    assert_eq!(Edges::new(1, 2, 3, 4).size(), v(3, 7));
    assert_eq!(Edges::even(4), Edges::new(4, 4, 4, 4));
}

#[test]
fn coordinates_saturate() {
    assert_eq!(v(i64::MAX, 0).add(v(1, 0)), v(i64::MAX, 0));
    assert_eq!(v(i64::MIN, 0).sub(v(1, 0)), v(i64::MIN, 0));
}

#[test]
fn align_offsets() {
    assert_eq!(CrossAlign::Start.align_offset(80, 50), 0);
    assert_eq!(CrossAlign::Center.align_offset(80, 50), 15);
    assert_eq!(CrossAlign::End.align_offset(80, 50), 30);
    assert_eq!(CrossAlign::Stretch.align_offset(80, 50), 0);
}

#[test]
fn direction_axes() {
    assert_eq!(Direction::Horizontal.axis(), (Axis::PosX, Axis::PosY));
    assert_eq!(Direction::Vertical.axis(), (Axis::PosY, Axis::PosX));
    assert_eq!(Direction::HorizontalReverse.axis(), (Axis::NegX, Axis::PosY));
    assert_eq!(Direction::VerticalReverse.axis(), (Axis::NegY, Axis::PosX));
}

#[test]
fn relative_lengths_resolve_against_the_parent() {
    let l = Length { absolute: v(5, 0), percent: v(50, 25) };
    assert_eq!(l.resolve(v(200, 40)), v(105, 10));
}

#[test]
fn leaf_offset_and_anchor_move_it() {
    let mut g = SceneGraph::new();
    let mut leaf = sized_leaf(20, 10);
    leaf.offset = Some(Length::percent(50, 50));
    leaf.anchor = Some(Length::percent(50, 50));
    let a = g.add(leaf);
    let r = update_subtree(&mut g, a, area(100, 60), limits(v(100, 60)));
    assert_eq!(r.rect, Rect { min: v(40, 25), max: v(60, 35) });
}

#[test]
fn sizing_pass_reports_minimum_and_preferred() {
    let mut g = SceneGraph::new();
    let mut leaf = sized_leaf(30, 10);
    leaf.min_size = Some(Length::px(40, 5));
    let a = g.add(leaf);
    let b = g.add(sized_leaf(10, 20));
    let c = g.add(flow(Direction::Vertical, CrossAlign::Start, vec![a, b]));
    let q = query_size(&g.nodes, a, area(100, 100));
    assert_eq!(q.min.size(), v(40, 5));
    assert_eq!(q.preferred.size(), v(40, 10));
    let q = query_size(&g.nodes, c, area(100, 100));
    assert_eq!(q.min.size(), v(40, 5));
    assert_eq!(q.preferred.size(), v(40, 30));
}

#[test]
fn vertical_flow_with_padding() {
    let mut g = SceneGraph::new();
    let a = g.add(sized_leaf(30, 10));
    let b = g.add(sized_leaf(10, 20));
    let mut n = flow(Direction::Vertical, CrossAlign::Start, vec![a, b]);
    n.padding = Some(Edges::even(5));
    let c = g.add(n);
    let r = update_subtree(&mut g, c, area(200, 200), limits(v(200, 200)));
    assert_eq!(r.rect.size(), v(40, 40));
    assert_eq!(g.local_position(a), Some(v(5, 5)));
    assert_eq!(g.local_position(b), Some(v(5, 15)));
}

#[test]
fn zero_preferred_total_does_not_divide_by_zero() {
    let mut g = SceneGraph::new();
    let a = g.add(Node::leaf());
    let b = g.add(Node::leaf());
    let c = g.add(flow(Direction::Horizontal, CrossAlign::Start, vec![a, b]));
    let r = update_subtree(&mut g, c, area(100, 100), limits(v(100, 100)));
    assert_eq!(r.rect.size(), v(0, 0));
    assert_eq!(g.rect(a), Some(area(0, 0)));
}

#[test]
fn stack_places_children_over_each_other() {
    let mut g = SceneGraph::new();
    let a = g.add(sized_leaf(30, 10));
    let b = g.add(sized_leaf(10, 20));
    let mut s = Node::leaf();
    s.kind = NodeKind::Stack;
    s.children = vec![a, b];
    let c = g.add(s);
    let r = update_subtree(&mut g, c, area(100, 100), limits(v(100, 100)));
    assert_eq!(g.rect(a), Some(area(30, 10)));
    assert_eq!(g.rect(b), Some(area(10, 20)));
    assert_eq!(r.rect, area(30, 20));
}

#[test]
fn app_lays_out_the_window() {
    let mut app = App::new();
    assert_eq!(app.on_event(WindowEvent::Resized(v(300, 100))), Action::ResizeSurface(v(300, 100)));
    assert_eq!(app.on_event(WindowEvent::FrameDue), Action::RunFrame);
    let (mut g, a, b, c) = two_children(CrossAlign::Start);
    let r = app.layout(&mut g, c);
    assert_eq!(r.rect.size(), v(150, 80));
    assert_eq!(g.local_position(b), Some(v(100, 0)));
    assert_eq!(g.local_position(a), Some(v(0, 0)));
    assert_eq!(app.on_event(WindowEvent::RedrawRequested), Action::Draw);
    assert_eq!(app.on_event(WindowEvent::CloseRequested), Action::Exit);
    assert_eq!(app.on_event(WindowEvent::FrameDue), Action::Exit);
}

#[test]
fn horizontal_reverse_places_from_the_right() {
    let mut g = SceneGraph::new();
    let a = g.add(sized_leaf(100, 50));
    let b = g.add(sized_leaf(50, 80));
    let c = g.add(flow(Direction::HorizontalReverse, CrossAlign::Start, vec![a, b]));
    let r = update_subtree(&mut g, c, area(300, 100), limits(v(300, 100)));
    assert_eq!(r.rect, Rect { min: v(150, 0), max: v(300, 80) });
    assert_eq!(g.local_position(a), Some(v(200, 0)));
    assert_eq!(g.local_position(b), Some(v(150, 0)));
}
