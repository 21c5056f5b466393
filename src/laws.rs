use vstd::prelude::*;

use crate::cursor::{collapsed_gap, neg_axis, put_spec, Block, MarginCursor};
use crate::geometry::{
    along, edges_in_axis, edges_size, rect_inset, rect_pad, rect_size, support, vadd, vclamp,
    vmin, vsub, Axis, Edges, Rect,
};
use crate::graph::{edges_or_zero, nodes_wf, replay, Node, NodeKind, Outputs, Write};
use crate::layout::{CrossAlign, Direction, Layout};
use crate::scalar::max_i;
use crate::solver::{
    apply_spec, child_block, child_limits, leaf_size, local_area, query_spec, stack_area,
    stack_fold, subtree_spec, LayoutLimits,
};

verus! {

/// The rect last written to node `i` in `ws`, if any.
pub open spec fn last_rect(ws: Seq<Write>, i: int) -> Option<Rect>
    decreases ws.len(),
{
    if ws.len() == 0 {
        None
    } else {
        match ws.last() {
            Write::Rect(j, r) if j as int == i => Some(r),
            _ => last_rect(ws.drop_last(), i),
        }
    }
}

/// The position last written to node `i` in `ws`, if any.
pub open spec fn last_position(ws: Seq<Write>, i: int) -> Option<crate::geometry::Vec2>
    decreases ws.len(),
{
    if ws.len() == 0 {
        None
    } else {
        match ws.last() {
            Write::Position(j, p) if j as int == i => Some(p),
            _ => last_position(ws.drop_last(), i),
        }
    }
}

proof fn lemma_replay_pointwise(o: Outputs, ws: Seq<Write>)
    ensures
        replay(o, ws).rects.len() == o.rects.len(),
        replay(o, ws).positions.len() == o.positions.len(),
        forall|i: int| 0 <= i < o.rects.len() ==> #[trigger] replay(o, ws).rects[i] == match last_rect(ws, i) {
            Some(r) => Some(r),
            None => o.rects[i],
        },
        forall|i: int| 0 <= i < o.positions.len() ==> #[trigger] replay(o, ws).positions[i] == match last_position(ws, i) {
            Some(p) => Some(p),
            None => o.positions[i],
        },
    decreases ws.len(),
{
    if ws.len() > 0 {
        lemma_replay_pointwise(o, ws.drop_last());
    }
}

/// Storing the same sequence of values twice leaves what storing it once left.
pub proof fn lemma_replay_idempotent(o: Outputs, ws: Seq<Write>)
    ensures
        replay(replay(o, ws), ws) == replay(o, ws),
{
    let once = replay(o, ws);
    let twice = replay(once, ws);
    lemma_replay_pointwise(o, ws);
    lemma_replay_pointwise(once, ws);
    assert(twice.rects =~= once.rects);
    assert(twice.positions =~= once.positions);
}

/// Whether storing `w` in `o` changes what `o` holds: the change-suppressing
/// store writes only then.
pub open spec fn fires(o: Outputs, w: Write) -> bool {
    match w {
        Write::Rect(i, r) => i < o.rects.len() && o.rects[i as int] != Some(r),
        Write::Position(i, p) => i < o.positions.len() && o.positions[i as int] != Some(p),
    }
}

/// How many of the stores of `ws`, made in order from `o`, change something.
pub open spec fn fire_count(o: Outputs, ws: Seq<Write>) -> nat
    decreases ws.len(),
{
    if ws.len() == 0 {
        0
    } else {
        fire_count(o, ws.drop_last()) + if fires(replay(o, ws.drop_last()), ws.last()) {
            1nat
        } else {
            0nat
        }
    }
}

pub open spec fn same_target(a: Write, b: Write) -> bool {
    match (a, b) {
        (Write::Rect(i, _), Write::Rect(j, _)) => i == j,
        (Write::Position(i, _), Write::Position(j, _)) => i == j,
        _ => false,
    }
}

/// No value of a node is stored twice in `ws`: true of a pass over a tree,
/// where each node has one parent.
pub open spec fn distinct_targets(ws: Seq<Write>) -> bool {
    forall|a: int, b: int| 0 <= a < b < ws.len() ==> !#[trigger] same_target(ws[a], ws[b])
}

proof fn lemma_last_is_unique(ws: Seq<Write>, k: int)
    requires
        distinct_targets(ws),
        0 <= k < ws.len(),
    ensures
        match ws[k] {
            Write::Rect(i, r) => last_rect(ws, i as int) == Some(r),
            Write::Position(i, p) => last_position(ws, i as int) == Some(p),
        },
    decreases ws.len(),
{
    if k < ws.len() - 1 {
        let rest = ws.drop_last();
        assert(!same_target(ws[k], ws[ws.len() - 1]));
        assert(distinct_targets(rest)) by {
            assert forall|a: int, b: int| 0 <= a < b < rest.len() implies !#[trigger] same_target(rest[a], rest[b]) by {
                assert(same_target(ws[a], ws[b]) == same_target(rest[a], rest[b]));
            }
        }
        lemma_last_is_unique(rest, k);
        assert(rest[k] == ws[k]);
    }
}

proof fn lemma_not_written(ws: Seq<Write>, w: Write)
    requires
        forall|k: int| 0 <= k < ws.len() ==> !#[trigger] same_target(ws[k], w),
    ensures
        match w {
            Write::Rect(i, _) => last_rect(ws, i as int) == None::<Rect>,
            Write::Position(i, _) => last_position(ws, i as int) == None::<crate::geometry::Vec2>,
        },
    decreases ws.len(),
{
    if ws.len() > 0 {
        let rest = ws.drop_last();
        assert forall|k: int| 0 <= k < rest.len() implies !#[trigger] same_target(rest[k], w) by {
            assert(rest[k] == ws[k]);
        }
        assert(!same_target(ws[ws.len() - 1], w));
        lemma_not_written(rest, w);
    }
}

/// From a state that already holds every value of `ws`, storing `ws` again
/// changes nothing at any step.
proof fn lemma_no_fire(s: Outputs, ws: Seq<Write>)
    requires
        distinct_targets(ws),
        forall|k: int| 0 <= k < ws.len() ==> !#[trigger] fires(s, ws[k]),
    ensures
        fire_count(s, ws) == 0,
    decreases ws.len(),
{
    if ws.len() > 0 {
        let rest = ws.drop_last();
        let w = ws.last();
        assert(distinct_targets(rest)) by {
            assert forall|a: int, b: int| 0 <= a < b < rest.len() implies !#[trigger] same_target(rest[a], rest[b]) by {
                assert(same_target(ws[a], ws[b]) == same_target(rest[a], rest[b]));
            }
        }
        assert forall|k: int| 0 <= k < rest.len() implies !#[trigger] fires(s, rest[k]) by {
            assert(rest[k] == ws[k]);
        }
        lemma_no_fire(s, rest);
        assert forall|k: int| 0 <= k < rest.len() implies !#[trigger] same_target(rest[k], w) by {
            assert(rest[k] == ws[k]);
            assert(!same_target(ws[k], ws[ws.len() - 1]));
        }
        lemma_not_written(rest, w);
        lemma_replay_pointwise(s, rest);
        assert(!fires(s, ws[ws.len() - 1]));
    }
}

/// A second placement pass over an unchanged graph returns the same block
/// and leaves every stored rect and position as the first pass left it;
/// where the pass stores no node's value twice (a tree, where each node has
/// one parent), none of its change-suppressing stores writes anything.
pub proof fn lemma_update_idempotent(
    nodes: Seq<Node>,
    o: Outputs,
    id: int,
    area: Rect,
    limits: LayoutLimits,
)
    ensures
        ({
            let pass = subtree_spec(nodes, id, area, limits);
            &&& replay(replay(o, pass.1), pass.1) == replay(o, pass.1)
            &&& distinct_targets(pass.1) ==> fire_count(replay(o, pass.1), pass.1) == 0
        }),
{
    let ws = subtree_spec(nodes, id, area, limits).1;
    lemma_replay_idempotent(o, ws);
    if distinct_targets(ws) {
        let once = replay(o, ws);
        lemma_replay_pointwise(o, ws);
        assert forall|k: int| 0 <= k < ws.len() implies !#[trigger] fires(once, ws[k]) by {
            lemma_last_is_unique(ws, k);
        }
        lemma_no_fire(once, ws);
    }
}

pub open spec fn is_horizontal(a: Axis) -> bool {
    a == Axis::PosX || a == Axis::NegX
}

/// Far enough from the ends of the coordinate range that a few sums of such
/// values never saturate.
pub open spec fn moderate(v: int) -> bool {
    -0x1000_0000_0000_0000 <= v <= 0x1000_0000_0000_0000
}

pub open spec fn moderate_rect(r: Rect) -> bool {
    moderate(r.min.x as int) && moderate(r.min.y as int) && moderate(r.max.x as int) && moderate(r.max.y as int)
}

pub open spec fn moderate_edges(e: Edges) -> bool {
    moderate(e.left as int) && moderate(e.right as int) && moderate(e.top as int) && moderate(e.bottom as int)
}

pub open spec fn within(v: int, bound: int) -> bool {
    -bound <= v <= bound
}

/// Along the axis, `put` lands a block at the cursor moved by the collapsed
/// gap, and leaves the cursor at the block's far edge.
proof fn lemma_put_along(c: MarginCursor, b: Block)
    requires
        is_horizontal(c.axis) != is_horizontal(c.cross_axis),
        within(c.cursor.x as int, 0x4000_0000_0000_0000),
        within(c.cursor.y as int, 0x4000_0000_0000_0000),
        moderate(c.pending_margin as int),
        moderate_rect(b.rect),
        moderate_edges(b.margin),
    ensures
        ({
            let (front, back) = edges_in_axis(b.margin, c.axis);
            let r = put_spec(c, b);
            &&& along(r.1, c.axis) == along(c.cursor, c.axis) + collapsed_gap(c.pending_margin as int, back as int)
                + support(b.rect, neg_axis(c.axis))
            &&& along(r.0.cursor, c.axis) == along(r.1, c.axis) + support(b.rect, c.axis)
            &&& r.0.pending_margin == front
            &&& r.0.axis == c.axis && r.0.cross_axis == c.cross_axis
            &&& (is_horizontal(c.axis) ==> r.0.cursor.y == c.cursor.y)
            &&& (!is_horizontal(c.axis) ==> r.0.cursor.x == c.cursor.x)
        }),
{
    let (front, back) = edges_in_axis(b.margin, c.axis);
    let gap = collapsed_gap(c.pending_margin as int, back as int);
    assert(0 <= gap <= 0x2000_0000_0000_0000);
}

/// Two neighbouring blocks with non-negative facing margins `m1` (after the
/// first) and `m2` (before the second) are set `max(m1, m2)` apart along the
/// axis: the margins collapse into the larger one.
pub proof fn lemma_margin_collapse(c: MarginCursor, b1: Block, b2: Block)
    requires
        is_horizontal(c.axis) != is_horizontal(c.cross_axis),
        edges_in_axis(b1.margin, c.axis).0 >= 0,
        edges_in_axis(b2.margin, c.axis).1 >= 0,
        moderate(c.cursor.x as int),
        moderate(c.cursor.y as int),
        moderate(c.pending_margin as int),
        moderate_rect(b1.rect),
        moderate_rect(b2.rect),
        moderate_edges(b1.margin),
        moderate_edges(b2.margin),
    ensures
        ({
            let first = put_spec(c, b1);
            let second = put_spec(first.0, b2);
            let trailing_edge_of_first = along(first.1, c.axis) + support(b1.rect, c.axis);
            let leading_edge_of_second = along(second.1, c.axis) - support(b2.rect, neg_axis(c.axis));
            leading_edge_of_second - trailing_edge_of_first == max_i(
                edges_in_axis(b1.margin, c.axis).0 as int,
                edges_in_axis(b2.margin, c.axis).1 as int,
            )
        }),
{
    let first = put_spec(c, b1);
    lemma_put_along(c, b1);
    let c1 = first.0;
    assert(within(c1.cursor.x as int, 0x4000_0000_0000_0000));
    assert(within(c1.cursor.y as int, 0x4000_0000_0000_0000));
    lemma_put_along(c1, b2);
}

/// Insetting a rect by some edges and padding it by the same edges gives the
/// rect back.
pub proof fn lemma_inset_pad_round_trip(r: Rect, e: Edges)
    requires
        moderate_rect(r),
        moderate_edges(e),
    ensures
        rect_pad(rect_inset(r, e), e) == r,
{
}


/// The size a node's placement pass reaches before it is clamped into its limits.
pub open spec fn unclamped_size(nodes: Seq<Node>, id: int, area: Rect, limits: LayoutLimits) -> crate::geometry::Vec2 {
    let n = nodes[id];
    let padding = edges_or_zero(n.padding);
    match n.kind {
        NodeKind::Flow(lay) => {
            let inner_limits = LayoutLimits { min: limits.min, max: vsub(limits.max, edges_size(padding)) };
            rect_size(rect_pad(apply_spec(nodes, id, lay, rect_inset(area, padding), inner_limits).0, padding))
        },
        NodeKind::Stack => {
            let inner_limits = LayoutLimits {
                min: crate::geometry::Vec2 { x: 0, y: 0 },
                max: vsub(limits.max, edges_size(padding)),
            };
            rect_size(rect_pad(stack_fold(nodes, id, stack_area(area, padding), inner_limits, n.children@.len() as int).0, padding))
        },
        NodeKind::Leaf => leaf_size(n, area),
    }
}

/// A node's block spans, from its corner, its unclamped size clamped into its limits.
pub proof fn lemma_subtree_shape(nodes: Seq<Node>, id: int, area: Rect, limits: LayoutLimits)
    ensures
        ({
            let r = subtree_spec(nodes, id, area, limits).0.rect;
            r.max == vadd(r.min, vclamp(unclamped_size(nodes, id, area, limits), limits.min, limits.max))
        }),
{
}

/// Whenever the limits are ordered and the block's corner moved by them stays
/// within the coordinate range, the size of a node's block lies within its limits.
pub proof fn lemma_clamp_containment(nodes: Seq<Node>, id: int, area: Rect, limits: LayoutLimits)
    requires
        limits.min.x <= limits.max.x,
        limits.min.y <= limits.max.y,
        ({
            let m = subtree_spec(nodes, id, area, limits).0.rect.min;
            &&& i64::MIN <= m.x + limits.min.x
            &&& m.x + limits.max.x <= i64::MAX
            &&& i64::MIN <= m.y + limits.min.y
            &&& m.y + limits.max.y <= i64::MAX
        }),
    ensures
        ({
            let s = rect_size(subtree_spec(nodes, id, area, limits).0.rect);
            &&& limits.min.x <= s.x <= limits.max.x
            &&& limits.min.y <= s.y <= limits.max.y
        }),
{
    lemma_subtree_shape(nodes, id, area, limits);
}

/// The cross extent that a stretching horizontal flow container gives child
/// `ch`: the smaller of its content height and its available height, less the
/// child's own vertical margins.
pub open spec fn stretch_height(nodes: Seq<Node>, ch: int, inner: Rect, limits: LayoutLimits) -> i64 {
    vsub(vmin(rect_size(inner), limits.max), edges_size(edges_or_zero(nodes[ch].margin))).y
}

/// In a horizontal flow container that stretches its children, the block of
/// each child (the rect stored for it) is exactly as tall as the container's
/// inner cross extent less that child's margins, whenever its corner moved by
/// that height stays within the coordinate range.
pub proof fn lemma_stretch_fills_cross(
    nodes: Seq<Node>,
    id: int,
    lay: Layout,
    inner: Rect,
    limits: LayoutLimits,
    total: i64,
    j: int,
)
    requires
        nodes_wf(nodes),
        0 <= id < nodes.len(),
        0 <= j < nodes[id].children@.len(),
        lay.direction == Direction::Horizontal,
        lay.cross_align == CrossAlign::Stretch,
        ({
            let want = stretch_height(nodes, nodes[id].children@[j] as int, inner, limits);
            let m = child_block(nodes, id, lay, inner, limits, total, j).0.rect.min;
            i64::MIN <= m.y + want <= i64::MAX
        }),
    ensures
        rect_size(child_block(nodes, id, lay, inner, limits, total, j).0.rect).y == stretch_height(
            nodes,
            nodes[id].children@[j] as int,
            inner,
            limits,
        ),
{
    let ch = nodes[id].children@[j] as int;
    assert(ch < id);
    let q = query_spec(nodes, ch, local_area(inner));
    let cl = child_limits(nodes, ch, lay, inner, limits, total, q);
    assert(cl.min.y == stretch_height(nodes, ch, inner, limits));
    assert(cl.max.y == stretch_height(nodes, ch, inner, limits));
    lemma_subtree_shape(nodes, ch, local_area(inner), cl);
}

} // verus!
