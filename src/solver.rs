use vstd::prelude::*;

use crate::cursor::{cursor_new, finish_spec, masked, put_spec, Block, MarginCursor};
use crate::geometry::{
    along, edges_size, rect_clamp, rect_inset, rect_pad, rect_size, scale, scaled, vadd, vclamp,
    vmax, vmin, vsub, Axis, Edges, Rect, Vec2,
};
use crate::graph::{
    edges_or_zero, nodes_wf, replay, resolve_or_zero, resolved_or_zero, Node, NodeKind,
    Placements, SceneGraph, Write,
};
use crate::layout::{align_offset, direction_axes, CrossAlign, Direction, Layout};
use crate::scalar::{add_sat, div_sat, div_trunc, mul_sat, sat, sub_sat};

verus! {

/// What the sizing pass learns of a node: the smallest rect it tolerates, the
/// rect it would like, and its margin.
#[derive(Clone, Copy, Debug, PartialEq, Eq, Structural)]
pub struct SizeQuery {
    pub min: Rect,
    pub preferred: Rect,
    pub margin: Edges,
}

/// The smallest and the largest size a parent allows a child.
#[derive(Clone, Copy, Debug, PartialEq, Eq, Structural)]
pub struct LayoutLimits {
    pub min: Vec2,
    pub max: Vec2,
}

/// The rect of the same size as `area` with its corner at the origin.
pub open spec fn local_area(area: Rect) -> Rect {
    Rect { min: Vec2 { x: 0, y: 0 }, max: rect_size(area) }
}

pub open spec fn rect_union(a: Rect, b: Rect) -> Rect {
    Rect { min: vmin(a.min, b.min), max: vmax(a.max, b.max) }
}

/// A leaf's minimum size: its `min_size` resolved against the content area.
pub open spec fn leaf_min_size(n: Node, area: Rect) -> Vec2 {
    resolved_or_zero(n.min_size, rect_size(area))
}

/// A leaf's preferred size: its `size`, raised to its minimum size.
pub open spec fn leaf_size(n: Node, area: Rect) -> Vec2 {
    vmax(resolved_or_zero(n.size, rect_size(area)), leaf_min_size(n, area))
}

/// Where a leaf of size `own` goes: the content area's corner, moved by the
/// offset and back by the anchor resolved against the leaf's own size.
pub open spec fn leaf_pos(n: Node, area: Rect, own: Vec2) -> Vec2 {
    vsub(vadd(area.min, resolved_or_zero(n.offset, rect_size(area))), resolved_or_zero(n.anchor, own))
}

pub open spec fn rect_at(pos: Vec2, size: Vec2) -> Rect {
    Rect { min: pos, max: vadd(pos, size) }
}

/// The area in which a stack places each of its children.
pub open spec fn stack_area(area: Rect, padding: Edges) -> Rect {
    rect_inset(local_area(area), padding)
}

/// The sizing pass on node `id` in `area`.
pub open spec fn query_spec(nodes: Seq<Node>, id: int, area: Rect) -> SizeQuery
    decreases id, 3int, 0int,
{
    let n = nodes[id];
    let margin = edges_or_zero(n.margin);
    let padding = edges_or_zero(n.padding);
    match n.kind {
        NodeKind::Flow(lay) => {
            let lines = flow_query_spec(nodes, id, lay, rect_inset(area, padding));
            SizeQuery { min: rect_pad(lines.0, padding), preferred: rect_pad(lines.1, padding), margin }
        },
        NodeKind::Stack => {
            let inner = stack_area(area, padding);
            let u = stack_query_fold(nodes, id, inner, n.children@.len() as int);
            SizeQuery { min: rect_pad(u.0, padding), preferred: rect_pad(u.1, padding), margin }
        },
        NodeKind::Leaf => {
            let min_size = leaf_min_size(n, area);
            let size = leaf_size(n, area);
            SizeQuery {
                min: rect_at(leaf_pos(n, area, min_size), min_size),
                preferred: rect_at(leaf_pos(n, area, size), size),
                margin,
            }
        },
    }
}

/// The union of the minimum and of the preferred rects of the first `k`
/// children of a stack, each sized in `inner`.
pub open spec fn stack_query_fold(nodes: Seq<Node>, id: int, inner: Rect, k: int) -> (Rect, Rect)
    decreases id, 1int, k,
{
    if k <= 0 {
        (Rect { min: inner.min, max: inner.min }, Rect { min: inner.min, max: inner.min })
    } else {
        let u = stack_query_fold(nodes, id, inner, k - 1);
        let ch = nodes[id].children@[k - 1] as int;
        if 0 <= ch < id {
            let q = query_spec(nodes, ch, inner);
            (rect_union(u.0, q.min), rect_union(u.1, q.preferred))
        } else {
            u
        }
    }
}

/// The two cursors of a flow container's sizing pass after its first `k` children.
pub open spec fn flow_query_fold(nodes: Seq<Node>, id: int, lay: Layout, local: Rect, k: int) -> (
    MarginCursor,
    MarginCursor,
)
    decreases id, 1int, k,
{
    let (axis, cross) = direction_axes(lay.direction);
    if k <= 0 {
        (cursor_new(Vec2 { x: 0, y: 0 }, axis, cross), cursor_new(Vec2 { x: 0, y: 0 }, axis, cross))
    } else {
        let c = flow_query_fold(nodes, id, lay, local, k - 1);
        let ch = nodes[id].children@[k - 1] as int;
        if 0 <= ch < id {
            let q = query_spec(nodes, ch, local);
            (
                put_spec(c.0, Block { rect: q.min, margin: q.margin }).0,
                put_spec(c.1, Block { rect: q.preferred, margin: q.margin }).0,
            )
        } else {
            c
        }
    }
}

/// The minimum and the preferred line of a flow container whose content area is `inner`.
pub open spec fn flow_query_spec(nodes: Seq<Node>, id: int, lay: Layout, inner: Rect) -> (Rect, Rect)
    decreases id, 2int, 0int,
{
    let c = flow_query_fold(nodes, id, lay, local_area(inner), nodes[id].children@.len() as int);
    (finish_spec(c.0).1, finish_spec(c.1).1)
}

/// A child's share of the primary axis: its minimum extent, plus the part of
/// the available extent that its stretch (preferred less minimum) bears to
/// the container's total preferred extent; nothing beyond its minimum when that
/// total is zero.
pub open spec fn axis_sizing(q: SizeQuery, axis: Axis, limits: LayoutLimits, total: i64) -> Vec2 {
    let min_size = sat(along(rect_size(q.min), axis));
    let preferred_size = sat(along(rect_size(q.preferred), axis));
    let to_preferred = sat(preferred_size - min_size);
    let share = sat(div_trunc(sat(sat(along(limits.max, axis)) * to_preferred) as int, total as int));
    scaled(axis, sat(min_size + share) as int)
}

/// The limits a flow container hands to its child `ch`, whose size query is `q`.
pub open spec fn child_limits(
    nodes: Seq<Node>,
    ch: int,
    lay: Layout,
    inner: Rect,
    limits: LayoutLimits,
    total: i64,
    q: SizeQuery,
) -> LayoutLimits {
    let (axis, cross) = direction_axes(lay.direction);
    let sizing = axis_sizing(q, axis, limits, total);
    if lay.cross_align == CrossAlign::Stretch {
        let size = vsub(vmin(rect_size(inner), limits.max), edges_size(edges_or_zero(nodes[ch].margin)));
        LayoutLimits { min: masked(size, cross), max: vadd(masked(size, cross), sizing) }
    } else {
        LayoutLimits { min: Vec2 { x: 0, y: 0 }, max: vadd(masked(limits.max, cross), sizing) }
    }
}

/// The corner from which a flow container places its children.
pub open spec fn flow_start(d: Direction, inner: Rect) -> Vec2 {
    match d {
        Direction::Horizontal | Direction::Vertical => inner.min,
        Direction::HorizontalReverse => Vec2 { x: inner.max.x, y: inner.min.y },
        Direction::VerticalReverse => Vec2 { x: inner.min.x, y: inner.max.y },
    }
}

/// Cross-axis extent of a block with its margin.
pub open spec fn block_height(b: Block, cross: Axis) -> i64 {
    sat(along(vadd(rect_size(b.rect), edges_size(b.margin)), cross))
}

/// The placement pass on node `id`: its block, and what it stores, in order.
pub open spec fn subtree_spec(nodes: Seq<Node>, id: int, area: Rect, limits: LayoutLimits) -> (
    Block,
    Seq<Write>,
)
    decreases id, 9int, 0int,
{
    let n = nodes[id];
    let margin = edges_or_zero(n.margin);
    let padding = edges_or_zero(n.padding);
    match n.kind {
        NodeKind::Flow(lay) => {
            let inner_limits = LayoutLimits { min: limits.min, max: vsub(limits.max, edges_size(padding)) };
            let r = apply_spec(nodes, id, lay, rect_inset(area, padding), inner_limits);
            (Block { rect: rect_clamp(rect_pad(r.0, padding), limits.min, limits.max), margin }, r.1)
        },
        NodeKind::Stack => {
            let inner_limits = LayoutLimits {
                min: Vec2 { x: 0, y: 0 },
                max: vsub(limits.max, edges_size(padding)),
            };
            let r = stack_fold(nodes, id, stack_area(area, padding), inner_limits, n.children@.len() as int);
            (Block { rect: rect_clamp(rect_pad(r.0, padding), limits.min, limits.max), margin }, r.1)
        },
        NodeKind::Leaf => {
            let size = vclamp(leaf_size(n, area), limits.min, limits.max);
            (Block { rect: rect_at(leaf_pos(n, area, size), size), margin }, Seq::empty())
        },
    }
}

/// A stack after placing its first `k` children in `inner`: the union of
/// their rects (and of `inner`'s corner), and what was stored.
pub open spec fn stack_fold(nodes: Seq<Node>, id: int, inner: Rect, limits: LayoutLimits, k: int) -> (
    Rect,
    Seq<Write>,
)
    decreases id, 6int, k,
{
    if k <= 0 {
        (Rect { min: inner.min, max: inner.min }, Seq::empty())
    } else {
        let u = stack_fold(nodes, id, inner, limits, k - 1);
        let ch = nodes[id].children@[k - 1] as int;
        if 0 <= ch < id {
            let r = subtree_spec(nodes, ch, inner, limits);
            (rect_union(u.0, r.0.rect), u.1 + r.1.push(Write::Rect(ch as usize, r.0.rect)))
        } else {
            u
        }
    }
}

/// The placement pass on the `j`-th child of flow container `id`.
pub open spec fn child_block(
    nodes: Seq<Node>,
    id: int,
    lay: Layout,
    inner: Rect,
    limits: LayoutLimits,
    total: i64,
    j: int,
) -> (Block, Seq<Write>)
    decreases id, 5int, 0int,
{
    let ch = nodes[id].children@[j] as int;
    if 0 <= ch < id {
        let q = query_spec(nodes, ch, local_area(inner));
        subtree_spec(nodes, ch, local_area(inner), child_limits(nodes, ch, lay, inner, limits, total, q))
    } else {
        (Block { rect: Rect { min: Vec2 { x: 0, y: 0 }, max: Vec2 { x: 0, y: 0 } }, margin: Edges { left: 0, right: 0, top: 0, bottom: 0 } }, Seq::empty())
    }
}

/// The first cursor of a flow container's placement pass after its first `k`
/// children, what their subtrees stored, and their blocks.
pub open spec fn apply_fold(
    nodes: Seq<Node>,
    id: int,
    lay: Layout,
    inner: Rect,
    limits: LayoutLimits,
    total: i64,
    k: int,
) -> (MarginCursor, Seq<Write>, Seq<Block>)
    decreases id, 6int, k,
{
    let (axis, cross) = direction_axes(lay.direction);
    if k <= 0 {
        (cursor_new(Vec2 { x: 0, y: 0 }, axis, cross), Seq::empty(), Seq::empty())
    } else {
        let c = apply_fold(nodes, id, lay, inner, limits, total, k - 1);
        let b = child_block(nodes, id, lay, inner, limits, total, k - 1);
        (put_spec(c.0, b.0).0, c.1 + b.1, c.2.push(b.0))
    }
}

/// The second cursor of a flow container's placement pass after placing the
/// first `k` of `blocks`, the blocks of its children, and the rects and
/// positions stored for them.
pub open spec fn place_fold(
    children: Seq<usize>,
    lay: Layout,
    inner: Rect,
    blocks: Seq<Block>,
    line_cross: i64,
    k: int,
) -> (MarginCursor, Seq<Write>)
    decreases k,
{
    let (axis, cross) = direction_axes(lay.direction);
    if k <= 0 {
        (cursor_new(flow_start(lay.direction, inner), axis, cross), Seq::empty())
    } else {
        let c = place_fold(children, lay, inner, blocks, line_cross, k - 1);
        let b = blocks[k - 1];
        let placed = put_spec(c.0, b);
        let offset = align_offset(lay.cross_align, line_cross, block_height(b, cross));
        let pos = vadd(placed.1, scaled(cross, offset as int));
        let ch = children[k - 1];
        (placed.0, c.1.push(Write::Rect(ch, b.rect)).push(Write::Position(ch, pos)))
    }
}

/// The container's total preferred extent along its primary axis.
pub open spec fn flow_total(nodes: Seq<Node>, id: int, lay: Layout, inner: Rect) -> i64 {
    sat(along(rect_size(flow_query_spec(nodes, id, lay, inner).1), direction_axes(lay.direction).0))
}

/// The placement pass of flow container `id` in `inner`: the rect its
/// children cover, and what it stores, in order.
pub open spec fn apply_spec(nodes: Seq<Node>, id: int, lay: Layout, inner: Rect, limits: LayoutLimits) -> (
    Rect,
    Seq<Write>,
)
    decreases id, 7int, 0int,
{
    let (axis, cross) = direction_axes(lay.direction);
    let n = nodes[id].children@.len() as int;
    let total = flow_total(nodes, id, lay, inner);
    let first = apply_fold(nodes, id, lay, inner, limits, total, n);
    let line = finish_spec(first.0).1;
    let line_cross = sat(along(rect_size(line), cross));
    let second = place_fold(nodes[id].children@, lay, inner, first.2, line_cross, n);
    (finish_spec(second.0).1, first.1 + second.1)
}

fn union_of(a: Rect, b: Rect) -> (r: Rect)
    ensures
        r == rect_union(a, b),
{
    Rect { min: a.min.min(b.min), max: a.max.max(b.max) }
}

fn local_of(area: Rect) -> (r: Rect)
    ensures
        r == local_area(area),
{
    Rect { min: Vec2::zero(), max: area.size() }
}

/// A leaf's minimum and preferred sizes in `area`.
fn resolve_size(n: &Node, area: Rect) -> (r: (Vec2, Vec2))
    ensures
        r == (leaf_min_size(*n, area), leaf_size(*n, area)),
{
    let parent_size = area.size();
    let min_size = resolve_or_zero(&n.min_size, parent_size);
    let size = resolve_or_zero(&n.size, parent_size).max(min_size);
    (min_size, size)
}

/// Where a leaf of size `own` goes in `area`.
fn resolve_pos(n: &Node, area: Rect, own: Vec2) -> (r: Vec2)
    ensures
        r == leaf_pos(*n, area, own),
{
    let offset = resolve_or_zero(&n.offset, area.size());
    area.pos().add(offset).sub(resolve_or_zero(&n.anchor, own))
}

/// The sizing pass: how little room node `id` tolerates in `area`, and how
/// much it would like, with no limits applied.
pub fn query_size(nodes: &Vec<Node>, id: usize, area: Rect) -> (r: SizeQuery)
    requires
        nodes_wf(nodes@),
        id < nodes@.len(),
    ensures
        r == query_spec(nodes@, id as int, area),
    decreases id, 3int, 0int,
{
    let margin = nodes[id].margin();
    let padding = nodes[id].padding();
    match nodes[id].kind {
        NodeKind::Flow(lay) => {
            let (min, preferred, _) = lay.query_size(nodes, id, area.inset(&padding));
            SizeQuery { min: min.pad(&padding), preferred: preferred.pad(&padding), margin }
        },
        NodeKind::Stack => {
            let inner = local_of(area).inset(&padding);
            let mut min_bounds = Rect { min: inner.min, max: inner.min };
            let mut preferred_bounds = min_bounds;
            let n = nodes[id].children.len();
            let mut k: usize = 0;
            while k < n
                invariant
                    nodes_wf(nodes@),
                    id < nodes@.len(),
                    k <= n == nodes@[id as int].children@.len(),
                    inner == stack_area(area, padding),
                    (min_bounds, preferred_bounds) == stack_query_fold(nodes@, id as int, inner, k as int),
                decreases n - k,
            {
                let ch = nodes[id].children[k];
                assert(ch < id);
                let q = query_size(nodes, ch, inner);
                min_bounds = union_of(min_bounds, q.min);
                preferred_bounds = union_of(preferred_bounds, q.preferred);
                k = k + 1;
            }
            SizeQuery { min: min_bounds.pad(&padding), preferred: preferred_bounds.pad(&padding), margin }
        },
        NodeKind::Leaf => {
            let (min_size, size) = resolve_size(&nodes[id], area);
            let min_pos = resolve_pos(&nodes[id], area, min_size);
            let pos = resolve_pos(&nodes[id], area, size);
            SizeQuery {
                min: Rect::from_size_pos(min_size, min_pos),
                preferred: Rect::from_size_pos(size, pos),
                margin,
            }
        },
    }
}

impl Layout {
    /// The sizing pass of flow container `id` whose content area is `inner`:
    /// its minimum line, its preferred line, and the query of each child.
    pub fn query_size(&self, nodes: &Vec<Node>, id: usize, inner: Rect) -> (r: (Rect, Rect, Vec<SizeQuery>))
        requires
            nodes_wf(nodes@),
            id < nodes@.len(),
        ensures
            (r.0, r.1) == flow_query_spec(nodes@, id as int, *self, inner),
            r.2@.len() == nodes@[id as int].children@.len(),
            forall|j: int| 0 <= j < r.2@.len() ==> #[trigger] r.2@[j] == query_spec(nodes@, nodes@[id as int].children@[j] as int, local_area(inner)),
        decreases id, 2int, 0int,
    {
        let (axis, cross_axis) = self.direction.axis();
        let mut min_cursor = MarginCursor::new(Vec2::zero(), axis, cross_axis);
        let mut preferred_cursor = MarginCursor::new(Vec2::zero(), axis, cross_axis);
        let content_area = local_of(inner);
        let mut queries: Vec<SizeQuery> = Vec::new();
        let n = nodes[id].children.len();
        let mut k: usize = 0;
        while k < n
            invariant
                nodes_wf(nodes@),
                id < nodes@.len(),
                k <= n == nodes@[id as int].children@.len(),
                content_area == local_area(inner),
                (min_cursor, preferred_cursor) == flow_query_fold(nodes@, id as int, *self, content_area, k as int),
                queries@.len() == k,
                forall|j: int| 0 <= j < k ==> #[trigger] queries@[j] == query_spec(nodes@, nodes@[id as int].children@[j] as int, content_area),
            decreases n - k,
        {
            let ch = nodes[id].children[k];
            assert(ch < id);
            let q = query_size(nodes, ch, content_area);
            min_cursor.put(&Block::new(q.min, q.margin));
            preferred_cursor.put(&Block::new(q.preferred, q.margin));
            queries.push(q);
            k = k + 1;
        }
        (min_cursor.finish(), preferred_cursor.finish(), queries)
    }
}

fn masked_of(v: Vec2, a: Axis) -> (r: Vec2)
    requires
        a == Axis::PosX || a == Axis::PosY,
    ensures
        r == masked(v, a),
{
    match a {
        Axis::PosX => Vec2 { x: v.x, y: 0 },
        _ => Vec2 { x: 0, y: v.y },
    }
}

fn axis_share(q: &SizeQuery, axis: Axis, limits: LayoutLimits, total: i64) -> (r: Vec2)
    ensures
        r == axis_sizing(*q, axis, limits, total),
{
    let min_size = q.min.size().along(axis);
    let preferred_size = q.preferred.size().along(axis);
    let to_preferred = sub_sat(preferred_size, min_size);
    let share = div_sat(mul_sat(limits.max.along(axis), to_preferred), total);
    scale(axis, add_sat(min_size, share))
}

fn limits_for_child(
    nodes: &Vec<Node>,
    ch: usize,
    lay: Layout,
    inner: Rect,
    limits: LayoutLimits,
    total: i64,
    q: &SizeQuery,
) -> (r: LayoutLimits)
    requires
        ch < nodes@.len(),
    ensures
        r == child_limits(nodes@, ch as int, lay, inner, limits, total, *q),
{
    let (axis, cross_axis) = lay.direction.axis();
    let sizing = axis_share(q, axis, limits, total);
    match lay.cross_align {
        CrossAlign::Stretch => {
            let size = inner.size().min(limits.max).sub(nodes[ch].margin().size());
            LayoutLimits { min: masked_of(size, cross_axis), max: masked_of(size, cross_axis).add(sizing) }
        },
        _ => LayoutLimits { min: Vec2::zero(), max: masked_of(limits.max, cross_axis).add(sizing) },
    }
}

fn start_corner(d: Direction, inner: Rect) -> (r: Vec2)
    ensures
        r == flow_start(d, inner),
{
    match d {
        Direction::Horizontal | Direction::Vertical => inner.min,
        Direction::HorizontalReverse => Vec2 { x: inner.max.x, y: inner.min.y },
        Direction::VerticalReverse => Vec2 { x: inner.min.x, y: inner.max.y },
    }
}

proof fn lemma_apply_fold_len(
    nodes: Seq<Node>,
    id: int,
    lay: Layout,
    inner: Rect,
    limits: LayoutLimits,
    total: i64,
    k: int,
)
    requires
        k >= 0,
    ensures
        apply_fold(nodes, id, lay, inner, limits, total, k).2.len() == k,
    decreases k,
{
    if k > 0 {
        lemma_apply_fold_len(nodes, id, lay, inner, limits, total, k - 1);
    }
}

/// One step of the first placement loop, stated over the child's own pass.
proof fn lemma_apply_step(
    nodes: Seq<Node>,
    id: int,
    lay: Layout,
    inner: Rect,
    limits: LayoutLimits,
    total: i64,
    k: int,
    o0: crate::graph::Outputs,
    cur: crate::graph::Outputs,
)
    requires
        nodes_wf(nodes),
        0 <= id < nodes.len(),
        0 <= k < nodes[id].children@.len(),
        cur == replay(o0, apply_fold(nodes, id, lay, inner, limits, total, k).1),
    ensures
        ({
            let ch = nodes[id].children@[k] as int;
            let c = apply_fold(nodes, id, lay, inner, limits, total, k);
            let next = apply_fold(nodes, id, lay, inner, limits, total, k + 1);
            let q = query_spec(nodes, ch, local_area(inner));
            let sub = subtree_spec(nodes, ch, local_area(inner), child_limits(nodes, ch, lay, inner, limits, total, q));
            &&& next.0 == put_spec(c.0, sub.0).0
            &&& next.2 == c.2.push(sub.0)
            &&& replay(o0, next.1) == replay(cur, sub.1)
        }),
{
    let ch = nodes[id].children@[k] as int;
    assert(ch < id);
    let c = apply_fold(nodes, id, lay, inner, limits, total, k);
    let cb = child_block(nodes, id, lay, inner, limits, total, k);
    crate::graph::lemma_replay_concat(o0, c.1, cb.1);
}

/// One step of the second placement loop, stated over the cursor it moves
/// and the two values it stores.
proof fn lemma_place_step(
    children: Seq<usize>,
    lay: Layout,
    inner: Rect,
    blocks: Seq<Block>,
    line_cross: i64,
    k: int,
    o1: crate::graph::Outputs,
    cur: crate::graph::Outputs,
)
    requires
        0 <= k,
        cur == replay(o1, place_fold(children, lay, inner, blocks, line_cross, k).1),
    ensures
        ({
            let c = place_fold(children, lay, inner, blocks, line_cross, k);
            let next = place_fold(children, lay, inner, blocks, line_cross, k + 1);
            let b = blocks[k];
            let cross = direction_axes(lay.direction).1;
            let placed = put_spec(c.0, b);
            let offset = align_offset(lay.cross_align, line_cross, block_height(b, cross));
            let pos = vadd(placed.1, scaled(cross, offset as int));
            let ch = children[k];
            &&& next.0 == placed.0
            &&& crate::graph::apply_write(crate::graph::apply_write(cur, Write::Rect(ch, b.rect)), Write::Position(ch, pos))
                == replay(o1, next.1)
        }),
{
    let c = place_fold(children, lay, inner, blocks, line_cross, k);
    let next = place_fold(children, lay, inner, blocks, line_cross, k + 1);
    let b = blocks[k];
    let cross = direction_axes(lay.direction).1;
    let placed = put_spec(c.0, b);
    let offset = align_offset(lay.cross_align, line_cross, block_height(b, cross));
    let pos = vadd(placed.1, scaled(cross, offset as int));
    let ch = children[k];
    let w1 = Write::Rect(ch, b.rect);
    let w2 = Write::Position(ch, pos);
    assert(next.1 == c.1.push(w1).push(w2));
    lemma_replay_push2(o1, c.1, w1, w2);
}

proof fn lemma_replay_push2(o: crate::graph::Outputs, a: Seq<Write>, w1: Write, w2: Write)
    ensures
        replay(o, a.push(w1).push(w2)) == crate::graph::apply_write(crate::graph::apply_write(replay(o, a), w1), w2),
{
    assert(a.push(w1).drop_last() =~= a);
    assert(a.push(w1).push(w2).drop_last() =~= a.push(w1));
    assert(replay(o, a.push(w1)) == crate::graph::apply_write(replay(o, a), w1));
    assert(replay(o, a.push(w1).push(w2)) == crate::graph::apply_write(replay(o, a.push(w1)), w2));
}

proof fn lemma_replay_push(o: crate::graph::Outputs, a: Seq<Write>, b: Seq<Write>, w: Write)
    ensures
        crate::graph::apply_write(replay(replay(o, a), b), w) == replay(o, a + b.push(w)),
{
    crate::graph::lemma_replay_concat(o, a, b);
    assert((a + b.push(w)).drop_last() =~= a + b);
    assert((a + b.push(w)).last() == w);
}

/// The second loop of a flow container's placement pass: places each child's
/// block, aligned across the line, and stores its rect and position.
fn place_children(
    lay: Layout,
    nodes: &Vec<Node>,
    placed: &mut Placements,
    id: usize,
    inner: Rect,
    blocks: &Vec<Block>,
    line_cross: i64,
) -> (r: Rect)
    requires
        nodes_wf(nodes@),
        id < nodes@.len(),
        blocks@.len() == nodes@[id as int].children@.len(),
        old(placed).rects@.len() == nodes@.len(),
        old(placed).positions@.len() == nodes@.len(),
    ensures
        ({
            let p = place_fold(nodes@[id as int].children@, lay, inner, blocks@, line_cross, blocks@.len() as int);
            &&& r == finish_spec(p.0).1
            &&& final(placed).outputs() == replay(old(placed).outputs(), p.1)
        }),
        final(placed).rects@.len() == nodes@.len(),
        final(placed).positions@.len() == nodes@.len(),
{
    let (axis, cross_axis) = lay.direction.axis();
    let mut cursor = MarginCursor::new(start_corner(lay.direction, inner), axis, cross_axis);
    let ghost o1 = placed.outputs();
    let ghost children = nodes@[id as int].children@;
    let n = blocks.len();
    let mut k: usize = 0;
    while k < n
        invariant
            nodes_wf(nodes@),
            id < nodes@.len(),
            k <= n == blocks@.len() == children.len(),
            (axis, cross_axis) == direction_axes(lay.direction),
            children == nodes@[id as int].children@,
            cursor == place_fold(children, lay, inner, blocks@, line_cross, k as int).0,
            placed.outputs() == replay(o1, place_fold(children, lay, inner, blocks@, line_cross, k as int).1),
            placed.rects@.len() == nodes@.len(),
            placed.positions@.len() == nodes@.len(),
        decreases n - k,
    {
        let ch = nodes[id].children[k];
        assert(ch < id);
        let b = blocks[k];
        proof {
            lemma_place_step(children, lay, inner, blocks@, line_cross, k as int, o1, placed.outputs());
        }
        let height = b.rect.size().add(b.margin.size()).along(cross_axis);
        let pos = cursor.put(&b).add(scale(cross_axis, lay.cross_align.align_offset(line_cross, height)));
        placed.set_rect(ch, b.rect);
        placed.set_position(ch, pos);
        k = k + 1;
    }
    cursor.finish()
}

/// The placement pass on node `id` of `nodes`, storing into `placed`.
fn update_node(
    nodes: &Vec<Node>,
    placed: &mut Placements,
    id: usize,
    area: Rect,
    limits: LayoutLimits,
) -> (r: Block)
    requires
        nodes_wf(nodes@),
        id < nodes@.len(),
        old(placed).rects@.len() == nodes@.len(),
        old(placed).positions@.len() == nodes@.len(),
    ensures
        r == subtree_spec(nodes@, id as int, area, limits).0,
        final(placed).outputs() == replay(old(placed).outputs(), subtree_spec(nodes@, id as int, area, limits).1),
        final(placed).rects@.len() == nodes@.len(),
        final(placed).positions@.len() == nodes@.len(),
    decreases id, 9int, 0int,
{
    let margin = nodes[id].margin();
    let padding = nodes[id].padding();
    match nodes[id].kind {
        NodeKind::Flow(lay) => {
            let inner_limits = LayoutLimits { min: limits.min, max: limits.max.sub(padding.size()) };
            let rect = lay.apply(nodes, placed, id, area.inset(&padding), inner_limits);
            Block { rect: rect.pad(&padding).clamp(limits.min, limits.max), margin }
        },
        NodeKind::Stack => {
            let inner_limits = LayoutLimits { min: Vec2::zero(), max: limits.max.sub(padding.size()) };
            let inner = local_of(area).inset(&padding);
            let mut bounds = Rect { min: inner.min, max: inner.min };
            let ghost o0 = placed.outputs();
            let n = nodes[id].children.len();
            let mut k: usize = 0;
            while k < n
                invariant
                    nodes_wf(nodes@),
                    id < nodes@.len(),
                    k <= n == nodes@[id as int].children@.len(),
                    inner == stack_area(area, padding),
                    inner_limits.min == (Vec2 { x: 0, y: 0 }),
                    inner_limits.max == vsub(limits.max, edges_size(padding)),
                    bounds == stack_fold(nodes@, id as int, inner, inner_limits, k as int).0,
                    placed.outputs() == replay(o0, stack_fold(nodes@, id as int, inner, inner_limits, k as int).1),
                    placed.rects@.len() == nodes@.len(),
                    placed.positions@.len() == nodes@.len(),
                decreases n - k,
            {
                let ch = nodes[id].children[k];
                assert(ch < id);
                let ghost before = placed.outputs();
                let b = update_node(nodes, placed, ch, inner, inner_limits);
                bounds = union_of(bounds, b.rect);
                placed.set_rect(ch, b.rect);
                proof {
                    let prev = stack_fold(nodes@, id as int, inner, inner_limits, k as int).1;
                    let sub = subtree_spec(nodes@, ch as int, inner, inner_limits).1;
                    lemma_replay_push(o0, prev, sub, Write::Rect(ch, b.rect));
                    assert(prev + sub.push(Write::Rect(ch, b.rect)) == stack_fold(
                        nodes@,
                        id as int,
                        inner,
                        inner_limits,
                        k + 1,
                    ).1);
                }
                k = k + 1;
            }
            Block { rect: bounds.pad(&padding).clamp(limits.min, limits.max), margin }
        },
        NodeKind::Leaf => {
            let (_, size) = resolve_size(&nodes[id], area);
            let size = size.clamp(limits.min, limits.max);
            let pos = resolve_pos(&nodes[id], area, size);
            proof {
                assert(placed.outputs() == replay(placed.outputs(), Seq::<Write>::empty()));
            }
            Block { rect: Rect::from_size_pos(size, pos), margin }
        },
    }
}

/// The placement pass: lays out the subtree of `node` in `content_area`
/// within `limits`, stores each child's rect and position in the graph, and
/// returns the node's own block.
pub fn update_subtree(graph: &mut SceneGraph, node: usize, content_area: Rect, limits: LayoutLimits) -> (r: Block)
    requires
        old(graph).wf(),
        node < old(graph).nodes@.len(),
    ensures
        final(graph).wf(),
        final(graph).nodes@ == old(graph).nodes@,
        r == subtree_spec(old(graph).nodes@, node as int, content_area, limits).0,
        final(graph).placed.outputs() == replay(
            old(graph).placed.outputs(),
            subtree_spec(old(graph).nodes@, node as int, content_area, limits).1,
        ),
{
    update_node(&graph.nodes, &mut graph.placed, node, content_area, limits)
}

impl Layout {
    /// The placement pass of flow container `id` whose content area is
    /// `inner`: sizes and places each child, stores their rects and
    /// positions, and returns the rect that the children cover.
    pub fn apply(
        &self,
        nodes: &Vec<Node>,
        placed: &mut Placements,
        id: usize,
        inner: Rect,
        limits: LayoutLimits,
    ) -> (r: Rect)
        requires
            nodes_wf(nodes@),
            id < nodes@.len(),
            old(placed).rects@.len() == nodes@.len(),
            old(placed).positions@.len() == nodes@.len(),
        ensures
            r == apply_spec(nodes@, id as int, *self, inner, limits).0,
            final(placed).outputs() == replay(old(placed).outputs(), apply_spec(nodes@, id as int, *self, inner, limits).1),
            final(placed).rects@.len() == nodes@.len(),
            final(placed).positions@.len() == nodes@.len(),
        decreases id, 7int, 0int,
    {
        let lay = *self;
        let (axis, cross_axis) = self.direction.axis();
        let (_, preferred, queries) = self.query_size(nodes, id, inner);
        let total = preferred.size().along(axis);
        let content_area = local_of(inner);
        let mut cursor = MarginCursor::new(Vec2::zero(), axis, cross_axis);
        let mut blocks: Vec<Block> = Vec::new();
        let ghost o0 = placed.outputs();
        let n = nodes[id].children.len();
        let mut k: usize = 0;
        while k < n
            invariant
                nodes_wf(nodes@),
                id < nodes@.len(),
                k <= n == nodes@[id as int].children@.len(),
                lay == *self,
                (axis, cross_axis) == direction_axes(lay.direction),
                content_area == local_area(inner),
                total == flow_total(nodes@, id as int, lay, inner),
                queries@.len() == n,
                forall|j: int| 0 <= j < n ==> #[trigger] queries@[j] == query_spec(nodes@, nodes@[id as int].children@[j] as int, content_area),
                cursor == apply_fold(nodes@, id as int, lay, inner, limits, total, k as int).0,
                placed.outputs() == replay(o0, apply_fold(nodes@, id as int, lay, inner, limits, total, k as int).1),
                blocks@ == apply_fold(nodes@, id as int, lay, inner, limits, total, k as int).2,
                placed.rects@.len() == nodes@.len(),
                placed.positions@.len() == nodes@.len(),
            decreases n - k,
        {
            let ch = nodes[id].children[k];
            assert(ch < id);
            let child_limits = limits_for_child(nodes, ch, lay, inner, limits, total, &queries[k]);
            proof {
                lemma_apply_step(nodes@, id as int, lay, inner, limits, total, k as int, o0, placed.outputs());
            }
            let b = update_node(nodes, placed, ch, content_area, child_limits);
            cursor.put(&b);
            blocks.push(b);
            k = k + 1;
        }
        let line = cursor.finish();
        let line_cross = line.size().along(cross_axis);
        let ghost o1 = placed.outputs();
        let ghost first = apply_fold(nodes@, id as int, lay, inner, limits, total, n as int).1;
        proof {
            lemma_apply_fold_len(nodes@, id as int, lay, inner, limits, total, n as int);
        }
        let r = place_children(lay, nodes, placed, id, inner, &blocks, line_cross);
        proof {
            crate::graph::lemma_replay_concat(
                o0,
                first,
                place_fold(nodes@[id as int].children@, lay, inner, blocks@, line_cross, n as int).1,
            );
        }
        r
    }
}

} // verus!
