use vstd::prelude::*;

use crate::geometry::{Edges, Rect, Vec2};
use crate::layout::Layout;
use crate::scalar::{add_sat, div_sat, div_trunc, mul_sat, sat};

verus! {

/// A length that resolves against the extent of its parent: an absolute part
/// plus a part given in hundredths of the parent extent.
#[derive(Clone, Copy, Debug, PartialEq, Eq, Structural)]
pub struct Length {
    pub absolute: Vec2,
    pub percent: Vec2,
}

pub open spec fn resolve_part(abs: i64, pct: i64, parent: i64) -> i64 {
    sat(abs + sat(div_trunc(sat(parent * pct) as int, 100)))
}

pub open spec fn length_resolve(l: Length, parent: Vec2) -> Vec2 {
    Vec2 {
        x: resolve_part(l.absolute.x, l.percent.x, parent.x),
        y: resolve_part(l.absolute.y, l.percent.y, parent.y),
    }
}

/// An absent length resolves to zero.
pub open spec fn resolved_or_zero(l: Option<Length>, parent: Vec2) -> Vec2 {
    match l {
        Some(l) => length_resolve(l, parent),
        None => Vec2 { x: 0, y: 0 },
    }
}

fn resolve_component(abs: i64, pct: i64, parent: i64) -> (r: i64)
    ensures
        r == resolve_part(abs, pct, parent),
{
    add_sat(abs, div_sat(mul_sat(parent, pct), 100))
}

impl Length {
    pub fn px(x: i64, y: i64) -> (r: Length)
        ensures
            r == (Length { absolute: Vec2 { x, y }, percent: Vec2 { x: 0, y: 0 } }),
    {
        Length { absolute: Vec2 { x, y }, percent: Vec2 { x: 0, y: 0 } }
    }

    pub fn percent(x: i64, y: i64) -> (r: Length)
        ensures
            r == (Length { absolute: Vec2 { x: 0, y: 0 }, percent: Vec2 { x, y } }),
    {
        Length { absolute: Vec2 { x: 0, y: 0 }, percent: Vec2 { x, y } }
    }

    pub fn resolve(&self, parent: Vec2) -> (r: Vec2)
        ensures
            r == length_resolve(*self, parent),
    {
        Vec2 {
            x: resolve_component(self.absolute.x, self.percent.x, parent.x),
            y: resolve_component(self.absolute.y, self.percent.y, parent.y),
        }
    }
}

pub fn resolve_or_zero(l: &Option<Length>, parent: Vec2) -> (r: Vec2)
    ensures
        r == resolved_or_zero(*l, parent),
{
    match l {
        Some(l) => l.resolve(parent),
        None => Vec2 { x: 0, y: 0 },
    }
}

/// How a node lays out what it holds.
#[derive(Clone, Copy, Debug, PartialEq, Eq, Structural)]
pub enum NodeKind {
    /// Children placed one after another by a flow layout.
    Flow(Layout),
    /// Children all placed over the same content area.
    Stack,
    /// No children; sized by its own length attributes.
    Leaf,
}

/// One node of the scene graph: what it is, its ordered children (indices
/// into the graph) and its optional sizing attributes.
#[derive(Debug)]
pub struct Node {
    pub kind: NodeKind,
    pub children: Vec<usize>,
    pub margin: Option<Edges>,
    pub padding: Option<Edges>,
    pub size: Option<Length>,
    pub min_size: Option<Length>,
    pub offset: Option<Length>,
    pub anchor: Option<Length>,
}

pub open spec fn edges_or_zero(e: Option<Edges>) -> Edges {
    match e {
        Some(e) => e,
        None => Edges { left: 0, right: 0, top: 0, bottom: 0 },
    }
}

impl Node {
    pub fn leaf() -> (r: Node)
        ensures
            r.kind == NodeKind::Leaf,
            r.children@.len() == 0,
            r.margin.is_none() && r.padding.is_none(),
            r.size.is_none() && r.min_size.is_none(),
            r.offset.is_none() && r.anchor.is_none(),
    {
        Node {
            kind: NodeKind::Leaf,
            children: Vec::new(),
            margin: None,
            padding: None,
            size: None,
            min_size: None,
            offset: None,
            anchor: None,
        }
    }

    pub fn margin(&self) -> (r: Edges)
        ensures
            r == edges_or_zero(self.margin),
    {
        match self.margin {
            Some(e) => e,
            None => Edges::zero(),
        }
    }

    pub fn padding(&self) -> (r: Edges)
        ensures
            r == edges_or_zero(self.padding),
    {
        match self.padding {
            Some(e) => e,
            None => Edges::zero(),
        }
    }
}

/// Every child index names a node that comes earlier in the arena, so the
/// graph is acyclic and every recursion over it ends.
pub open spec fn nodes_wf(nodes: Seq<Node>) -> bool {
    forall|i: int, k: int|
        0 <= i < nodes.len() && 0 <= k < nodes[i].children@.len() ==> #[trigger] nodes[i].children@[k] < i
}

/// A resolved value that a layout pass stores on a node.
#[derive(Clone, Copy, Debug, PartialEq, Eq, Structural)]
pub enum Write {
    Rect(usize, Rect),
    Position(usize, Vec2),
}

/// What a pass has stored: one optional rect and position per node.
pub struct Outputs {
    pub rects: Seq<Option<Rect>>,
    pub positions: Seq<Option<Vec2>>,
}

/// Stores one write; a write to a node that is not there stores nothing.
pub open spec fn apply_write(o: Outputs, w: Write) -> Outputs {
    match w {
        Write::Rect(i, r) => if i < o.rects.len() {
            Outputs { rects: o.rects.update(i as int, Some(r)), ..o }
        } else {
            o
        },
        Write::Position(i, p) => if i < o.positions.len() {
            Outputs { positions: o.positions.update(i as int, Some(p)), ..o }
        } else {
            o
        },
    }
}

/// The outputs after storing each write of `ws` in order.
pub open spec fn replay(o: Outputs, ws: Seq<Write>) -> Outputs
    decreases ws.len(),
{
    if ws.len() == 0 {
        o
    } else {
        apply_write(replay(o, ws.drop_last()), ws.last())
    }
}

pub proof fn lemma_replay_concat(o: Outputs, a: Seq<Write>, b: Seq<Write>)
    ensures
        replay(o, a + b) == replay(replay(o, a), b),
    decreases b.len(),
{
    if b.len() == 0 {
        assert(a + b =~= a);
    } else {
        assert((a + b).drop_last() =~= a + b.drop_last());
        lemma_replay_concat(o, a, b.drop_last());
    }
}

/// The rect and position that the last layout pass resolved for each node.
pub struct Placements {
    pub rects: Vec<Option<Rect>>,
    pub positions: Vec<Option<Vec2>>,
}

impl Placements {
    pub open spec fn outputs(&self) -> Outputs {
        Outputs { rects: self.rects@, positions: self.positions@ }
    }

    /// Stores `r` as the rect of node `id`, leaving it untouched when it
    /// already holds that value. Returns whether it changed.
    pub fn set_rect(&mut self, id: usize, r: Rect) -> (changed: bool)
        requires
            id < old(self).rects@.len(),
        ensures
            final(self).outputs() == apply_write(old(self).outputs(), Write::Rect(id, r)),
            final(self).rects@.len() == old(self).rects@.len(),
            final(self).positions@.len() == old(self).positions@.len(),
            changed == (old(self).rects@[id as int] != Some(r)),
    {
        let same = match self.rects[id] {
            Some(cur) => cur == r,
            None => false,
        };
        if !same {
            self.rects.set(id, Some(r));
        }
        proof {
            assert(final(self).rects@ =~= old(self).rects@.update(id as int, Some(r)));
        }
        !same
    }

    /// Stores `p` as the position of node `id`, leaving it untouched when it
    /// already holds that value. Returns whether it changed.
    pub fn set_position(&mut self, id: usize, p: Vec2) -> (changed: bool)
        requires
            id < old(self).positions@.len(),
        ensures
            final(self).outputs() == apply_write(old(self).outputs(), Write::Position(id, p)),
            final(self).rects@.len() == old(self).rects@.len(),
            final(self).positions@.len() == old(self).positions@.len(),
            changed == (old(self).positions@[id as int] != Some(p)),
    {
        let same = match self.positions[id] {
            Some(cur) => cur == p,
            None => false,
        };
        if !same {
            self.positions.set(id, Some(p));
        }
        proof {
            assert(final(self).positions@ =~= old(self).positions@.update(id as int, Some(p)));
        }
        !same
    }
}

/// The scene graph: an arena of nodes and what layout resolved for them.
pub struct SceneGraph {
    pub nodes: Vec<Node>,
    pub placed: Placements,
}

impl SceneGraph {
    pub open spec fn wf(&self) -> bool {
        &&& nodes_wf(self.nodes@)
        &&& self.placed.rects@.len() == self.nodes@.len()
        &&& self.placed.positions@.len() == self.nodes@.len()
    }

    pub fn new() -> (r: SceneGraph)
        ensures
            r.wf(),
            r.nodes@.len() == 0,
    {
        SceneGraph { nodes: Vec::new(), placed: Placements { rects: Vec::new(), positions: Vec::new() } }
    }

    /// Adds a node whose children are all already present, and returns its index.
    pub fn add(&mut self, node: Node) -> (id: usize)
        requires
            old(self).wf(),
            old(self).nodes@.len() < usize::MAX,
            forall|k: int| 0 <= k < node.children@.len() ==> node.children@[k] < old(self).nodes@.len(),
        ensures
            final(self).wf(),
            id == old(self).nodes@.len(),
            final(self).nodes@ == old(self).nodes@.push(node),
            final(self).placed.rects@ == old(self).placed.rects@.push(None),
            final(self).placed.positions@ == old(self).placed.positions@.push(None),
    {
        let id = self.nodes.len();
        self.nodes.push(node);
        self.placed.rects.push(None);
        self.placed.positions.push(None);
        proof {
            let nodes = final(self).nodes@;
            assert forall|i: int, k: int|
                0 <= i < nodes.len() && 0 <= k < nodes[i].children@.len() implies #[trigger] nodes[i].children@[k] < i by {
                if i < id {
                    assert(nodes[i] == old(self).nodes@[i]);
                }
            }
        }
        id
    }

    /// The rect that the last pass resolved for node `id`.
    pub fn rect(&self, id: usize) -> (r: Option<Rect>)
        requires
            id < self.placed.rects@.len(),
        ensures
            r == self.placed.rects@[id as int],
    {
        self.placed.rects[id]
    }

    /// The position relative to its parent that the last pass resolved for node `id`.
    pub fn local_position(&self, id: usize) -> (r: Option<Vec2>)
        requires
            id < self.placed.positions@.len(),
        ensures
            r == self.placed.positions@[id as int],
    {
        self.placed.positions[id]
    }
}

} // verus!
