use vstd::prelude::*;

use crate::graph::SceneGraph;

verus! {

/// Represents a widget in the UI tree which can mount itself into the scene.
///
/// Is inert before mounting.
pub trait Widget {
    /// Mount the widget into the scene graph, returning the index of its node.
    fn mount(self, graph: &mut SceneGraph) -> usize;
}

} // verus!
