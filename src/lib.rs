//! Two-pass box layout for an arena-backed UI scene graph.
//!
//! - `geometry`: points, edges and rects with saturating integer coordinates.
//! - `cursor`: the margin-collapsing cursor that lines blocks up along an axis.
//! - `layout`: flow directions and cross-axis alignment.
//! - `graph`: the node arena and the rects and positions a pass stores.
//! - `solver`: the sizing pass and the placement pass, each stated as a spec.
//! - `laws`: properties of the passes, proved over those specs.
//! - `widget`: what a widget implements to mount itself into the scene.
//! - `app`: the decisions of the window loop and the per-frame layout pass.
pub mod app;
pub mod cursor;
pub mod geometry;
pub mod graph;
pub mod laws;
pub mod layout;
pub mod scalar;
pub mod solver;
pub mod widget;

pub use app::{Action, App, WindowEvent};
pub use cursor::{Block, MarginCursor};
pub use geometry::{Axis, Edges, Rect, Vec2};
pub use graph::{Length, Node, NodeKind, Placements, SceneGraph};
pub use layout::{CrossAlign, Direction, Layout};
pub use solver::{query_size, update_subtree, LayoutLimits, SizeQuery};
pub use widget::Widget;
