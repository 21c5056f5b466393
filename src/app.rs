use vstd::prelude::*;

use crate::cursor::Block;
use crate::geometry::{Rect, Vec2};
use crate::graph::{replay, SceneGraph};
use crate::solver::{subtree_spec, update_subtree, LayoutLimits};

verus! {

/// What the window loop reports to the application.
#[derive(Clone, Copy, Debug, PartialEq, Eq, Structural)]
pub enum WindowEvent {
    /// The window's inner size changed.
    Resized(Vec2),
    /// All pending events were handled: time for a frame.
    FrameDue,
    /// The platform asks for the window to be drawn again.
    RedrawRequested,
    /// The user asked to close the window.
    CloseRequested,
    /// Drawing the last frame failed.
    DrawFailed,
    /// Anything else.
    Other,
}

/// What the window loop is to do next.
#[derive(Clone, Copy, Debug, PartialEq, Eq, Structural)]
pub enum Action {
    /// Resize the surface to the new window size.
    ResizeSurface(Vec2),
    /// Run pending tasks, lay out the scene and draw it.
    RunFrame,
    /// Draw the scene as it stands.
    Draw,
    /// Leave the loop.
    Exit,
    /// Nothing to do.
    Wait,
}

/// The application: the size of its window, and whether the loop still runs.
#[derive(Clone, Copy, Debug)]
pub struct App {
    pub window_size: Vec2,
    pub running: bool,
}

/// The window's rect, with its corner at the origin.
pub open spec fn window_rect(size: Vec2) -> Rect {
    Rect { min: Vec2 { x: 0, y: 0 }, max: size }
}

/// Limits that allow the root anything from nothing up to the window size.
pub open spec fn window_limits(size: Vec2) -> LayoutLimits {
    LayoutLimits { min: Vec2 { x: 0, y: 0 }, max: size }
}

/// The application's next state and action after `e`.
pub open spec fn step(app: App, e: WindowEvent) -> (App, Action) {
    if !app.running {
        (app, Action::Exit)
    } else {
        match e {
            WindowEvent::Resized(size) => (App { window_size: size, ..app }, Action::ResizeSurface(size)),
            WindowEvent::FrameDue => (app, Action::RunFrame),
            WindowEvent::RedrawRequested => (app, Action::Draw),
            WindowEvent::CloseRequested | WindowEvent::DrawFailed => (App { running: false, ..app }, Action::Exit),
            WindowEvent::Other => (app, Action::Wait),
        }
    }
}

impl App {
    pub fn new() -> (r: App)
        ensures
            r.window_size == (Vec2 { x: 0, y: 0 }),
            r.running,
    {
        App { window_size: Vec2 { x: 0, y: 0 }, running: true }
    }

    /// Decides what to do on `event`; once the loop has stopped it only exits.
    pub fn on_event(&mut self, event: WindowEvent) -> (action: Action)
        ensures
            (*final(self), action) == step(*old(self), event),
    {
        if !self.running {
            return Action::Exit;
        }
        match event {
            WindowEvent::Resized(size) => {
                self.window_size = size;
                Action::ResizeSurface(size)
            },
            WindowEvent::FrameDue => Action::RunFrame,
            WindowEvent::RedrawRequested => Action::Draw,
            WindowEvent::CloseRequested | WindowEvent::DrawFailed => {
                self.running = false;
                Action::Exit
            },
            WindowEvent::Other => Action::Wait,
        }
    }

    /// One layout pass of the whole scene: the root is laid out in the
    /// window's rect, within limits from nothing up to the window size.
    pub fn layout(&self, graph: &mut SceneGraph, root: usize) -> (r: Block)
        requires
            old(graph).wf(),
            root < old(graph).nodes@.len(),
        ensures
            final(graph).wf(),
            final(graph).nodes@ == old(graph).nodes@,
            r == subtree_spec(
                old(graph).nodes@,
                root as int,
                window_rect(self.window_size),
                window_limits(self.window_size),
            ).0,
            final(graph).placed.outputs() == replay(
                old(graph).placed.outputs(),
                subtree_spec(
                    old(graph).nodes@,
                    root as int,
                    window_rect(self.window_size),
                    window_limits(self.window_size),
                ).1,
            ),
    {
        let area = Rect { min: Vec2::zero(), max: self.window_size };
        let limits = LayoutLimits { min: Vec2::zero(), max: self.window_size };
        update_subtree(graph, root, area, limits)
    }
}

} // verus!
