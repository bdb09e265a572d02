//! The scene: an ordered, append-only list of draw commands. The order of
//! insertion is the order of painting, so a later command covers an earlier
//! one.

use vstd::prelude::*;
use crate::color::Color;
use crate::geometry::{Path, PathEl, Shape, ShapeView, Transform};

verus! {

/// One painting step.
#[derive(Debug, PartialEq, Eq)]
pub enum DrawCommand {
    /// Fill `shape`, placed by `transform`, with `color`.
    Fill { transform: Transform, color: Color, shape: Shape },
    /// Stroke `path`, placed by `transform`, with `color` and a line `width`
    /// units wide.
    Stroke { width: i64, transform: Transform, color: Color, path: Path },
}

/// What a [`DrawCommand`] holds, with paths as sequences of elements.
pub enum DrawCommandView {
    Fill { transform: Transform, color: Color, shape: ShapeView },
    Stroke { width: i64, transform: Transform, color: Color, path: Seq<PathEl> },
}

impl View for DrawCommand {
    type V = DrawCommandView;

    open spec fn view(&self) -> DrawCommandView {
        match self {
            DrawCommand::Fill { transform, color, shape } => DrawCommandView::Fill {
                transform: *transform,
                color: *color,
                shape: shape@,
            },
            DrawCommand::Stroke { width, transform, color, path } => DrawCommandView::Stroke {
                width: *width,
                transform: *transform,
                color: *color,
                path: path@,
            },
        }
    }
}

/// An ordered list of draw commands.
#[derive(Debug, PartialEq, Eq)]
pub struct Scene {
    commands: Vec<DrawCommand>,
}

impl View for Scene {
    type V = Seq<DrawCommandView>;

    closed spec fn view(&self) -> Seq<DrawCommandView> {
        self.commands@.map_values(|c: DrawCommand| c@)
    }
}

impl Scene {
    /// The empty scene.
    pub fn new() -> (scene: Scene)
        ensures
            scene@ == Seq::<DrawCommandView>::empty(),
    {
        let scene = Scene { commands: Vec::new() };
        assert(scene@ =~= Seq::<DrawCommandView>::empty());
        scene
    }

    /// Appends a command that fills `shape` with `color`.
    pub fn fill(&mut self, transform: Transform, color: Color, shape: &Shape)
        ensures
            final(self)@ == old(self)@.push(
                DrawCommandView::Fill { transform, color, shape: shape@ },
            ),
    {
        let command = DrawCommand::Fill { transform, color, shape: shape.clone() };
        self.commands.push(command);
        assert(self@ =~= old(self)@.push(
            DrawCommandView::Fill { transform, color, shape: shape@ },
        ));
    }

    /// Appends a command that strokes `path` with `color`, `width` units wide.
    pub fn stroke(&mut self, width: i64, transform: Transform, color: Color, path: &Path)
        ensures
            final(self)@ == old(self)@.push(
                DrawCommandView::Stroke { width, transform, color, path: path@ },
            ),
    {
        let command = DrawCommand::Stroke { width, transform, color, path: path.clone() };
        self.commands.push(command);
        assert(self@ =~= old(self)@.push(
            DrawCommandView::Stroke { width, transform, color, path: path@ },
        ));
    }

    /// Number of commands.
    pub fn len(&self) -> (n: usize)
        ensures
            n == self@.len(),
    {
        self.commands.len()
    }

    /// The commands, in painting order.
    pub fn commands(&self) -> (commands: &[DrawCommand])
        ensures
            commands@.len() == self@.len(),
            forall|i: int| 0 <= i < self@.len() ==> (#[trigger] commands@[i])@ == self@[i],
    {
        self.commands.as_slice()
    }
}

} // verus!
