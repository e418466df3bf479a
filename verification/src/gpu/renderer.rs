//! What the command processor asks of a rendering backend.

use vstd::prelude::*;

verus! {

/// One corner of a primitive: a signed position and an RGB color.
#[derive(Clone, Copy, Debug, PartialEq, Eq)]
pub struct Vertex {
    /// Horizontal, then vertical coordinate.
    pub position: [i16; 2],
    /// Red, green, blue.
    pub color: [u8; 3],
}

impl Vertex {
    pub fn new(position: [i16; 2], color: [u8; 3]) -> (v: Vertex)
        ensures
            v == (Vertex { position, color }),
    {
        Vertex { position, color }
    }

    pub fn position(&self) -> (p: [i16; 2])
        ensures
            p == self.position,
    {
        self.position
    }

    pub fn color(&self) -> (c: [u8; 3])
        ensures
            c == self.color,
    {
        self.color
    }
}

/// One request made of a rendering backend.
#[derive(Clone, Copy, Debug, PartialEq, Eq)]
pub enum RenderCommand {
    /// Move the origin that later primitives are drawn against.
    DrawOffset { x: i16, y: i16 },
    /// Draw a triangle.
    Triangle([Vertex; 3]),
    /// Draw a quadrilateral; the backend splits it into two triangles.
    Quad([Vertex; 4]),
    /// Present what has been drawn.
    Display,
}

/// A rendering backend.
///
/// The command processor owns no pixels. It decodes commands and makes these
/// calls; what a backend draws in answer is its own affair. What the
/// contract asks of a backend is only that it owns up to what it was asked:
/// `received` is the list of the calls made on it, oldest first, and each
/// method adds its own call to that list and changes nothing else of it.
pub trait Renderer {
    /// Every call made on this backend, oldest first.
    spec fn received(&self) -> Seq<RenderCommand>;

    /// Sets the offset added to the position of every later primitive.
    fn set_draw_offset(&mut self, x: i16, y: i16)
        ensures
            final(self).received() == old(self).received().push(
                RenderCommand::DrawOffset { x, y },
            ),
    ;

    /// Draws a triangle.
    fn push_triangle(&mut self, vertices: &[Vertex; 3])
        ensures
            final(self).received() == old(self).received().push(
                RenderCommand::Triangle(*vertices),
            ),
    ;

    /// Draws a quadrilateral.
    fn push_quad(&mut self, vertices: &[Vertex; 4])
        ensures
            final(self).received() == old(self).received().push(RenderCommand::Quad(*vertices)),
    ;

    /// Presents the frame.
    fn display(&mut self)
        ensures
            final(self).received() == old(self).received().push(RenderCommand::Display),
    ;
}

/// A backend that draws nothing and keeps the calls it receives, for running
/// the command processor without a display.
pub struct Recorder {
    calls: Vec<RenderCommand>,
}

impl Recorder {
    /// A recorder that has received nothing.
    pub fn new() -> (recorder: Recorder)
        ensures
            recorder.received() == Seq::<RenderCommand>::empty(),
    {
        Recorder { calls: Vec::new() }
    }

    /// The calls received so far, oldest first.
    pub fn calls(&self) -> (calls: &Vec<RenderCommand>)
        ensures
            calls@ == self.received(),
    {
        &self.calls
    }
}

impl Renderer for Recorder {
    closed spec fn received(&self) -> Seq<RenderCommand> {
        self.calls@
    }

    fn set_draw_offset(&mut self, x: i16, y: i16) {
        self.calls.push(RenderCommand::DrawOffset { x, y });
    }

    fn push_triangle(&mut self, vertices: &[Vertex; 3]) {
        self.calls.push(RenderCommand::Triangle(*vertices));
    }

    fn push_quad(&mut self, vertices: &[Vertex; 4]) {
        self.calls.push(RenderCommand::Quad(*vertices));
    }

    fn display(&mut self) {
        self.calls.push(RenderCommand::Display);
    }
}

} // verus!
