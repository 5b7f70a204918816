//! The renderer and its per-frame state machine.
//!
//! A [`Frame`] is a single-use recording handle: operations append render
//! passes to its command list in call order, and [`Frame::present`]
//! consumes the frame, handing the recorded passes over for submission in
//! exactly that order.  A frame only exists while the surface can yield a
//! texture; when it cannot, [`Renderer::begin_frame`] yields no frame and
//! nothing is recorded or submitted.

use vstd::prelude::*;
use crate::fixed::FX_LIM;
use crate::graphics::color::Color;
use crate::graphics::context::{
    GraphicsContext, SurfaceCaps, is_preferred_format, resized_config,
};
use crate::graphics::geometry::{
    Geometry, GeometryBuilder, GVertex, circle_indices_spec, circle_vertices_spec,
    rect_indices_spec, rect_vertices_spec, triangle_indices_spec, triangle_vertices_spec,
    vertices_model,
};
use crate::graphics::pipeline::{RenderPipeline, VERTEX_STRIDE, layout_attributes};

verus! {

/// One recorded render pass.
#[derive(Debug, PartialEq, Eq)]
pub enum RenderCommand {
    /// A pass that clears the frame's color target to the color.
    Clear(Color),
    /// A pass that draws a mesh over whatever the previous passes left.
    Draw(Geometry),
}

/// The mathematical value of a recorded pass.
pub enum GCommand {
    Clear(Color),
    Draw(Seq<GVertex>, Seq<u32>),
}

/// The model of one recorded pass.
pub open spec fn command_view(c: RenderCommand) -> GCommand {
    match c {
        RenderCommand::Clear(color) => GCommand::Clear(color),
        RenderCommand::Draw(g) => GCommand::Draw(vertices_model(g), g.indices@),
    }
}

/// The models of a pass sequence, in recording order.
pub open spec fn commands_view(s: Seq<RenderCommand>) -> Seq<GCommand> {
    s.map_values(|c: RenderCommand| command_view(c))
}

/// One in-flight frame's recording state.  A frame borrows its renderer's
/// context and pipeline for its whole lifetime, so at most one frame can
/// be open per renderer at a time, and the renderer cannot be resized
/// under an open frame.
#[allow(dead_code)]
pub struct Frame<'a> {
    commands: Vec<RenderCommand>,
    context: &'a GraphicsContext,
    pipeline: &'a RenderPipeline,
}

impl<'a> View for Frame<'a> {
    type V = Seq<GCommand>;

    closed spec fn view(&self) -> Seq<GCommand> {
        commands_view(self.commands@)
    }
}

impl<'a> Frame<'a> {
    /// Record a pass clearing the color target to `color`.  Each clear
    /// fully overwrites the target, so later clears win.
    pub fn clear(&mut self, color: Color)
        ensures
            final(self)@ == old(self)@.push(GCommand::Clear(color)),
    {
        self.commands.push(RenderCommand::Clear(color));
        proof {
            assert(final(self)@ =~= old(self)@.push(GCommand::Clear(color)));
        }
    }

    /// Record a pass drawing `geometry` over the passes recorded so far.
    pub fn draw_geometry(&mut self, geometry: Geometry)
        ensures
            final(self)@ == old(self)@.push(
                GCommand::Draw(vertices_model(geometry), geometry.indices@),
            ),
    {
        self.commands.push(RenderCommand::Draw(geometry));
        proof {
            assert(final(self)@ =~= old(self)@.push(
                GCommand::Draw(vertices_model(geometry), geometry.indices@),
            ));
        }
    }

    /// Record drawing an equilateral triangle of the given side length.
    pub fn draw_triangle(&mut self, size: i64, color: Color)
        requires
            -FX_LIM <= size <= FX_LIM,
        ensures
            final(self)@ == old(self)@.push(
                GCommand::Draw(triangle_vertices_spec(size, color), triangle_indices_spec()),
            ),
    {
        let geometry = GeometryBuilder::triangle(size, color);
        self.draw_geometry(geometry);
    }

    /// Record drawing an axis-aligned rectangle.
    pub fn draw_rectangle(&mut self, width: i64, height: i64, color: Color)
        requires
            width > i64::MIN,
            height > i64::MIN,
        ensures
            final(self)@ == old(self)@.push(
                GCommand::Draw(rect_vertices_spec(width, height, color), rect_indices_spec()),
            ),
    {
        let geometry = GeometryBuilder::rectangle(width, height, color);
        self.draw_geometry(geometry);
    }

    /// Record drawing a circle fanned into `segments` wedges.
    pub fn draw_circle(&mut self, radius: i64, segments: u32, color: Color)
        requires
            -FX_LIM <= radius <= FX_LIM,
            segments < 1431655765,
        ensures
            final(self)@ == old(self)@.push(
                GCommand::Draw(
                    circle_vertices_spec(radius, segments, color),
                    circle_indices_spec(segments),
                ),
            ),
    {
        let geometry = GeometryBuilder::circle(radius, segments, color);
        self.draw_geometry(geometry);
    }

    /// Record drawing a square of the given size: exactly the rectangle
    /// whose width and height both equal `size`.
    pub fn draw_quad(&mut self, size: i64, color: Color)
        requires
            size > i64::MIN,
        ensures
            final(self)@ == old(self)@.push(
                GCommand::Draw(rect_vertices_spec(size, size, color), rect_indices_spec()),
            ),
    {
        let geometry = GeometryBuilder::quad(size, color);
        self.draw_geometry(geometry);
    }

    /// End the frame: hand over every recorded pass, in recording order,
    /// for submission as one command buffer.  Consuming the frame, this is
    /// the last operation it allows.
    pub fn present(self) -> (r: Vec<RenderCommand>)
        ensures
            commands_view(r@) == self@,
    {
        self.commands
    }
}

/// The renderer: the surface binding and the pipeline over it.
pub struct Renderer {
    pub context: GraphicsContext,
    pub pipeline: RenderPipeline,
}

impl Renderer {
    /// The pipeline renders into the format the surface is configured
    /// with.  This holds at construction and every operation preserves it;
    /// resizing never changes the format.
    pub open spec fn wf(self) -> bool {
        self.pipeline.pipeline.surface_format == self.context.config.format
    }

    /// A renderer for a surface with the given capabilities at the given
    /// physical size: a configured context, and a pipeline whose output
    /// format is the context's chosen surface format.
    pub fn new(size: (u32, u32), caps: &SurfaceCaps) -> (r: Renderer)
        requires
            caps.formats@.len() > 0,
            caps.present_modes@.len() > 0,
            caps.alpha_modes@.len() > 0,
        ensures
            r.wf(),
            is_preferred_format(caps.formats@, r.context.config.format),
            r.context.config.width == size.0,
            r.context.config.height == size.1,
            r.context.config.present_mode == caps.present_modes@[0],
            r.context.config.alpha_mode == caps.alpha_modes@[0],
            r.context.size == size,
            r.pipeline.pipeline.array_stride == VERTEX_STRIDE,
            r.pipeline.pipeline.attributes@ == layout_attributes(),
    {
        let context = GraphicsContext::new(size, caps);
        let pipeline = RenderPipeline::new(&context.config);
        Renderer { context, pipeline }
    }

    /// Open a frame, given whether the surface could yield a presentable
    /// texture this tick.  When it could not (say, the window is
    /// minimized), there is no frame: the caller skips this tick, and with
    /// no frame nothing can be recorded or submitted.  When it could, the
    /// frame starts with no recorded passes.
    pub fn begin_frame<'a>(&'a mut self, texture_available: bool) -> (r: Option<Frame<'a>>)
        ensures
            *final(self) == *old(self),
            texture_available <==> r is Some,
            r matches Some(f) ==> f@ == Seq::<GCommand>::empty(),
    {
        if texture_available {
            let f = Frame {
                commands: Vec::new(),
                context: &self.context,
                pipeline: &self.pipeline,
            };
            proof {
                assert(f@ =~= Seq::<GCommand>::empty());
            }
            Some(f)
        } else {
            None
        }
    }

    /// Forward a new physical size to the context.  The pipeline is
    /// untouched, and since the format does not change, a well-formed
    /// renderer stays well formed.
    pub fn resize(&mut self, size: (u32, u32))
        ensures
            final(self).context.size == size,
            final(self).context.config == resized_config(
                old(self).context.config,
                size.0,
                size.1,
            ),
            final(self).pipeline == old(self).pipeline,
            old(self).wf() ==> final(self).wf(),
    {
        self.context.resize(size);
    }
}

/// Passes execute in recording order: after a clear and then a draw are
/// recorded, the clear stands at the earlier position, so the draw's
/// output composites over the cleared background and not the reverse.
pub proof fn lemma_clear_then_draw_order(
    cmds: Seq<GCommand>,
    c: Color,
    vs: Seq<GVertex>,
    ixs: Seq<u32>,
)
    ensures
        ({
            let after = cmds.push(GCommand::Clear(c)).push(GCommand::Draw(vs, ixs));
            &&& after.len() == cmds.len() + 2
            &&& after[cmds.len() as int] == GCommand::Clear(c)
            &&& after[cmds.len() as int + 1] == GCommand::Draw(vs, ixs)
            &&& after.take(cmds.len() as int) == cmds
        }),
{
    let after = cmds.push(GCommand::Clear(c)).push(GCommand::Draw(vs, ixs));
    assert(after.take(cmds.len() as int) =~= cmds);
}

} // verus!
