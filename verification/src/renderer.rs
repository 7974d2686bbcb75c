//! The renderer: one pipeline, described once, and one pass per frame.

use vstd::prelude::*;
use crate::pass::{Color, Command, DrawCall, RenderPass};
use crate::pipeline::PipelineDesc;
use crate::surface::SurfaceConfig;

verus! {

/// Draws one fixed triangle per frame. It holds the description of its
/// pipeline, fixed when the renderer is made, and a copy of the surface
/// configuration, kept only to follow the size of the window.
#[derive(Clone, Copy, Debug, PartialEq, Eq)]
pub struct Renderer {
    pub pipeline: PipelineDesc,
    pub config: SurfaceConfig,
}

impl Renderer {
    /// The pipeline is the one for the format of the configuration.
    pub open spec fn wf(self) -> bool {
        self.pipeline == PipelineDesc::for_format(self.config.format)
    }

    /// The renderer made for `config`.
    pub open spec fn for_config(config: SurfaceConfig) -> Renderer {
        Renderer { pipeline: PipelineDesc::for_format(config.format), config }
    }

    /// This renderer after the window took another size: the same pipeline,
    /// the configuration with the new size.
    pub open spec fn resized(self, width: u32, height: u32) -> Renderer {
        Renderer { pipeline: self.pipeline, config: self.config.with_size(width, height) }
    }

    /// Describes the pipeline for the format of `config` and keeps a copy of
    /// `config`.
    pub fn new(config: &SurfaceConfig) -> (renderer: Renderer)
        ensures
            renderer == Renderer::for_config(*config),
            renderer.wf(),
    {
        Renderer { pipeline: PipelineDesc::build(config.format), config: *config }
    }

    /// Follows the window to its new size. The pipeline is not touched: it
    /// does not depend on the size of its target.
    pub fn resize(&mut self, width: u32, height: u32)
        ensures
            *final(self) == old(self).resized(width, height),
            final(self).wf() == old(self).wf(),
    {
        self.config.set_size(width, height);
    }

    /// Describes the pass for one frame: the target is cleared to black, the
    /// pipeline is bound, and three vertices are drawn once, with no vertex
    /// buffer. The renderer itself is left as it was.
    pub fn render(&mut self) -> (pass: RenderPass)
        ensures
            pass.is_triangle_on_black(),
            *final(self) == *old(self),
    {
        let mut commands: Vec<Command> = Vec::new();
        commands.push(Command::SetPipeline);
        commands.push(
            Command::Draw(
                DrawCall { first_vertex: 0, end_vertex: 3, first_instance: 0, end_instance: 1 },
            ),
        );
        assert(commands@ =~= RenderPass::triangle_commands());
        RenderPass { clear_color: Color { r: 0, g: 0, b: 0, a: 255 }, store: true, commands }
    }
}

} // verus!
