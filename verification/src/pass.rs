//! The description of the one render pass that is recorded for each frame.

use vstd::prelude::*;

verus! {

/// A color with eight bits for each of red, green, blue and alpha.
#[derive(Clone, Copy, Debug, PartialEq, Eq)]
pub struct Color {
    pub r: u8,
    pub g: u8,
    pub b: u8,
    pub a: u8,
}

impl Color {
    /// Black, fully opaque.
    pub open spec fn black() -> Color {
        Color { r: 0, g: 0, b: 0, a: 255 }
    }
}

/// One draw call: the vertices `first_vertex..end_vertex` for each of the
/// instances `first_instance..end_instance`.
#[derive(Clone, Copy, Debug, PartialEq, Eq)]
pub struct DrawCall {
    pub first_vertex: u32,
    pub end_vertex: u32,
    pub first_instance: u32,
    pub end_instance: u32,
}

impl DrawCall {
    /// How many vertices each instance is drawn with.
    pub open spec fn vertex_count(self) -> int {
        self.end_vertex - self.first_vertex
    }

    /// How many instances are drawn.
    pub open spec fn instance_count(self) -> int {
        self.end_instance - self.first_instance
    }

    /// One triangle, once: three vertices, one instance.
    pub open spec fn triangle() -> DrawCall {
        DrawCall { first_vertex: 0, end_vertex: 3, first_instance: 0, end_instance: 1 }
    }
}

/// What can be recorded into a render pass. There is no command that binds
/// a vertex buffer: a pass recorded from these draws without one.
#[derive(Clone, Copy, Debug, PartialEq, Eq)]
pub enum Command {
    /// Bind the renderer's pipeline.
    SetPipeline,
    /// Issue a draw call.
    Draw(DrawCall),
}

/// One render pass into one color target, without depth or stencil.
#[derive(Debug, PartialEq, Eq)]
pub struct RenderPass {
    /// The target is cleared to this color before anything is drawn.
    pub clear_color: Color,
    /// Whether what was drawn is written back to the target.
    pub store: bool,
    /// What is recorded, in order.
    pub commands: Vec<Command>,
}

impl RenderPass {
    /// The commands of the pass that draws the triangle: bind the pipeline,
    /// then one draw call.
    pub open spec fn triangle_commands() -> Seq<Command> {
        seq![Command::SetPipeline, Command::Draw(DrawCall::triangle())]
    }

    /// Whether this is the pass that clears to black and draws the triangle.
    pub open spec fn is_triangle_on_black(self) -> bool {
        &&& self.clear_color == Color::black()
        &&& self.store
        &&& self.commands@ == RenderPass::triangle_commands()
    }
}

/// The pass that draws the triangle holds exactly one draw call, of three
/// vertices and one instance, and the pipeline is bound before it.
pub proof fn lemma_triangle_pass_draws_once(pass: RenderPass)
    requires
        pass.is_triangle_on_black(),
    ensures
        pass.commands@.len() == 2,
        pass.commands@[0] == Command::SetPipeline,
        pass.commands@[1] matches Command::Draw(draw) && draw.vertex_count() == 3
            && draw.instance_count() == 1,
        forall|i: int|
            0 <= i < pass.commands@.len() && #[trigger] pass.commands@[i] is Draw ==> i == 1,
{
}

} // verus!
