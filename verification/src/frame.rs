use vstd::prelude::*;
use crate::error::CanvasError;

verus! {

/// Width of the indices in an index buffer.
#[derive(Clone, Copy, Debug, PartialEq, Eq, Structural)]
pub enum IndexFormat {
    Uint16,
    Uint32,
}

/// One command of a render pass.
#[derive(Clone, Copy, Debug, PartialEq, Eq, Structural)]
pub enum PassCommand {
    /// Bind the client's pipeline.
    SetPipeline,
    /// Bind the client's bind group to the given slot, with no dynamic offset.
    SetBindGroup { index: u32 },
    /// Bind the whole vertex buffer to the given slot.
    SetVertexBuffer { slot: u32 },
    /// Bind the whole index buffer, read in the given format.
    SetIndexBuffer { format: IndexFormat },
    /// Draw vertices from the first on.
    Draw { vertices: u32, instances: u32 },
    /// Draw indices from the first on.
    DrawIndexed { indices: u32, base_vertex: i32, instances: u32 },
}

/// One render pass on the frame's texture. The colour attachment is cleared
/// to the background and stored; where `clears_depth` holds, the pass also
/// has the client's depth view as attachment, cleared to the far plane and
/// stored.
#[derive(Clone, Debug)]
pub struct RenderPass {
    pub clears_depth: bool,
    pub commands: Vec<PassCommand>,
}

/// What becomes of a frame once the surface was asked for its texture.
#[derive(Debug)]
pub enum FrameAction {
    /// No texture could be had: log the error and encode nothing.
    Skip { error: CanvasError },
    /// Encode the pass on the texture, submit it, and present the texture.
    Render(RenderPass),
}

/// Slot of the uniform bind group.
pub const BIND_GROUP_SLOT: u32 = 0;

/// Slot of the vertex buffer.
pub const VERTEX_BUFFER_SLOT: u32 = 0;

/// Vertical field of view of the camera, in degrees.
pub const FIELD_OF_VIEW_DEGREES: u32 = 60;

/// Distance of the near clipping plane, in tenths of a unit.
pub const NEAR_PLANE_TENTHS: u32 = 1;

/// Distance of the far clipping plane, in tenths of a unit.
pub const FAR_PLANE_TENTHS: u32 = 1000;

/// Position of the scene along the view axis, in tenths of a unit.
pub const SCENE_DEPTH_TENTHS: i32 = -25;

/// The commands of a 2D frame: the pipeline, the vertex buffer, and one draw
/// of all vertices.
pub open spec fn commands_2d(vertices: u32) -> Seq<PassCommand> {
    seq![
        PassCommand::SetPipeline,
        PassCommand::SetVertexBuffer { slot: VERTEX_BUFFER_SLOT },
        PassCommand::Draw { vertices, instances: 1 },
    ]
}

/// The commands of a 3D frame: the pipeline, the bind group, the vertex
/// buffer, the 16-bit index buffer, and one indexed draw of all indices.
pub open spec fn commands_3d(indices: u32) -> Seq<PassCommand> {
    seq![
        PassCommand::SetPipeline,
        PassCommand::SetBindGroup { index: BIND_GROUP_SLOT },
        PassCommand::SetVertexBuffer { slot: VERTEX_BUFFER_SLOT },
        PassCommand::SetIndexBuffer { format: IndexFormat::Uint16 },
        PassCommand::DrawIndexed { indices, base_vertex: 0, instances: 1 },
    ]
}

/// The render pass of a 2D frame that draws `vertices` vertices.
pub fn render_pass_2d(vertices: u32) -> (r: RenderPass)
    ensures
        !r.clears_depth,
        r.commands@ == commands_2d(vertices),
{
    let mut commands: Vec<PassCommand> = Vec::new();
    commands.push(PassCommand::SetPipeline);
    commands.push(PassCommand::SetVertexBuffer { slot: VERTEX_BUFFER_SLOT });
    commands.push(PassCommand::Draw { vertices, instances: 1 });
    assert(commands@ =~= commands_2d(vertices));
    RenderPass { clears_depth: false, commands }
}

/// The render pass of a 3D frame that draws `indices` indices.
pub fn render_pass_3d(indices: u32) -> (r: RenderPass)
    ensures
        r.clears_depth,
        r.commands@ == commands_3d(indices),
{
    let mut commands: Vec<PassCommand> = Vec::new();
    commands.push(PassCommand::SetPipeline);
    commands.push(PassCommand::SetBindGroup { index: BIND_GROUP_SLOT });
    commands.push(PassCommand::SetVertexBuffer { slot: VERTEX_BUFFER_SLOT });
    commands.push(PassCommand::SetIndexBuffer { format: IndexFormat::Uint16 });
    commands.push(PassCommand::DrawIndexed { indices, base_vertex: 0, instances: 1 });
    assert(commands@ =~= commands_3d(indices));
    RenderPass { clears_depth: true, commands }
}

/// Decides what becomes of a frame: with a texture the pass is rendered as
/// it stands; without one the frame is skipped, and all that is left of the
/// failure is an error for the log with the detail that the surface gave.
pub fn frame_action(acquired: Result<(), String>, pass: RenderPass) -> (r: FrameAction)
    ensures
        match acquired {
            Ok(_) => r == FrameAction::Render(pass),
            Err(detail) => r == (FrameAction::Skip {
                error: CanvasError::GetCurrentTexture(detail),
            }),
        },
{
    match acquired {
        Ok(_) => FrameAction::Render(pass),
        Err(detail) => FrameAction::Skip { error: CanvasError::GetCurrentTexture(detail) },
    }
}

} // verus!
