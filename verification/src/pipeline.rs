use vstd::prelude::*;
use crate::mesh::{Vertex3d, VertexBufferLayout, VertexStepMode, vertex3d_attributes};
use crate::size::{at_least_one, clamp_dimension};

verus! {

/// Extent of a texture.
#[derive(Clone, Copy, Debug, PartialEq, Eq, Structural)]
pub struct Extent3d {
    pub width: u32,
    pub height: u32,
    pub depth_or_array_layers: u32,
}

/// Dimensionality of a texture.
#[derive(Clone, Copy, Debug, PartialEq, Eq, Structural)]
pub enum TextureDimension {
    D1,
    D2,
    D3,
}

/// Format of a depth buffer.
#[derive(Clone, Copy, Debug, PartialEq, Eq, Structural)]
pub enum DepthFormat {
    /// At least 24 bits of depth, no stencil.
    Depth24Plus,
}

/// What a texture may be used for.
#[derive(Clone, Copy, Debug, PartialEq, Eq, Structural)]
pub enum TextureUsage {
    /// As an attachment of a render pass, and for nothing else.
    RenderAttachment,
}

/// What a depth texture is created with.
#[derive(Clone, Copy, Debug, PartialEq, Eq, Structural)]
pub struct DepthTextureDescriptor {
    pub size: Extent3d,
    pub mip_level_count: u32,
    pub sample_count: u32,
    pub dimension: TextureDimension,
    pub format: DepthFormat,
    pub usage: TextureUsage,
}

/// Extent of the depth buffer of a surface that is `width` by `height`: the
/// same, but never zero on a side, and one layer deep.
pub open spec fn depth_extent(width: u32, height: u32) -> Extent3d {
    Extent3d {
        width: at_least_one(width),
        height: at_least_one(height),
        depth_or_array_layers: 1,
    }
}

/// The depth texture of a surface that is `width` by `height`: a single 2D
/// layer of 24-bit depth, one mip level, one sample, to render to only.
pub open spec fn depth_texture(width: u32, height: u32) -> DepthTextureDescriptor {
    DepthTextureDescriptor {
        size: depth_extent(width, height),
        mip_level_count: 1,
        sample_count: 1,
        dimension: TextureDimension::D2,
        format: DepthFormat::Depth24Plus,
        usage: TextureUsage::RenderAttachment,
    }
}

/// Describes the depth texture for a surface of the given size.
pub fn create_depth_texture(width: u32, height: u32) -> (r: DepthTextureDescriptor)
    ensures
        r == depth_texture(width, height),
{
    DepthTextureDescriptor {
        size: Extent3d {
            width: clamp_dimension(width),
            height: clamp_dimension(height),
            depth_or_array_layers: 1,
        },
        mip_level_count: 1,
        sample_count: 1,
        dimension: TextureDimension::D2,
        format: DepthFormat::Depth24Plus,
        usage: TextureUsage::RenderAttachment,
    }
}

/// Shader stage that sees a binding.
#[derive(Clone, Copy, Debug, PartialEq, Eq, Structural)]
pub enum ShaderStage {
    Vertex,
    Fragment,
}

/// Kind of resource behind a binding.
#[derive(Clone, Copy, Debug, PartialEq, Eq, Structural)]
pub enum BindingKind {
    /// A uniform buffer at a fixed offset, of any size.
    UniformBuffer,
}

/// One binding of a bind-group layout.
#[derive(Clone, Copy, Debug, PartialEq, Eq, Structural)]
pub struct BindGroupLayoutEntry {
    pub binding: u32,
    pub visibility: ShaderStage,
    pub kind: BindingKind,
}

/// How vertices are assembled into primitives.
#[derive(Clone, Copy, Debug, PartialEq, Eq, Structural)]
pub enum PrimitiveTopology {
    TriangleList,
    TriangleStrip,
}

/// Winding of a front face.
#[derive(Clone, Copy, Debug, PartialEq, Eq, Structural)]
pub enum FrontFace {
    Ccw,
    Cw,
}

/// Side of a triangle.
#[derive(Clone, Copy, Debug, PartialEq, Eq, Structural)]
pub enum Face {
    Front,
    Back,
}

/// How a polygon is rasterised.
#[derive(Clone, Copy, Debug, PartialEq, Eq, Structural)]
pub enum PolygonMode {
    Fill,
    Line,
}

/// Test against the depth buffer.
#[derive(Clone, Copy, Debug, PartialEq, Eq, Structural)]
pub enum CompareFunction {
    Less,
    LessEqual,
    Always,
}

/// How a fragment is combined with what the target holds.
#[derive(Clone, Copy, Debug, PartialEq, Eq, Structural)]
pub enum BlendState {
    /// The fragment replaces the target's value.
    Replace,
}

/// Depth test of a pipeline. There is no stencil test and no depth bias.
#[derive(Clone, Copy, Debug, PartialEq, Eq, Structural)]
pub struct DepthStencilState {
    pub format: DepthFormat,
    pub depth_write_enabled: bool,
    pub depth_compare: CompareFunction,
}

/// Assembly and rasterisation of primitives.
#[derive(Clone, Copy, Debug, PartialEq, Eq, Structural)]
pub struct PrimitiveState {
    pub topology: PrimitiveTopology,
    pub front_face: FrontFace,
    pub cull_mode: Option<Face>,
    pub polygon_mode: PolygonMode,
}

/// Multisampling of a pipeline.
#[derive(Clone, Copy, Debug, PartialEq, Eq, Structural)]
pub struct MultisampleState {
    pub count: u32,
    pub mask: u64,
    pub alpha_to_coverage_enabled: bool,
}

/// Everything a render pipeline is built from, but the shader's text. The
/// fragment stage writes every channel of one target of `target_format`.
#[derive(Debug)]
pub struct PipelineDescriptor {
    /// Bindings of the one bind group; empty where the shader takes none.
    pub bindings: Vec<BindGroupLayoutEntry>,
    pub vertex_layout: VertexBufferLayout,
    pub target_format: wgpu::TextureFormat,
    pub blend: BlendState,
    pub primitive: PrimitiveState,
    pub depth_stencil: Option<DepthStencilState>,
    pub multisample: MultisampleState,
}

/// Binding slot of the uniform buffer.
pub const UNIFORM_BINDING: u32 = 0;

/// Bytes of the uniform buffer: one matrix of four by four 32-bit floats.
pub const UNIFORM_BYTES: u64 = 64;

/// Sample mask that lets every sample through.
pub const ALL_SAMPLES: u64 = 0xffff_ffff_ffff_ffff;

/// The primitive state of both pipelines: filled triangle lists whose front
/// faces wind counter-clockwise and whose back faces are culled.
pub open spec fn solid_triangles() -> PrimitiveState {
    PrimitiveState {
        topology: PrimitiveTopology::TriangleList,
        front_face: FrontFace::Ccw,
        cull_mode: Some(Face::Back),
        polygon_mode: PolygonMode::Fill,
    }
}

/// One sample per pixel, none masked, no alpha-to-coverage.
pub open spec fn single_sample() -> MultisampleState {
    MultisampleState { count: 1, mask: ALL_SAMPLES, alpha_to_coverage_enabled: false }
}

/// The depth test of the 3D pipeline: 24-bit depth, written, nearer wins.
pub open spec fn depth_test() -> DepthStencilState {
    DepthStencilState {
        format: DepthFormat::Depth24Plus,
        depth_write_enabled: true,
        depth_compare: CompareFunction::Less,
    }
}

/// The bindings of the 3D pipeline: the uniform buffer in slot 0, seen by
/// the vertex stage only.
pub open spec fn uniform_bindings() -> Seq<BindGroupLayoutEntry> {
    seq![
        BindGroupLayoutEntry {
            binding: UNIFORM_BINDING,
            visibility: ShaderStage::Vertex,
            kind: BindingKind::UniformBuffer,
        },
    ]
}

fn solid_triangle_state() -> (r: PrimitiveState)
    ensures
        r == solid_triangles(),
{
    PrimitiveState {
        topology: PrimitiveTopology::TriangleList,
        front_face: FrontFace::Ccw,
        cull_mode: Some(Face::Back),
        polygon_mode: PolygonMode::Fill,
    }
}

fn single_sample_state() -> (r: MultisampleState)
    ensures
        r == single_sample(),
{
    MultisampleState { count: 1, mask: ALL_SAMPLES, alpha_to_coverage_enabled: false }
}

/// Describes the pipeline of the 3D client for a surface of the given
/// format: one uniform binding, the layout of `Vertex3d`, solid triangles,
/// the depth test, a single sample, and fragments that replace the target.
pub fn create_pipeline(surface_format: wgpu::TextureFormat) -> (r: PipelineDescriptor)
    ensures
        r.bindings@ == uniform_bindings(),
        r.vertex_layout.array_stride == Vertex3d::stride(),
        r.vertex_layout.step_mode == VertexStepMode::Vertex,
        r.vertex_layout.attributes@ == vertex3d_attributes(),
        r.target_format == surface_format,
        r.blend == BlendState::Replace,
        r.primitive == solid_triangles(),
        r.depth_stencil == Some(depth_test()),
        r.multisample == single_sample(),
{
    let mut bindings: Vec<BindGroupLayoutEntry> = Vec::new();
    bindings.push(
        BindGroupLayoutEntry {
            binding: UNIFORM_BINDING,
            visibility: ShaderStage::Vertex,
            kind: BindingKind::UniformBuffer,
        },
    );
    assert(bindings@ =~= uniform_bindings());
    PipelineDescriptor {
        bindings,
        vertex_layout: Vertex3d::layout(),
        target_format: surface_format,
        blend: BlendState::Replace,
        primitive: solid_triangle_state(),
        depth_stencil: Some(
            DepthStencilState {
                format: DepthFormat::Depth24Plus,
                depth_write_enabled: true,
                depth_compare: CompareFunction::Less,
            },
        ),
        multisample: single_sample_state(),
    }
}

/// Describes the pipeline of the 2D client for a surface of the given format
/// and the given layout of its vertices: as the 3D pipeline, but with no
/// binding and no depth test.
pub fn create_render_pipeline(
    surface_format: wgpu::TextureFormat,
    vertex_layout: VertexBufferLayout,
) -> (r: PipelineDescriptor)
    ensures
        r.bindings@ == Seq::<BindGroupLayoutEntry>::empty(),
        r.vertex_layout == vertex_layout,
        r.target_format == surface_format,
        r.blend == BlendState::Replace,
        r.primitive == solid_triangles(),
        r.depth_stencil == None::<DepthStencilState>,
        r.multisample == single_sample(),
{
    PipelineDescriptor {
        bindings: Vec::new(),
        vertex_layout,
        target_format: surface_format,
        blend: BlendState::Replace,
        primitive: solid_triangle_state(),
        depth_stencil: None,
        multisample: single_sample_state(),
    }
}

} // verus!
