use canvas::mesh::{Vertex3d, VertexBufferLayout, VertexStepMode};
use canvas::pipeline::{
    create_depth_texture, create_pipeline, create_render_pipeline, BindGroupLayoutEntry,
    BindingKind, BlendState, CompareFunction, DepthFormat, DepthStencilState, Extent3d, Face,
    FrontFace, MultisampleState, PolygonMode, PrimitiveState, PrimitiveTopology, ShaderStage,
    TextureDimension, TextureUsage, UNIFORM_BYTES,
};

#[test]
fn depth_texture_matches_surface() {
    let depth = create_depth_texture(800, 600);
    assert_eq!(depth.size, Extent3d { width: 800, height: 600, depth_or_array_layers: 1 });
    assert_eq!(depth.mip_level_count, 1);
    assert_eq!(depth.sample_count, 1);
    assert_eq!(depth.dimension, TextureDimension::D2);
    assert_eq!(depth.format, DepthFormat::Depth24Plus);
    assert_eq!(depth.usage, TextureUsage::RenderAttachment);
}

#[test]
fn depth_texture_is_never_empty() {
    assert_eq!(
        create_depth_texture(0, 0).size,
        Extent3d { width: 1, height: 1, depth_or_array_layers: 1 }
    );
    assert_eq!(
        create_depth_texture(0, 5).size,
        Extent3d { width: 1, height: 5, depth_or_array_layers: 1 }
    );
    assert_eq!(
        create_depth_texture(u32::MAX, 0).size,
        Extent3d { width: u32::MAX, height: 1, depth_or_array_layers: 1 }
    );
}

#[test]
fn pipeline_of_the_cube() {
    let pipeline = create_pipeline(wgpu::TextureFormat::Bgra8UnormSrgb);
    assert_eq!(
        pipeline.bindings,
        vec![BindGroupLayoutEntry {
            binding: 0,
            visibility: ShaderStage::Vertex,
            kind: BindingKind::UniformBuffer,
        }]
    );
    assert_eq!(pipeline.vertex_layout.array_stride, 24);
    assert_eq!(pipeline.vertex_layout.attributes, Vertex3d::layout().attributes);
    assert_eq!(pipeline.target_format, wgpu::TextureFormat::Bgra8UnormSrgb);
    assert_eq!(pipeline.blend, BlendState::Replace);
    assert_eq!(
        pipeline.primitive,
        PrimitiveState {
            topology: PrimitiveTopology::TriangleList,
            front_face: FrontFace::Ccw,
            cull_mode: Some(Face::Back),
            polygon_mode: PolygonMode::Fill,
        }
    );
    assert_eq!(
        pipeline.depth_stencil,
        Some(DepthStencilState {
            format: DepthFormat::Depth24Plus,
            depth_write_enabled: true,
            depth_compare: CompareFunction::Less,
        })
    );
    assert_eq!(
        pipeline.multisample,
        MultisampleState { count: 1, mask: !0, alpha_to_coverage_enabled: false }
    );
    assert_eq!(UNIFORM_BYTES, 64);
}

#[test]
fn pipeline_of_the_triangle() {
    let layout = VertexBufferLayout {
        array_stride: 20,
        step_mode: VertexStepMode::Vertex,
        attributes: Vec::new(),
    };
    let pipeline = create_render_pipeline(wgpu::TextureFormat::Rgba8Unorm, layout);
    assert!(pipeline.bindings.is_empty());
    assert_eq!(pipeline.vertex_layout.array_stride, 20);
    assert_eq!(pipeline.target_format, wgpu::TextureFormat::Rgba8Unorm);
    assert_eq!(pipeline.depth_stencil, None);
    assert_eq!(pipeline.primitive.cull_mode, Some(Face::Back));
    assert_eq!(pipeline.multisample.count, 1);
}
