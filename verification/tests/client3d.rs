use canvas::client3d::{FrameUniforms, ResizeAction3d};
use canvas::frame::{
    frame_action, FrameAction, IndexFormat, PassCommand, FAR_PLANE_TENTHS,
    FIELD_OF_VIEW_DEGREES, NEAR_PLANE_TENTHS, SCENE_DEPTH_TENTHS,
};
use canvas::pipeline::Extent3d;
use canvas::surface::SurfaceConfig;
use canvas::{CanvasError, Client3d, Size};

fn surface(width: u32, height: u32) -> SurfaceConfig {
    SurfaceConfig {
        format: wgpu::TextureFormat::Bgra8UnormSrgb,
        width,
        height,
        present_mode: wgpu::PresentMode::Fifo,
        alpha_mode: wgpu::CompositeAlphaMode::Opaque,
        desired_maximum_frame_latency: 2,
    }
}

fn radians(angle: u64) -> f32 {
    angle as f32 * 0.01
}

#[test]
fn client3d_starts_at_rest_and_turning() {
    let client = Client3d::new(surface(800, 600));
    assert_eq!(client.angle(), 0);
    assert!(client.auto_rotate());
    assert_eq!(client.size(), Size { width: 800, height: 600 });
    assert_eq!(client.state().index_count, 36);
    assert_eq!(
        client.depth_size(),
        Extent3d { width: 800, height: 600, depth_or_array_layers: 1 }
    );
}

#[test]
fn client3d_on_an_empty_canvas_has_a_depth_texture() {
    let client = Client3d::new(surface(0, 0));
    assert_eq!(client.size(), Size { width: 0, height: 0 });
    assert_eq!(client.depth_size(), Extent3d { width: 1, height: 1, depth_or_array_layers: 1 });
}

#[test]
fn hundred_frames_turn_the_cube_by_one_radian() {
    let mut client = Client3d::new(surface(800, 600));
    for _ in 0..100 {
        client.draw();
    }
    assert_eq!(client.angle(), 100);
    assert!((radians(client.angle()) - 1.0).abs() < 1e-5);

    client.set_auto_rotate(false);
    assert!(!client.auto_rotate());
    client.draw();
    assert_eq!(client.angle(), 100);

    client.reset();
    assert_eq!(client.angle(), 0);
    assert_eq!(radians(client.angle()), 0.0);
    assert!(!client.auto_rotate());
    assert_eq!(client.size(), Size { width: 800, height: 600 });
}

#[test]
fn dropped_frames_still_turn_the_cube() {
    let mut client = Client3d::new(surface(800, 600));
    for n in 1..=50u64 {
        let frame = client.draw();
        assert_eq!(frame.uniforms.angle, n);
        match frame_action(Err("Lost".to_string()), frame.pass) {
            FrameAction::Skip { error } => {
                assert_eq!(error, CanvasError::GetCurrentTexture("Lost".to_string()));
                assert_eq!(error.message(), "Failed to get current texture: Lost");
            }
            FrameAction::Render(_) => panic!("a frame without a texture was rendered"),
        }
        assert_eq!(client.angle(), n);
    }
    assert_eq!(client.size(), Size { width: 800, height: 600 });
    assert!(client.auto_rotate());
}

#[test]
fn frame_of_the_cube() {
    let mut client = Client3d::new(surface(800, 600));
    let frame = client.draw();
    assert_eq!(frame.uniforms, FrameUniforms { angle: 1, aspect_width: 800, aspect_height: 600 });
    assert!(frame.pass.clears_depth);
    match frame_action(Ok(()), frame.pass) {
        FrameAction::Render(pass) => assert_eq!(
            pass.commands,
            vec![
                PassCommand::SetPipeline,
                PassCommand::SetBindGroup { index: 0 },
                PassCommand::SetVertexBuffer { slot: 0 },
                PassCommand::SetIndexBuffer { format: IndexFormat::Uint16 },
                PassCommand::DrawIndexed { indices: 36, base_vertex: 0, instances: 1 },
            ]
        ),
        FrameAction::Skip { .. } => panic!("a frame with a texture was skipped"),
    }
}

#[test]
fn aspect_terms_are_never_zero() {
    let mut client = Client3d::new(surface(0, 0));
    let frame = client.draw();
    assert_eq!(frame.uniforms, FrameUniforms { angle: 1, aspect_width: 1, aspect_height: 1 });
}

#[test]
fn camera_constants() {
    assert_eq!(FIELD_OF_VIEW_DEGREES, 60);
    assert_eq!(NEAR_PLANE_TENTHS as f32 / 10.0, 0.1);
    assert_eq!(FAR_PLANE_TENTHS as f32 / 10.0, 100.0);
    assert_eq!(SCENE_DEPTH_TENTHS as f32 / 10.0, -2.5);
}

#[test]
fn client3d_resize_with_zero_side_is_ignored() {
    let mut client = Client3d::new(surface(800, 600));
    client.draw();
    for (w, h) in [(0, 0), (0, 7), (7, 0), (0, u32::MAX), (u32::MAX, 0)] {
        assert!(matches!(client.resize(w, h), ResizeAction3d::Ignore));
        assert_eq!(client.size(), Size { width: 800, height: 600 });
        assert_eq!(client.state().config.width, 800);
        assert_eq!(client.state().config.height, 600);
        assert_eq!(
            client.depth_size(),
            Extent3d { width: 800, height: 600, depth_or_array_layers: 1 }
        );
        assert_eq!(client.angle(), 1);
        assert!(client.auto_rotate());
    }
}

#[test]
fn client3d_resize_replaces_the_depth_texture() {
    let mut client = Client3d::new(surface(800, 600));
    for (w, h) in [(1, 1), (1024, 768), (3, 2000), (u32::MAX, u32::MAX)] {
        match client.resize(w, h) {
            ResizeAction3d::Reconfigure { config, depth } => {
                assert_eq!(config.width, w);
                assert_eq!(config.height, h);
                assert_eq!(config.format, wgpu::TextureFormat::Bgra8UnormSrgb);
                assert_eq!(
                    depth.size,
                    Extent3d { width: w, height: h, depth_or_array_layers: 1 }
                );
            }
            ResizeAction3d::Ignore => panic!("a resize to a proper size was ignored"),
        }
        assert_eq!(client.size(), Size { width: w, height: h });
        assert_eq!(
            client.depth_size(),
            Extent3d { width: w.max(1), height: h.max(1), depth_or_array_layers: 1 }
        );
        assert_eq!(client.state().config.width, w);
        assert_eq!(client.state().config.height, h);
    }
    assert_eq!(client.angle(), 0);
}
