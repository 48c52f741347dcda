use vstd::prelude::*;
use crate::frame::{RenderPass, commands_3d, render_pass_3d};
use crate::mesh::CUBE_INDEX_COUNT;
use crate::pipeline::{DepthTextureDescriptor, Extent3d, create_depth_texture, depth_extent, depth_texture};
use crate::size::{Size, at_least_one, clamp_dimension};
use crate::surface::SurfaceConfig;

verus! {

/// What a 3D client knows between two calls.
///
/// The angle of the cube is counted in steps of one hundredth of a radian,
/// the increment of one frame.
#[derive(Clone, Copy, Debug)]
pub struct Client3dState {
    pub config: SurfaceConfig,
    pub size: Size,
    pub index_count: u32,
    pub depth: DepthTextureDescriptor,
    pub angle: u64,
    pub auto_rotate: bool,
}

/// What the caller does to the GPU after a call of `resize`.
#[derive(Clone, Copy, Debug)]
pub enum ResizeAction3d {
    /// Nothing: a side was zero.
    Ignore,
    /// Configure the surface anew and replace the depth texture and its view.
    Reconfigure { config: SurfaceConfig, depth: DepthTextureDescriptor },
}

/// What the transform of a frame is computed from: the angle of the cube in
/// hundredths of a radian, and the two terms of the aspect ratio.
#[derive(Clone, Copy, Debug, PartialEq, Eq, Structural)]
pub struct FrameUniforms {
    pub angle: u64,
    pub aspect_width: u32,
    pub aspect_height: u32,
}

/// One frame of the 3D client: first the uniform buffer is overwritten with
/// the transform for `uniforms`, then the surface is asked for its texture,
/// on which `pass` is encoded.
#[derive(Clone, Debug)]
pub struct Frame3d {
    pub uniforms: FrameUniforms,
    pub pass: RenderPass,
}

impl Client3dState {
    /// The size, the surface and the depth buffer agree, and the draw call
    /// covers the cube.
    pub open spec fn wf(self) -> bool {
        &&& self.size.width == self.config.width
        &&& self.size.height == self.config.height
        &&& self.depth == depth_texture(self.config.width, self.config.height)
        &&& self.index_count == CUBE_INDEX_COUNT
    }

    /// The state of a client that was just created on a configured surface:
    /// the cube at rest, and turning.
    pub open spec fn initial(config: SurfaceConfig) -> Self {
        Client3dState {
            config,
            size: Size { width: config.width, height: config.height },
            index_count: CUBE_INDEX_COUNT,
            depth: depth_texture(config.width, config.height),
            angle: 0,
            auto_rotate: true,
        }
    }

    /// The surface configuration after a resize that is not ignored.
    pub open spec fn resized_config(self, width: u32, height: u32) -> SurfaceConfig {
        SurfaceConfig { width, height, ..self.config }
    }

    /// The state after `resize`: unchanged where a side is zero.
    pub open spec fn resized(self, width: u32, height: u32) -> Self {
        if (Size { width, height }).drawable() {
            Client3dState {
                config: self.resized_config(width, height),
                size: Size { width, height },
                depth: depth_texture(width, height),
                ..self
            }
        } else {
            self
        }
    }

    /// The state after `draw`: one step further where the cube turns. The
    /// angle stays where it is once the counter is at its greatest value.
    pub open spec fn advanced(self) -> Self {
        if self.auto_rotate && self.angle < u64::MAX {
            Client3dState { angle: (self.angle + 1) as u64, ..self }
        } else {
            self
        }
    }

    /// The state after `draw` was called `n` times.
    pub open spec fn advanced_by(self, n: nat) -> Self
        decreases n,
    {
        if n == 0 {
            self
        } else {
            self.advanced_by((n - 1) as nat).advanced()
        }
    }

    /// What the transform of the next frame is computed from.
    pub open spec fn uniforms(self) -> FrameUniforms {
        FrameUniforms {
            angle: self.angle,
            aspect_width: at_least_one(self.config.width),
            aspect_height: at_least_one(self.config.height),
        }
    }
}

/// The orchestration state of the 3D renderer: a turning cube with a depth
/// buffer. The fields are the client's own, so every client that exists is
/// well-formed.
#[derive(Debug)]
pub struct Client3d {
    state: Client3dState,
}

impl View for Client3d {
    type V = Client3dState;

    closed spec fn view(&self) -> Client3dState {
        self.state
    }
}

impl Client3d {
    #[verifier::type_invariant]
    spec fn well_formed(self) -> bool {
        self.state.wf()
    }

    /// Creates the client for a surface that was configured with `config`.
    pub fn new(config: SurfaceConfig) -> (r: Self)
        ensures
            r@ == Client3dState::initial(config),
            r@.wf(),
    {
        Client3d {
            state: Client3dState {
                config,
                size: Size { width: config.width, height: config.height },
                index_count: CUBE_INDEX_COUNT,
                depth: create_depth_texture(config.width, config.height),
                angle: 0,
                auto_rotate: true,
            },
        }
    }

    /// The state of the client, which is well-formed at any time.
    pub fn state(&self) -> (r: Client3dState)
        ensures
            r == self@,
            r.wf(),
    {
        proof {
            use_type_invariant(self);
        }
        self.state
    }

    /// The size that the client was last given.
    pub fn size(&self) -> (r: Size)
        ensures
            r == self@.size,
    {
        self.state.size
    }

    /// The angle of the cube, in hundredths of a radian.
    pub fn angle(&self) -> (r: u64)
        ensures
            r == self@.angle,
    {
        self.state.angle
    }

    /// Whether the cube turns with every frame.
    pub fn auto_rotate(&self) -> (r: bool)
        ensures
            r == self@.auto_rotate,
    {
        self.state.auto_rotate
    }

    /// The extent of the depth texture, which is that of the surface with
    /// every side raised to one at least.
    pub fn depth_size(&self) -> (r: Extent3d)
        ensures
            r == self@.depth.size,
            r == depth_extent(self@.config.width, self@.config.height),
    {
        proof {
            use_type_invariant(self);
        }
        self.state.depth.size
    }

    /// Puts the cube back to rest. Nothing else changes.
    pub fn reset(&mut self)
        ensures
            final(self)@ == (Client3dState { angle: 0, ..old(self)@ }),
    {
        proof {
            use_type_invariant(&*self);
        }
        self.state.angle = 0;
    }

    /// Makes the cube turn with every frame, or stand. Nothing else changes.
    pub fn set_auto_rotate(&mut self, enabled: bool)
        ensures
            final(self)@ == (Client3dState { auto_rotate: enabled, ..old(self)@ }),
    {
        proof {
            use_type_invariant(&*self);
        }
        self.state.auto_rotate = enabled;
    }

    /// Takes a new size. Where a side is zero this does nothing at all.
    /// Otherwise the size and the surface configuration take the new sides,
    /// the depth texture is described anew for them, and the caller is told
    /// to configure the surface and to replace the depth texture.
    pub fn resize(&mut self, width: u32, height: u32) -> (r: ResizeAction3d)
        ensures
            final(self)@ == old(self)@.resized(width, height),
            width == 0 || height == 0 ==> final(self)@ == old(self)@ && r == ResizeAction3d::Ignore,
            width > 0 && height > 0 ==> r == (ResizeAction3d::Reconfigure {
                config: old(self)@.resized_config(width, height),
                depth: depth_texture(width, height),
            }) && final(self)@.depth.size == (Extent3d {
                width,
                height,
                depth_or_array_layers: 1,
            }),
            r matches ResizeAction3d::Reconfigure { config, depth } ==> config.width > 0
                && config.height > 0 && depth.size.width == config.width && depth.size.height
                == config.height,
    {
        proof {
            use_type_invariant(&*self);
        }
        if (Size { width, height }).is_drawable() {
            let config = SurfaceConfig { width, height, ..self.state.config };
            let depth = create_depth_texture(width, height);
            self.state = Client3dState {
                config,
                size: Size { width, height },
                depth,
                ..self.state
            };
            ResizeAction3d::Reconfigure { config, depth }
        } else {
            ResizeAction3d::Ignore
        }
    }

    /// Begins a frame. Where the cube turns, its angle moves one step on,
    /// before anything is asked of the surface. The frame that comes back
    /// holds what the transform is computed from, and the pass that draws all
    /// indices of the cube.
    pub fn draw(&mut self) -> (r: Frame3d)
        ensures
            final(self)@ == old(self)@.advanced(),
            r.uniforms == final(self)@.uniforms(),
            r.pass.clears_depth,
            r.pass.commands@ == commands_3d(CUBE_INDEX_COUNT),
    {
        proof {
            use_type_invariant(&*self);
        }
        if self.state.auto_rotate && self.state.angle < u64::MAX {
            self.state.angle = self.state.angle + 1;
        }
        let uniforms = FrameUniforms {
            angle: self.state.angle,
            aspect_width: clamp_dimension(self.state.config.width),
            aspect_height: clamp_dimension(self.state.config.height),
        };
        Frame3d { uniforms, pass: render_pass_3d(self.state.index_count) }
    }
}

/// A resize with a side of zero changes nothing, whatever the other side.
pub proof fn resize_to_nothing_is_ignored(s: Client3dState, width: u32, height: u32)
    requires
        width == 0 || height == 0,
    ensures
        s.resized(width, height) == s,
{
}

/// After a resize to a size without a zero side the depth texture has that
/// size, and the state is well-formed again.
pub proof fn resize_keeps_depth_in_step(s: Client3dState, width: u32, height: u32)
    requires
        s.wf(),
        width > 0,
        height > 0,
    ensures
        s.resized(width, height).wf(),
        s.resized(width, height).depth.size.width == width,
        s.resized(width, height).depth.size.height == height,
        s.resized(width, height).depth.size == depth_extent(width, height),
        s.resized(width, height).size == (Size { width, height }),
{
}

/// A turning cube is `n` steps further after `n` frames, as far as the
/// counter goes; a standing cube is where it was. Nothing else changes.
pub proof fn frames_add_up(s: Client3dState, n: nat)
    ensures
        s.auto_rotate ==> s.advanced_by(n) == (Client3dState {
            angle: if s.angle + n <= u64::MAX { (s.angle + n) as u64 } else { u64::MAX },
            ..s
        }),
        !s.auto_rotate ==> s.advanced_by(n) == s,
        s.wf() ==> s.advanced_by(n).wf(),
    decreases n,
{
    if n > 0 {
        frames_add_up(s, (n - 1) as nat);
    }
}

} // verus!
