use vstd::prelude::*;
use crate::frame::{RenderPass, commands_2d, render_pass_2d};
use crate::mesh::TRIANGLE_VERTEX_COUNT;
use crate::size::Size;
use crate::surface::SurfaceConfig;

verus! {

/// What a 2D client knows between two calls.
#[derive(Clone, Copy, Debug)]
pub struct ClientState {
    pub config: SurfaceConfig,
    pub size: Size,
    pub num_vertices: u32,
}

/// What the caller does to the GPU after a call of `resize`.
#[derive(Clone, Copy, Debug)]
pub enum ResizeAction {
    /// Nothing: a side was zero.
    Ignore,
    /// Configure the surface anew.
    Reconfigure { config: SurfaceConfig },
}

impl ClientState {
    /// The size and the surface agree, and the draw call covers the triangle.
    pub open spec fn wf(self) -> bool {
        &&& self.size.width == self.config.width
        &&& self.size.height == self.config.height
        &&& self.num_vertices == TRIANGLE_VERTEX_COUNT
    }

    /// The state of a client that was just created on a configured surface.
    pub open spec fn initial(config: SurfaceConfig) -> Self {
        ClientState {
            config,
            size: Size { width: config.width, height: config.height },
            num_vertices: TRIANGLE_VERTEX_COUNT,
        }
    }

    /// The surface configuration after a resize that is not ignored.
    pub open spec fn resized_config(self, width: u32, height: u32) -> SurfaceConfig {
        SurfaceConfig { width, height, ..self.config }
    }

    /// The state after `resize`: unchanged where a side is zero.
    pub open spec fn resized(self, width: u32, height: u32) -> Self {
        if (Size { width, height }).drawable() {
            ClientState {
                config: self.resized_config(width, height),
                size: Size { width, height },
                ..self
            }
        } else {
            self
        }
    }
}

/// The orchestration state of the 2D renderer: one triangle on a surface.
/// The fields are the client's own, so every client that exists is
/// well-formed.
#[derive(Debug)]
pub struct Client {
    state: ClientState,
}

impl View for Client {
    type V = ClientState;

    closed spec fn view(&self) -> ClientState {
        self.state
    }
}

impl Client {
    #[verifier::type_invariant]
    spec fn well_formed(self) -> bool {
        self.state.wf()
    }

    /// Creates the client for a surface that was configured with `config`.
    pub fn new(config: SurfaceConfig) -> (r: Self)
        ensures
            r@ == ClientState::initial(config),
            r@.wf(),
    {
        Client {
            state: ClientState {
                config,
                size: Size { width: config.width, height: config.height },
                num_vertices: TRIANGLE_VERTEX_COUNT,
            },
        }
    }

    /// The state of the client, which is well-formed at any time.
    pub fn state(&self) -> (r: ClientState)
        ensures
            r == self@,
            r.wf(),
    {
        proof {
            use_type_invariant(self);
        }
        self.state
    }

    /// The size that the client was last given.
    pub fn size(&self) -> (r: Size)
        ensures
            r == self@.size,
    {
        self.state.size
    }

    /// Takes a new size. Where a side is zero this does nothing at all.
    /// Otherwise the size and the surface configuration take the new sides,
    /// and the caller is told to configure the surface.
    pub fn resize(&mut self, width: u32, height: u32) -> (r: ResizeAction)
        ensures
            final(self)@ == old(self)@.resized(width, height),
            width == 0 || height == 0 ==> final(self)@ == old(self)@ && r == ResizeAction::Ignore,
            width > 0 && height > 0 ==> r == (ResizeAction::Reconfigure {
                config: old(self)@.resized_config(width, height),
            }),
            r matches ResizeAction::Reconfigure { config } ==> config.width > 0 && config.height
                > 0,
    {
        proof {
            use_type_invariant(&*self);
        }
        if (Size { width, height }).is_drawable() {
            let config = SurfaceConfig { width, height, ..self.state.config };
            self.state = ClientState { config, size: Size { width, height }, ..self.state };
            ResizeAction::Reconfigure { config }
        } else {
            ResizeAction::Ignore
        }
    }

    /// Begins a frame, which changes nothing in the client: the pass that
    /// comes back draws the three vertices of the triangle, without indices
    /// and without a depth buffer.
    pub fn draw(&mut self) -> (r: RenderPass)
        ensures
            final(self)@ == old(self)@,
            !r.clears_depth,
            r.commands@ == commands_2d(TRIANGLE_VERTEX_COUNT),
    {
        proof {
            use_type_invariant(&*self);
        }
        render_pass_2d(self.state.num_vertices)
    }
}

/// A resize with a side of zero changes nothing, whatever the other side.
pub proof fn resize_to_nothing_is_ignored(s: ClientState, width: u32, height: u32)
    requires
        width == 0 || height == 0,
    ensures
        s.resized(width, height) == s,
{
}

/// A resize to a size without a zero side leaves a well-formed state of
/// that size.
pub proof fn resize_takes_the_size(s: ClientState, width: u32, height: u32)
    requires
        s.wf(),
        width > 0,
        height > 0,
    ensures
        s.resized(width, height).wf(),
        s.resized(width, height).size == (Size { width, height }),
        s.resized(width, height).config.width == width,
        s.resized(width, height).config.height == height,
{
}

} // verus!
