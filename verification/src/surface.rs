use vstd::prelude::*;
use crate::error::CanvasError;
use crate::size::Size;

verus! {

/// `wgpu::TextureFormat`: the pixel format of a texture, carried through as
/// the GPU layer gave it.
#[verifier::external_type_specification]
#[verifier::external_body]
pub struct ExTextureFormat(wgpu::TextureFormat);

/// `wgpu::PresentMode`: how frames are handed to the display, carried
/// through as the GPU layer gave it.
#[verifier::external_type_specification]
#[verifier::external_body]
pub struct ExPresentMode(wgpu::PresentMode);

/// `wgpu::CompositeAlphaMode`: how the surface is blended with what lies
/// behind it, carried through as the GPU layer gave it.
#[verifier::external_type_specification]
#[verifier::external_body]
pub struct ExCompositeAlphaMode(wgpu::CompositeAlphaMode);

/// What `wgpu::TextureFormat::is_srgb` answers for a format.
pub uninterp spec fn is_srgb(format: wgpu::TextureFormat) -> bool;

/// Calls `wgpu::TextureFormat::is_srgb`, which compares the format with its
/// own linear counterpart: the answer depends on the format alone.
#[verifier::external_body]
fn format_is_srgb(format: &wgpu::TextureFormat) -> (r: bool)
    ensures
        r == is_srgb(*format),
{
    format.is_srgb()
}

/// Frame latency that every surface is configured with.
pub const FRAME_LATENCY: u32 = 2;

/// `idx` is the position of the preferred entry of a capability list whose
/// entries are flagged sRGB or not: the first flagged one, or the first entry
/// when none is flagged.
pub open spec fn is_preferred(flags: Seq<bool>, idx: int) -> bool {
    &&& 0 <= idx < flags.len()
    &&& forall|j: int| 0 <= j < idx ==> !flags[j]
    &&& (flags[idx] || (idx == 0 && forall|j: int| 0 <= j < flags.len() ==> !flags[j]))
}

/// The sRGB flags of a list of formats, in order.
pub open spec fn srgb_flags(formats: Seq<wgpu::TextureFormat>) -> Seq<bool> {
    Seq::new(formats.len(), |i: int| is_srgb(formats[i]))
}

/// Picks the position of the preferred surface format from the sRGB flags of
/// the supported formats.
pub fn preferred_format_index(flags: &Vec<bool>) -> (idx: usize)
    requires
        flags@.len() > 0,
    ensures
        is_preferred(flags@, idx as int),
{
    let mut i: usize = 0;
    while i < flags.len()
        invariant
            i <= flags@.len(),
            forall|j: int| 0 <= j < i ==> !flags@[j],
        decreases flags@.len() - i,
    {
        if flags[i] {
            return i;
        }
        i += 1;
    }
    0
}

/// Configuration of a surface: what the surface is configured with, as plain
/// values and values of the GPU layer that are carried through.
#[derive(Clone, Copy, Debug)]
pub struct SurfaceConfig {
    pub format: wgpu::TextureFormat,
    pub width: u32,
    pub height: u32,
    pub present_mode: wgpu::PresentMode,
    pub alpha_mode: wgpu::CompositeAlphaMode,
    pub desired_maximum_frame_latency: u32,
}

/// Chooses the configuration of a surface from its capabilities: the first
/// sRGB format, or the first format where none is sRGB; the first present
/// mode and the first alpha mode; the given size; a frame latency of two.
pub fn surface_config_for_size(
    formats: &Vec<wgpu::TextureFormat>,
    present_modes: &Vec<wgpu::PresentMode>,
    alpha_modes: &Vec<wgpu::CompositeAlphaMode>,
    size: Size,
) -> (r: (SurfaceConfig, wgpu::TextureFormat))
    requires
        formats@.len() > 0,
        present_modes@.len() > 0,
        alpha_modes@.len() > 0,
    ensures
        exists|idx: int| #[trigger] is_preferred(srgb_flags(formats@), idx) && r.1 == formats@[idx],
        r.0.format == r.1,
        r.0.width == size.width,
        r.0.height == size.height,
        r.0.present_mode == present_modes@[0],
        r.0.alpha_mode == alpha_modes@[0],
        r.0.desired_maximum_frame_latency == FRAME_LATENCY,
{
    let mut flags: Vec<bool> = Vec::new();
    let mut i: usize = 0;
    while i < formats.len()
        invariant
            i <= formats@.len(),
            flags@.len() == i,
            forall|j: int| 0 <= j < i ==> flags@[j] == is_srgb(formats@[j]),
        decreases formats@.len() - i,
    {
        flags.push(format_is_srgb(&formats[i]));
        i += 1;
    }
    assert(flags@ =~= srgb_flags(formats@));
    let idx = preferred_format_index(&flags);
    let config = SurfaceConfig {
        format: formats[idx],
        width: size.width,
        height: size.height,
        present_mode: present_modes[0],
        alpha_mode: alpha_modes[0],
        desired_maximum_frame_latency: FRAME_LATENCY,
    };
    (config, formats[idx])
}

/// A step of bringing the GPU up for a canvas that can fail, in the order in
/// which the steps are taken. Once the last of them went well, the surface
/// is configured and the client is built, which cannot fail.
#[derive(Clone, Copy, Debug, PartialEq, Eq, Structural)]
pub enum InitStage {
    /// Create an instance of the browser's GPU backend.
    CreateInstance,
    /// Bind a surface to the canvas.
    CreateSurface,
    /// Ask for an adapter that is compatible with the surface.
    RequestAdapter,
    /// Ask the adapter for a device and its queue.
    RequestDevice,
}

/// The stage that follows a stage that went well, if one is left.
pub open spec fn stage_after(stage: InitStage) -> Option<InitStage> {
    match stage {
        InitStage::CreateInstance => Some(InitStage::CreateSurface),
        InitStage::CreateSurface => Some(InitStage::RequestAdapter),
        InitStage::RequestAdapter => Some(InitStage::RequestDevice),
        InitStage::RequestDevice => None,
    }
}

/// The error that ends the construction where a stage failed with `detail`.
/// A missing backend has no detail to it.
pub open spec fn stage_failure(stage: InitStage, detail: String) -> CanvasError {
    match stage {
        InitStage::CreateInstance => CanvasError::WebGpuNotSupported,
        InitStage::CreateSurface => CanvasError::SurfaceCreate(detail),
        InitStage::RequestAdapter => CanvasError::AdapterRequest(detail),
        InitStage::RequestDevice => CanvasError::DeviceRequest(detail),
    }
}

/// Moves the construction on by the outcome of the stage that was just
/// tried. Where it went well, the next stage comes back, or `None` after the
/// last. Where it failed, the error of that stage comes back, which carries
/// the detail and ends the construction.
pub fn advance_init(stage: InitStage, outcome: Result<(), String>) -> (r: Result<
    Option<InitStage>,
    CanvasError,
>)
    ensures
        match outcome {
            Ok(_) => r == Ok::<Option<InitStage>, CanvasError>(stage_after(stage)),
            Err(detail) => r == Err::<Option<InitStage>, CanvasError>(
                stage_failure(stage, detail),
            ),
        },
{
    match outcome {
        Ok(_) => Ok(
            match stage {
                InitStage::CreateInstance => Some(InitStage::CreateSurface),
                InitStage::CreateSurface => Some(InitStage::RequestAdapter),
                InitStage::RequestAdapter => Some(InitStage::RequestDevice),
                InitStage::RequestDevice => None,
            },
        ),
        Err(detail) => Err(
            match stage {
                InitStage::CreateInstance => CanvasError::WebGpuNotSupported,
                InitStage::CreateSurface => CanvasError::SurfaceCreate(detail),
                InitStage::RequestAdapter => CanvasError::AdapterRequest(detail),
                InitStage::RequestDevice => CanvasError::DeviceRequest(detail),
            },
        ),
    }
}

/// Position of a stage in the order of the construction.
pub open spec fn stage_rank(stage: InitStage) -> nat {
    match stage {
        InitStage::CreateInstance => 0,
        InitStage::CreateSurface => 1,
        InitStage::RequestAdapter => 2,
        InitStage::RequestDevice => 3,
    }
}

/// Two different stages end the construction with two different errors.
pub proof fn failures_are_told_apart(a: InitStage, b: InitStage, detail: String)
    requires
        a != b,
    ensures
        stage_failure(a, detail) != stage_failure(b, detail),
{
}

/// Every stage that went well leads to the stage that is next in order, so
/// that the construction is through after four steps at most.
pub proof fn stages_run_in_order(stage: InitStage)
    ensures
        match stage_after(stage) {
            Some(next) => stage_rank(next) == stage_rank(stage) + 1,
            None => stage_rank(stage) == 3,
        },
{
}

} // verus!
