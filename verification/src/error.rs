use vstd::prelude::*;
use vstd::string::StringExecFns;

verus! {

/// What can go wrong between the library and the GPU. Each variant but the
/// first carries the detail that the GPU layer reported.
#[derive(Clone, Debug, PartialEq, Eq)]
pub enum CanvasError {
    /// The GPU backend is not available at all.
    WebGpuNotSupported,
    /// No surface could be bound to the canvas.
    SurfaceCreate(String),
    /// No adapter is compatible with the surface.
    AdapterRequest(String),
    /// The adapter could not produce a device.
    DeviceRequest(String),
    /// The surface handed out no texture for the frame.
    GetCurrentTexture(String),
    /// The surface refused its configuration.
    SurfaceConfigure(String),
}

impl CanvasError {
    /// The text of an error: a fixed sentence, followed by the detail where
    /// the variant carries one.
    pub open spec fn message_text(self) -> Seq<char> {
        match self {
            CanvasError::WebGpuNotSupported => "WebGPU not supported"@,
            CanvasError::SurfaceCreate(detail) => "Failed to create surface: "@ + detail@,
            CanvasError::AdapterRequest(detail) => "Failed to request adapter: "@ + detail@,
            CanvasError::DeviceRequest(detail) => "Failed to request device: "@ + detail@,
            CanvasError::GetCurrentTexture(detail) => "Failed to get current texture: "@ + detail@,
            CanvasError::SurfaceConfigure(detail) => "Failed to configure surface: "@ + detail@,
        }
    }

    /// Renders the error as text for a log line or for the host.
    pub fn message(&self) -> (r: String)
        ensures
            r@ == self.message_text(),
    {
        match self {
            CanvasError::WebGpuNotSupported => String::from_str("WebGPU not supported"),
            CanvasError::SurfaceCreate(detail) => String::from_str(
                "Failed to create surface: ",
            ).concat(detail.as_str()),
            CanvasError::AdapterRequest(detail) => String::from_str(
                "Failed to request adapter: ",
            ).concat(detail.as_str()),
            CanvasError::DeviceRequest(detail) => String::from_str(
                "Failed to request device: ",
            ).concat(detail.as_str()),
            CanvasError::GetCurrentTexture(detail) => String::from_str(
                "Failed to get current texture: ",
            ).concat(detail.as_str()),
            CanvasError::SurfaceConfigure(detail) => String::from_str(
                "Failed to configure surface: ",
            ).concat(detail.as_str()),
        }
    }
}

} // verus!
