use canvas::CanvasError;

#[test]
fn message_without_detail() {
    assert_eq!(CanvasError::WebGpuNotSupported.message(), "WebGPU not supported");
}

#[test]
fn message_of_surface_create() {
    assert_eq!(
        CanvasError::SurfaceCreate("canvas is gone".to_string()).message(),
        "Failed to create surface: canvas is gone"
    );
}

#[test]
fn message_of_adapter_request() {
    assert_eq!(
        CanvasError::AdapterRequest("NotFound".to_string()).message(),
        "Failed to request adapter: NotFound"
    );
}

#[test]
fn message_of_device_request() {
    assert_eq!(
        CanvasError::DeviceRequest("limits".to_string()).message(),
        "Failed to request device: limits"
    );
}

#[test]
fn message_of_get_current_texture() {
    assert_eq!(
        CanvasError::GetCurrentTexture("Timeout".to_string()).message(),
        "Failed to get current texture: Timeout"
    );
}

#[test]
fn message_of_surface_configure() {
    assert_eq!(
        CanvasError::SurfaceConfigure("".to_string()).message(),
        "Failed to configure surface: "
    );
}
