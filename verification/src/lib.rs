//! Orchestration core of a GPU-backed canvas renderer.
//!
//! The crate holds the decisions of the renderer as verified functions on
//! plain values: which surface format is negotiated, how the depth buffer
//! follows the surface, what a frame encodes and in which order, and how the
//! two clients react to `resize` and `draw`. The caller owns the GPU handles,
//! performs the actions that the library returns and reports back what came
//! of them.

pub mod client;
pub mod client3d;
pub mod config;
pub mod error;
pub mod frame;
pub mod mesh;
pub mod pipeline;
pub mod size;
pub mod surface;

pub use crate::client::Client;
pub use crate::client3d::Client3d;
pub use crate::config::{AppConfig, WebGpuConfig};
pub use crate::error::CanvasError;
pub use crate::size::Size;
