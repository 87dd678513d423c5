//! A hardware-agnostic interface to camera backends, so that other backends
//! can be loaded without changing the code around them.
use vstd::prelude::*;

verus! {

/// A requested camera configuration.
pub struct CameraConfig {}

/// Error codes shared across camera backends.
pub enum CameraError {
    /// The camera target is not known.
    ReceiverNotFound(String),
    /// A general error occurred when initialising a camera.
    FailedInitialisation(String),
    /// Failed to capture an image.
    FailedToCapture,
    /// Failed to initialise a live buffer for video or streaming.
    FailedToBurstCapture,
    /// An invalid camera mode was specified.
    InvalidCameraMode(String, String),
}

/// A hardware-agnostic camera.
pub trait Camera {
    /// Auto-configure the device, optionally guided by a desired `target`
    /// configuration, which is not enforced.
    fn auto_config(&mut self, target: Option<CameraConfig>) -> Result<(), CameraError>;

    /// Capture an image into memory.
    fn capture_image(&self) -> Result<(), CameraError>;

    /// Capture a short burst of video to memory.
    fn capture_video(&self, fps: u32, time: u32) -> Result<(), CameraError>;

    /// Initialise the liveview stream at a frame rate.
    fn init_liveview(&self, fps: u32) -> Result<(), CameraError>;

    /// Stop the liveview stream.
    fn stop_liveview(&self) -> Result<(), CameraError>;

    /// Take a data fragment from the liveview buffer.
    fn get_liveview_chunk(&self);
}

/// A V4L2 camera backend.
pub struct VLCamera {}

} // verus!
