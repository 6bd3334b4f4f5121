//! The camera of a platform that has none: every operation reports that
//! it is not supported.

use vstd::prelude::*;
use crate::camera::types::{CameraConfig, CameraError, CameraResult, CameraSettings, FrameBuffer};

verus! {

/// Initialize the camera: not supported.
pub fn camera_initialize(config: CameraConfig) -> (done: CameraResult<()>)
    ensures
        done == Err::<(), CameraError>(CameraError::NotSupported),
{
    Err(CameraError::NotSupported)
}

/// Deinitialize the camera: not supported.
pub fn camera_deinitialize() -> (done: CameraResult<()>)
    ensures
        done == Err::<(), CameraError>(CameraError::NotSupported),
{
    Err(CameraError::NotSupported)
}

/// Capture a frame: not supported.
pub fn camera_capture_frame() -> (frame: CameraResult<FrameBuffer>)
    ensures
        frame is Err,
        frame->Err_0 == CameraError::NotSupported,
{
    Err(CameraError::NotSupported)
}

/// Get current camera settings: not supported.
pub fn camera_get_settings() -> (settings: CameraResult<CameraSettings>)
    ensures
        settings is Err,
        settings->Err_0 == CameraError::NotSupported,
{
    Err(CameraError::NotSupported)
}

/// Set camera settings: not supported.
pub fn camera_set_settings(settings: CameraSettings) -> (done: CameraResult<()>)
    ensures
        done == Err::<(), CameraError>(CameraError::NotSupported),
{
    Err(CameraError::NotSupported)
}

/// Check if camera is initialized: never.
pub fn camera_is_initialized() -> (initialized: bool)
    ensures
        !initialized,
{
    false
}

} // verus!
