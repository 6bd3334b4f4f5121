//! The camera through a sensor driver that runs beside this one: what
//! its return codes mean.

use vstd::prelude::*;
use crate::camera::types::{CameraError, CameraResult, CameraSettings};
use crate::errno::{error_number, error_of, is_error, reports, Errno};

verus! {

/// What a return code of the sensor driver means when the camera is
/// initialized: 0 is success; the errors already in progress, no such
/// file, no such device, not supported and out of memory have a meaning
/// of their own; any other code is a system error with its number.
pub open spec fn initialize_outcome(rc: i32, codes: Errno) -> CameraResult<()> {
    if rc == 0 {
        Ok(())
    } else if reports(rc, codes.ealready) {
        Err(CameraError::AlreadyInitialized)
    } else if reports(rc, codes.enoent) || reports(rc, codes.enodev) {
        Err(CameraError::DeviceNotFound)
    } else if reports(rc, codes.enotsup) {
        Err(CameraError::NotSupported)
    } else if reports(rc, codes.enomem) {
        Err(CameraError::BufferAllocationFailed)
    } else {
        Err(CameraError::SystemError(error_number(rc)))
    }
}

/// How initializing the camera ended.
pub fn initialize_result(rc: i32, codes: &Errno) -> (done: CameraResult<()>)
    ensures
        done == initialize_outcome(rc, *codes),
{
    if rc == 0 {
        Ok(())
    } else if is_error(rc, codes.ealready) {
        Err(CameraError::AlreadyInitialized)
    } else if is_error(rc, codes.enoent) || is_error(rc, codes.enodev) {
        Err(CameraError::DeviceNotFound)
    } else if is_error(rc, codes.enotsup) {
        Err(CameraError::NotSupported)
    } else if is_error(rc, codes.enomem) {
        Err(CameraError::BufferAllocationFailed)
    } else {
        Err(CameraError::SystemError(error_of(rc)))
    }
}

/// How a request to the sensor ended that needs the camera initialized:
/// 0 is success; no device means that it was not initialized; any other
/// code is a system error with its number.
pub fn request_result(rc: i32, codes: &Errno) -> (done: CameraResult<()>)
    ensures
        done == if rc == 0 {
            Ok::<(), CameraError>(())
        } else if reports(rc, codes.enodev) {
            Err::<(), CameraError>(CameraError::NotInitialized)
        } else {
            Err::<(), CameraError>(CameraError::SystemError(error_number(rc)))
        },
{
    if rc == 0 {
        Ok(())
    } else if is_error(rc, codes.enodev) {
        Err(CameraError::NotInitialized)
    } else {
        Err(CameraError::SystemError(error_of(rc)))
    }
}

/// The error of a capture that failed with `rc`: not initialized where
/// there is no device, a timeout where the capture timed out, a failed
/// capture otherwise.
pub fn capture_error(rc: i32, codes: &Errno) -> (error: CameraError)
    ensures
        error == if reports(rc, codes.enodev) {
            CameraError::NotInitialized
        } else if reports(rc, codes.etimedout) {
            CameraError::Timeout
        } else {
            CameraError::CaptureFailed
        },
{
    if is_error(rc, codes.enodev) {
        CameraError::NotInitialized
    } else if is_error(rc, codes.etimedout) {
        CameraError::Timeout
    } else {
        CameraError::CaptureFailed
    }
}

/// The settings of a sensor that reports brightness, contrast and
/// saturation only: the automatic features count as on, mirror and flip
/// as off.
pub fn sensor_settings(brightness: i8, contrast: i8, saturation: i8) -> (settings: CameraSettings)
    ensures
        settings == (CameraSettings { brightness, contrast, saturation, ..auto_settings() }),
{
    CameraSettings {
        brightness,
        contrast,
        saturation,
        awb: true,
        awb_gain: true,
        aec: true,
        ae_level: 0,
        agc: true,
        gainceiling: 0,
        hmirror: false,
        vflip: false,
    }
}

/// The settings with the automatic features on and everything else zero or off.
pub open spec fn auto_settings() -> CameraSettings {
    CameraSettings {
        brightness: 0,
        contrast: 0,
        saturation: 0,
        awb: true,
        awb_gain: true,
        aec: true,
        ae_level: 0,
        agc: true,
        gainceiling: 0,
        hmirror: false,
        vflip: false,
    }
}

} // verus!
