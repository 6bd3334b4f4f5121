//! Camera: the data types of a capture session, and the conversions
//! between them and the numbers that camera drivers use.

pub mod none;
pub mod sensor;
pub mod types;
pub mod v4l2;

pub use types::{
    CameraConfig, CameraError, CameraResult, CameraSettings, FrameBuffer, PixelFormat, Resolution,
};
