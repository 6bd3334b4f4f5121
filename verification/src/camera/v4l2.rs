//! Numbers of camera drivers: V4L2 pixel format codes, the presets of a
//! sensor driver, control values, frame timestamps.

use vstd::prelude::*;
use crate::camera::types::{clamped, CameraError, PixelFormat, Resolution};

verus! {

/// V4L2 pixel format 'MJPG'.
pub const V4L2_PIX_FMT_MJPEG: u32 = 0x47504A4D;

/// V4L2 pixel format 'JPEG'.
pub const V4L2_PIX_FMT_JPEG: u32 = 0x4745504A;

/// V4L2 pixel format 'YUYV'.
pub const V4L2_PIX_FMT_YUYV: u32 = 0x56595559;

/// V4L2 pixel format 'RGBP'.
pub const V4L2_PIX_FMT_RGB565: u32 = 0x50424752;

/// V4L2 pixel format 'RGB3'.
pub const V4L2_PIX_FMT_RGB24: u32 = 0x33424752;

/// V4L2 pixel format 'GREY'.
pub const V4L2_PIX_FMT_GREY: u32 = 0x59455247;

/// V4L2 pixel format 'NV12'.
pub const V4L2_PIX_FMT_NV12: u32 = 0x3231564E;

/// The V4L2 code that a pixel format is asked for with.
pub open spec fn v4l2_code(format: PixelFormat) -> u32 {
    match format {
        PixelFormat::Jpeg => V4L2_PIX_FMT_MJPEG,
        PixelFormat::Rgb565 => V4L2_PIX_FMT_RGB565,
        PixelFormat::Rgb888 => V4L2_PIX_FMT_RGB24,
        PixelFormat::Yuv422 => V4L2_PIX_FMT_YUYV,
        PixelFormat::Grayscale => V4L2_PIX_FMT_GREY,
    }
}

/// The pixel format that frames of a V4L2 code are handed out as: both
/// JPEG codes are JPEG, NV12 and every unknown code count as YUV422.
pub open spec fn format_of_code(code: u32) -> PixelFormat {
    if code == V4L2_PIX_FMT_MJPEG || code == V4L2_PIX_FMT_JPEG {
        PixelFormat::Jpeg
    } else if code == V4L2_PIX_FMT_RGB565 {
        PixelFormat::Rgb565
    } else if code == V4L2_PIX_FMT_RGB24 {
        PixelFormat::Rgb888
    } else if code == V4L2_PIX_FMT_GREY {
        PixelFormat::Grayscale
    } else {
        PixelFormat::Yuv422
    }
}

/// The V4L2 code that a pixel format is asked for with.
pub fn pixel_format_to_v4l2(fmt: PixelFormat) -> (code: u32)
    ensures
        code == v4l2_code(fmt),
{
    match fmt {
        PixelFormat::Jpeg => V4L2_PIX_FMT_MJPEG,
        PixelFormat::Rgb565 => V4L2_PIX_FMT_RGB565,
        PixelFormat::Rgb888 => V4L2_PIX_FMT_RGB24,
        PixelFormat::Yuv422 => V4L2_PIX_FMT_YUYV,
        PixelFormat::Grayscale => V4L2_PIX_FMT_GREY,
    }
}

/// The pixel format that frames of a V4L2 code are handed out as.
pub fn v4l2_to_pixel_format(v4l2_fmt: u32) -> (format: PixelFormat)
    ensures
        format == format_of_code(v4l2_fmt),
{
    if v4l2_fmt == V4L2_PIX_FMT_MJPEG || v4l2_fmt == V4L2_PIX_FMT_JPEG {
        PixelFormat::Jpeg
    } else if v4l2_fmt == V4L2_PIX_FMT_RGB565 {
        PixelFormat::Rgb565
    } else if v4l2_fmt == V4L2_PIX_FMT_RGB24 {
        PixelFormat::Rgb888
    } else if v4l2_fmt == V4L2_PIX_FMT_GREY {
        PixelFormat::Grayscale
    } else {
        PixelFormat::Yuv422
    }
}

/// A format that is asked for comes back as itself.
pub proof fn lemma_pixel_format_round_trip(format: PixelFormat)
    ensures
        format_of_code(v4l2_code(format)) == format,
{
}

/// The V4L2 codes that are tried in turn when a device is set up: the
/// one asked for, then NV12, YUYV, MJPEG and RGB24.
pub fn formats_to_try(format: PixelFormat) -> (codes: [u32; 5])
    ensures
        codes@ == seq![
            v4l2_code(format),
            V4L2_PIX_FMT_NV12,
            V4L2_PIX_FMT_YUYV,
            V4L2_PIX_FMT_MJPEG,
            V4L2_PIX_FMT_RGB24,
        ],
{
    let codes: [u32; 5] = [
        pixel_format_to_v4l2(format),
        V4L2_PIX_FMT_NV12,
        V4L2_PIX_FMT_YUYV,
        V4L2_PIX_FMT_MJPEG,
        V4L2_PIX_FMT_RGB24,
    ];
    assert(codes@ =~= seq![
        v4l2_code(format),
        V4L2_PIX_FMT_NV12,
        V4L2_PIX_FMT_YUYV,
        V4L2_PIX_FMT_MJPEG,
        V4L2_PIX_FMT_RGB24,
    ]);
    codes
}

/// The number of a resolution preset: its place in the list of presets,
/// from 0 for the smallest.
pub open spec fn preset_number(resolution: Resolution) -> i32 {
    match resolution {
        Resolution::Qqvga => 0,
        Resolution::Qcif => 1,
        Resolution::Hqvga => 2,
        Resolution::Qvga => 3,
        Resolution::Cif => 4,
        Resolution::Hvga => 5,
        Resolution::Vga => 6,
        Resolution::Svga => 7,
        Resolution::Xga => 8,
        Resolution::Hd => 9,
        Resolution::Sxga => 10,
        Resolution::Uxga => 11,
    }
}

/// The number of a pixel format: its place in the list of formats.
pub open spec fn format_number(format: PixelFormat) -> i32 {
    match format {
        PixelFormat::Jpeg => 0,
        PixelFormat::Rgb565 => 1,
        PixelFormat::Rgb888 => 2,
        PixelFormat::Yuv422 => 3,
        PixelFormat::Grayscale => 4,
    }
}

/// The pixel format of a number; a number that is none counts as JPEG.
pub open spec fn format_of_number(number: i32) -> PixelFormat {
    if number == 1 {
        PixelFormat::Rgb565
    } else if number == 2 {
        PixelFormat::Rgb888
    } else if number == 3 {
        PixelFormat::Yuv422
    } else if number == 4 {
        PixelFormat::Grayscale
    } else {
        PixelFormat::Jpeg
    }
}

/// The number of a resolution preset.
pub fn resolution_to_int(res: Resolution) -> (number: i32)
    ensures
        number == preset_number(res),
{
    match res {
        Resolution::Qqvga => 0,
        Resolution::Qcif => 1,
        Resolution::Hqvga => 2,
        Resolution::Qvga => 3,
        Resolution::Cif => 4,
        Resolution::Hvga => 5,
        Resolution::Vga => 6,
        Resolution::Svga => 7,
        Resolution::Xga => 8,
        Resolution::Hd => 9,
        Resolution::Sxga => 10,
        Resolution::Uxga => 11,
    }
}

/// The number of a pixel format.
pub fn format_to_int(fmt: PixelFormat) -> (number: i32)
    ensures
        number == format_number(fmt),
{
    match fmt {
        PixelFormat::Jpeg => 0,
        PixelFormat::Rgb565 => 1,
        PixelFormat::Rgb888 => 2,
        PixelFormat::Yuv422 => 3,
        PixelFormat::Grayscale => 4,
    }
}

/// The pixel format of a number.
pub fn int_to_format(val: i32) -> (format: PixelFormat)
    ensures
        format == format_of_number(val),
{
    if val == 1 {
        PixelFormat::Rgb565
    } else if val == 2 {
        PixelFormat::Rgb888
    } else if val == 3 {
        PixelFormat::Yuv422
    } else if val == 4 {
        PixelFormat::Grayscale
    } else {
        PixelFormat::Jpeg
    }
}

/// A format's number names that format.
pub proof fn lemma_format_number_round_trip(format: PixelFormat)
    ensures
        format_of_number(format_number(format)) == format,
{
}

/// A control value of the device as a setting: brought into the range
/// of a signed byte.
pub fn control_to_setting(value: i32) -> (setting: i8)
    ensures
        setting == clamped(value as int, -128, 127),
{
    if value < -128 {
        -128
    } else if value > 127 {
        127
    } else {
        value as i8
    }
}

/// A frame's timestamp in microseconds from the seconds and microseconds
/// of its capture time, where that fits 64 bits.
pub fn frame_timestamp(seconds: u64, micros: u64) -> (timestamp: Option<u64>)
    ensures
        timestamp == if seconds * 1_000_000 + micros <= u64::MAX {
            Some((seconds * 1_000_000 + micros) as u64)
        } else {
            None
        },
{
    match seconds.checked_mul(1_000_000) {
        Some(whole) => whole.checked_add(micros),
        None => None,
    }
}


/// Number of buffers that frames are captured into.
pub const BUFFER_COUNT: usize = 4;

/// Number of waits of one second that a capture spends on a frame.
pub const CAPTURE_RETRIES: u32 = 10;

/// What the session of a capture device remembers.
#[derive(Debug, Clone, Copy)]
pub struct CameraState {
    /// Whether the device is open.
    pub open: bool,
    /// Whether the device is streaming.
    pub streaming: bool,
    /// Width of the frames in pixels.
    pub width: u32,
    /// Height of the frames in pixels.
    pub height: u32,
    /// Format of the frames.
    pub format: PixelFormat,
}

impl Default for CameraState {
    /// A closed device with frames of 640x480 JPEG.
    fn default() -> (state: Self)
        ensures
            state == (CameraState {
                open: false,
                streaming: false,
                width: 640,
                height: 480,
                format: PixelFormat::Jpeg,
            }),
    {
        CameraState { open: false, streaming: false, width: 640, height: 480, format: PixelFormat::Jpeg }
    }
}

impl CameraState {
    /// The session after the device was set up and streams frames of
    /// `width` by `height` pixels in the format of the V4L2 code `code`.
    pub fn started(width: u32, height: u32, code: u32) -> (state: Self)
        ensures
            state == (CameraState {
                open: true,
                streaming: true,
                width,
                height,
                format: format_of_code(code),
            }),
    {
        CameraState {
            open: true,
            streaming: true,
            width,
            height,
            format: v4l2_to_pixel_format(code),
        }
    }
}

/// What comes after a wait for a frame.
#[derive(Debug, Clone, Copy, PartialEq, Eq, Structural)]
pub enum WaitStep {
    /// A frame is ready.
    Ready,
    /// Wait again, with this many waits left.
    Again(u32),
    /// The capture has failed.
    Failed(CameraError),
}

/// What comes after a wait for a frame that ended with `ret`, with
/// `retries_left` waits left, this one included.
///
/// A wait that was interrupted is repeated and does not count; any other
/// failed wait fails the capture. A wait that timed out counts: after
/// the last one the capture has timed out.
pub fn after_wait(ret: i32, interrupted: bool, retries_left: u32) -> (step: WaitStep)
    ensures
        step == if ret < 0 {
            if interrupted {
                WaitStep::Again(retries_left)
            } else {
                WaitStep::Failed(CameraError::CaptureFailed)
            }
        } else if ret == 0 {
            if retries_left <= 1 {
                WaitStep::Failed(CameraError::Timeout)
            } else {
                WaitStep::Again((retries_left - 1) as u32)
            }
        } else {
            WaitStep::Ready
        },
{
    if ret < 0 {
        if interrupted {
            WaitStep::Again(retries_left)
        } else {
            WaitStep::Failed(CameraError::CaptureFailed)
        }
    } else if ret == 0 {
        if retries_left <= 1 {
            WaitStep::Failed(CameraError::Timeout)
        } else {
            WaitStep::Again(retries_left - 1)
        }
    } else {
        WaitStep::Ready
    }
}

/// The error of a frame that could not be taken from the device: a
/// timeout where the device had none ready, a failed capture otherwise.
pub fn dequeue_error(none_ready: bool) -> (error: CameraError)
    ensures
        error == if none_ready {
            CameraError::Timeout
        } else {
            CameraError::CaptureFailed
        },
{
    if none_ready {
        CameraError::Timeout
    } else {
        CameraError::CaptureFailed
    }
}

} // verus!
