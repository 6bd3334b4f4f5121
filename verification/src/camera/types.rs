//! Data types of the camera.

use vstd::prelude::*;
use vstd::string::StringExecFns;
use crate::text::{append_decimal, append_signed, decimal_text, signed_text};

verus! {

/// Camera operation errors
#[derive(Debug, Clone, Copy, PartialEq, Eq, Structural)]
pub enum CameraError {
    /// Camera not initialized
    NotInitialized,
    /// Already initialized
    AlreadyInitialized,
    /// Camera device not found
    DeviceNotFound,
    /// Failed to open device
    OpenFailed,
    /// Failed to configure camera
    ConfigurationFailed,
    /// Failed to capture frame
    CaptureFailed,
    /// Invalid format or resolution
    InvalidFormat,
    /// Buffer allocation failed
    BufferAllocationFailed,
    /// Timeout waiting for frame
    Timeout,
    /// Operation not supported on this platform
    NotSupported,
    /// System error with errno
    SystemError(i32),
}

/// Result type for camera operations
pub type CameraResult<T> = Result<T, CameraError>;

impl CameraError {
    /// The text shown to a user for this error.
    pub open spec fn text(self) -> Seq<char> {
        match self {
            CameraError::NotInitialized => "Camera not initialized"@,
            CameraError::AlreadyInitialized => "Camera already initialized"@,
            CameraError::DeviceNotFound => "Camera device not found"@,
            CameraError::OpenFailed => "Failed to open camera device"@,
            CameraError::ConfigurationFailed => "Failed to configure camera"@,
            CameraError::CaptureFailed => "Failed to capture frame"@,
            CameraError::InvalidFormat => "Invalid format or resolution"@,
            CameraError::BufferAllocationFailed => "Buffer allocation failed"@,
            CameraError::Timeout => "Timeout waiting for frame"@,
            CameraError::NotSupported => "Not supported on this platform"@,
            CameraError::SystemError(code) => "System error: "@ + signed_text(code as int),
        }
    }

    /// The text shown to a user for this error.
    pub fn to_string(&self) -> (text: String)
        ensures
            text@ == self.text(),
    {
        match self {
            CameraError::NotInitialized => "Camera not initialized".to_owned(),
            CameraError::AlreadyInitialized => "Camera already initialized".to_owned(),
            CameraError::DeviceNotFound => "Camera device not found".to_owned(),
            CameraError::OpenFailed => "Failed to open camera device".to_owned(),
            CameraError::ConfigurationFailed => "Failed to configure camera".to_owned(),
            CameraError::CaptureFailed => "Failed to capture frame".to_owned(),
            CameraError::InvalidFormat => "Invalid format or resolution".to_owned(),
            CameraError::BufferAllocationFailed => "Buffer allocation failed".to_owned(),
            CameraError::Timeout => "Timeout waiting for frame".to_owned(),
            CameraError::NotSupported => "Not supported on this platform".to_owned(),
            CameraError::SystemError(code) => {
                let mut text = "System error: ".to_owned();
                append_signed(&mut text, *code);
                text
            },
        }
    }
}

/// Pixel format for camera frames
#[derive(Debug, Clone, Copy, PartialEq, Eq, Structural)]
pub enum PixelFormat {
    /// JPEG compressed format
    Jpeg,
    /// RGB565 (16-bit, 5-6-5 format)
    Rgb565,
    /// RGB888 (24-bit, 8-8-8 format)
    Rgb888,
    /// YUV422 format
    Yuv422,
    /// Grayscale (8-bit)
    Grayscale,
}

impl Default for PixelFormat {
    /// JPEG is the default format.
    fn default() -> (format: Self)
        ensures
            format == PixelFormat::Jpeg,
    {
        PixelFormat::Jpeg
    }
}

impl PixelFormat {
    /// The format's name.
    pub open spec fn text(self) -> Seq<char> {
        match self {
            PixelFormat::Jpeg => "JPEG"@,
            PixelFormat::Rgb565 => "RGB565"@,
            PixelFormat::Rgb888 => "RGB888"@,
            PixelFormat::Yuv422 => "YUV422"@,
            PixelFormat::Grayscale => "Grayscale"@,
        }
    }

    /// The format's name.
    pub fn to_string(&self) -> (text: String)
        ensures
            text@ == self.text(),
    {
        match self {
            PixelFormat::Jpeg => "JPEG".to_owned(),
            PixelFormat::Rgb565 => "RGB565".to_owned(),
            PixelFormat::Rgb888 => "RGB888".to_owned(),
            PixelFormat::Yuv422 => "YUV422".to_owned(),
            PixelFormat::Grayscale => "Grayscale".to_owned(),
        }
    }
}

/// Camera resolution presets
#[derive(Debug, Clone, Copy, PartialEq, Eq, Structural)]
pub enum Resolution {
    /// 160x120
    Qqvga,
    /// 176x144
    Qcif,
    /// 240x176
    Hqvga,
    /// 320x240
    Qvga,
    /// 400x296
    Cif,
    /// 480x320
    Hvga,
    /// 640x480 (default, good balance)
    Vga,
    /// 800x600
    Svga,
    /// 1024x768
    Xga,
    /// 1280x720
    Hd,
    /// 1280x1024
    Sxga,
    /// 1600x1200
    Uxga,
}

impl Default for Resolution {
    /// VGA is the default resolution.
    fn default() -> (resolution: Self)
        ensures
            resolution == Resolution::Vga,
    {
        Resolution::Vga
    }
}

impl Resolution {
    /// Width and height of this resolution in pixels.
    pub open spec fn size(self) -> (u32, u32) {
        match self {
            Resolution::Qqvga => (160, 120),
            Resolution::Qcif => (176, 144),
            Resolution::Hqvga => (240, 176),
            Resolution::Qvga => (320, 240),
            Resolution::Cif => (400, 296),
            Resolution::Hvga => (480, 320),
            Resolution::Vga => (640, 480),
            Resolution::Svga => (800, 600),
            Resolution::Xga => (1024, 768),
            Resolution::Hd => (1280, 720),
            Resolution::Sxga => (1280, 1024),
            Resolution::Uxga => (1600, 1200),
        }
    }

    /// Get width for this resolution
    pub fn width(&self) -> (pixels: u32)
        ensures
            pixels == self.size().0,
    {
        match self {
            Resolution::Qqvga => 160,
            Resolution::Qcif => 176,
            Resolution::Hqvga => 240,
            Resolution::Qvga => 320,
            Resolution::Cif => 400,
            Resolution::Hvga => 480,
            Resolution::Vga => 640,
            Resolution::Svga => 800,
            Resolution::Xga => 1024,
            Resolution::Hd => 1280,
            Resolution::Sxga => 1280,
            Resolution::Uxga => 1600,
        }
    }

    /// Get height for this resolution
    pub fn height(&self) -> (pixels: u32)
        ensures
            pixels == self.size().1,
    {
        match self {
            Resolution::Qqvga => 120,
            Resolution::Qcif => 144,
            Resolution::Hqvga => 176,
            Resolution::Qvga => 240,
            Resolution::Cif => 296,
            Resolution::Hvga => 320,
            Resolution::Vga => 480,
            Resolution::Svga => 600,
            Resolution::Xga => 768,
            Resolution::Hd => 720,
            Resolution::Sxga => 1024,
            Resolution::Uxga => 1200,
        }
    }

    /// The resolution as text: width, the letter x, height.
    pub fn to_string(&self) -> (text: String)
        ensures
            text@ == decimal_text(self.size().0 as nat) + seq!['x'] + decimal_text(
                self.size().1 as nat,
            ),
    {
        proof {
            reveal_strlit("x");
        }
        let mut text = String::new();
        append_decimal(&mut text, self.width() as u64);
        text.append("x");
        append_decimal(&mut text, self.height() as u64);
        assert(text@ =~= decimal_text(self.size().0 as nat) + seq!['x'] + decimal_text(
            self.size().1 as nat,
        ));
        text
    }
}

/// JPEG quality of a new configuration.
pub const DEFAULT_JPEG_QUALITY: u8 = 12;

/// Frame buffer count of a new configuration.
pub const DEFAULT_FB_COUNT: u8 = 1;

/// Camera configuration
#[derive(Debug, Clone, Copy)]
pub struct CameraConfig {
    /// Pixel format
    pub format: PixelFormat,
    /// Resolution
    pub resolution: Resolution,
    /// JPEG quality (1-100, only used for JPEG format)
    pub jpeg_quality: u8,
    /// Frame buffer count (for double/triple buffering)
    pub fb_count: u8,
}

/// `value` brought into the range from `low` to `high`.
pub open spec fn clamped(value: int, low: int, high: int) -> int {
    if value < low {
        low
    } else if value > high {
        high
    } else {
        value
    }
}

impl Default for CameraConfig {
    /// JPEG at VGA, quality 12, one frame buffer.
    fn default() -> (config: Self)
        ensures
            config == (CameraConfig {
                format: PixelFormat::Jpeg,
                resolution: Resolution::Vga,
                jpeg_quality: DEFAULT_JPEG_QUALITY,
                fb_count: DEFAULT_FB_COUNT,
            }),
    {
        CameraConfig {
            format: PixelFormat::Jpeg,
            resolution: Resolution::Vga,
            jpeg_quality: DEFAULT_JPEG_QUALITY,
            fb_count: DEFAULT_FB_COUNT,
        }
    }
}

impl CameraConfig {
    /// Create a new camera configuration with quality 12 and one frame buffer.
    pub fn new(format: PixelFormat, resolution: Resolution) -> (config: Self)
        ensures
            config == (CameraConfig {
                format,
                resolution,
                jpeg_quality: DEFAULT_JPEG_QUALITY,
                fb_count: DEFAULT_FB_COUNT,
            }),
    {
        CameraConfig {
            format,
            resolution,
            jpeg_quality: DEFAULT_JPEG_QUALITY,
            fb_count: DEFAULT_FB_COUNT,
        }
    }

    /// Set JPEG quality, brought into the range 1 to 100 (lower = higher compression)
    pub fn with_jpeg_quality(self, quality: u8) -> (config: Self)
        ensures
            config == (CameraConfig {
                jpeg_quality: clamped(quality as int, 1, 100) as u8,
                ..self
            }),
    {
        let jpeg_quality: u8 = if quality < 1 {
            1
        } else if quality > 100 {
            100
        } else {
            quality
        };
        CameraConfig { jpeg_quality, ..self }
    }

    /// Set frame buffer count, brought into the range 1 to 3
    pub fn with_fb_count(self, count: u8) -> (config: Self)
        ensures
            config == (CameraConfig { fb_count: clamped(count as int, 1, 3) as u8, ..self }),
    {
        let fb_count: u8 = if count < 1 {
            1
        } else if count > 3 {
            3
        } else {
            count
        };
        CameraConfig { fb_count, ..self }
    }
}

/// Captured frame buffer
#[derive(Debug, Clone)]
pub struct FrameBuffer {
    /// Frame width in pixels
    pub width: u32,
    /// Frame height in pixels
    pub height: u32,
    /// Pixel format
    pub format: PixelFormat,
    /// Frame data
    pub data: Vec<u8>,
    /// Timestamp in microseconds (if available)
    pub timestamp: u64,
}

impl FrameBuffer {
    /// Create a new frame buffer with timestamp 0
    pub fn new(width: u32, height: u32, format: PixelFormat, data: Vec<u8>) -> (frame: Self)
        ensures
            frame.width == width,
            frame.height == height,
            frame.format == format,
            frame.data == data,
            frame.timestamp == 0,
    {
        FrameBuffer { width, height, format, data, timestamp: 0 }
    }

    /// Get the size of the frame data in bytes
    pub fn len(&self) -> (size: usize)
        ensures
            size == self.data@.len(),
    {
        self.data.len()
    }

    /// Check if the frame buffer is empty
    pub fn is_empty(&self) -> (empty: bool)
        ensures
            empty == (self.data@.len() == 0),
    {
        self.data.len() == 0
    }
}

/// Camera sensor settings (adjustable parameters)
#[derive(Debug, Clone, Copy)]
pub struct CameraSettings {
    /// Brightness (-2 to 2)
    pub brightness: i8,
    /// Contrast (-2 to 2)
    pub contrast: i8,
    /// Saturation (-2 to 2)
    pub saturation: i8,
    /// Auto White Balance enabled
    pub awb: bool,
    /// Auto White Balance gain enabled
    pub awb_gain: bool,
    /// Auto Exposure Control enabled
    pub aec: bool,
    /// Auto Exposure Control level (-2 to 2)
    pub ae_level: i8,
    /// Auto Gain Control enabled
    pub agc: bool,
    /// Gain ceiling (0-6)
    pub gainceiling: u8,
    /// Horizontal mirror
    pub hmirror: bool,
    /// Vertical flip
    pub vflip: bool,
}

impl Default for CameraSettings {
    /// Everything zero and switched off.
    fn default() -> (settings: Self)
        ensures
            settings == (CameraSettings {
                brightness: 0,
                contrast: 0,
                saturation: 0,
                awb: false,
                awb_gain: false,
                aec: false,
                ae_level: 0,
                agc: false,
                gainceiling: 0,
                hmirror: false,
                vflip: false,
            }),
    {
        CameraSettings {
            brightness: 0,
            contrast: 0,
            saturation: 0,
            awb: false,
            awb_gain: false,
            aec: false,
            ae_level: 0,
            agc: false,
            gainceiling: 0,
            hmirror: false,
            vflip: false,
        }
    }
}

impl CameraSettings {
    /// Create default settings with auto features enabled: white
    /// balance and its gain, exposure control and gain control on,
    /// everything else zero or off.
    pub fn auto() -> (settings: Self)
        ensures
            settings == (CameraSettings {
                brightness: 0,
                contrast: 0,
                saturation: 0,
                awb: true,
                awb_gain: true,
                aec: true,
                ae_level: 0,
                agc: true,
                gainceiling: 0,
                hmirror: false,
                vflip: false,
            }),
    {
        CameraSettings {
            brightness: 0,
            contrast: 0,
            saturation: 0,
            awb: true,
            awb_gain: true,
            aec: true,
            ae_level: 0,
            agc: true,
            gainceiling: 0,
            hmirror: false,
            vflip: false,
        }
    }
}

} // verus!
