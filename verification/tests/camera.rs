use hal::camera::none;
use hal::camera::v4l2::{
    control_to_setting, format_to_int, formats_to_try, frame_timestamp, int_to_format,
    pixel_format_to_v4l2, resolution_to_int, v4l2_to_pixel_format,
};
use hal::camera::{
    CameraConfig, CameraError, CameraSettings, FrameBuffer, PixelFormat, Resolution,
};

const ALL_RESOLUTIONS: [(Resolution, u32, u32); 12] = [
    (Resolution::Qqvga, 160, 120),
    (Resolution::Qcif, 176, 144),
    (Resolution::Hqvga, 240, 176),
    (Resolution::Qvga, 320, 240),
    (Resolution::Cif, 400, 296),
    (Resolution::Hvga, 480, 320),
    (Resolution::Vga, 640, 480),
    (Resolution::Svga, 800, 600),
    (Resolution::Xga, 1024, 768),
    (Resolution::Hd, 1280, 720),
    (Resolution::Sxga, 1280, 1024),
    (Resolution::Uxga, 1600, 1200),
];

#[test]
fn resolution_sizes() {
    for (i, (resolution, width, height)) in ALL_RESOLUTIONS.iter().enumerate() {
        assert_eq!(resolution.width(), *width);
        assert_eq!(resolution.height(), *height);
        assert_eq!(resolution.to_string(), format!("{}x{}", width, height));
        assert_eq!(resolution_to_int(*resolution), i as i32);
    }
    assert_eq!(Resolution::default(), Resolution::Vga);
}

#[test]
fn camera_error_messages() {
    assert_eq!(CameraError::NotInitialized.to_string(), "Camera not initialized");
    assert_eq!(CameraError::AlreadyInitialized.to_string(), "Camera already initialized");
    assert_eq!(CameraError::DeviceNotFound.to_string(), "Camera device not found");
    assert_eq!(CameraError::OpenFailed.to_string(), "Failed to open camera device");
    assert_eq!(CameraError::ConfigurationFailed.to_string(), "Failed to configure camera");
    assert_eq!(CameraError::CaptureFailed.to_string(), "Failed to capture frame");
    assert_eq!(CameraError::InvalidFormat.to_string(), "Invalid format or resolution");
    assert_eq!(CameraError::BufferAllocationFailed.to_string(), "Buffer allocation failed");
    assert_eq!(CameraError::Timeout.to_string(), "Timeout waiting for frame");
    assert_eq!(CameraError::NotSupported.to_string(), "Not supported on this platform");
    assert_eq!(CameraError::SystemError(12).to_string(), "System error: 12");
    assert_eq!(CameraError::SystemError(0).to_string(), "System error: 0");
    assert_eq!(CameraError::SystemError(-5).to_string(), "System error: -5");
    assert_eq!(
        CameraError::SystemError(i32::MIN).to_string(),
        "System error: -2147483648"
    );
    assert_eq!(CameraError::SystemError(i32::MAX).to_string(), "System error: 2147483647");
}

#[test]
fn pixel_format_names_and_numbers() {
    let formats = [
        (PixelFormat::Jpeg, "JPEG", 0x47504A4Du32),
        (PixelFormat::Rgb565, "RGB565", 0x50424752),
        (PixelFormat::Rgb888, "RGB888", 0x33424752),
        (PixelFormat::Yuv422, "YUV422", 0x56595559),
        (PixelFormat::Grayscale, "Grayscale", 0x59455247),
    ];
    for (i, (format, name, code)) in formats.iter().enumerate() {
        assert_eq!(format.to_string(), *name);
        assert_eq!(pixel_format_to_v4l2(*format), *code);
        assert_eq!(v4l2_to_pixel_format(*code), *format);
        assert_eq!(format_to_int(*format), i as i32);
        assert_eq!(int_to_format(i as i32), *format);
    }
    assert_eq!(PixelFormat::default(), PixelFormat::Jpeg);
    assert_eq!(v4l2_to_pixel_format(0x4745504A), PixelFormat::Jpeg);
    assert_eq!(v4l2_to_pixel_format(0x3231564E), PixelFormat::Yuv422);
    assert_eq!(v4l2_to_pixel_format(0), PixelFormat::Yuv422);
    assert_eq!(int_to_format(5), PixelFormat::Jpeg);
    assert_eq!(int_to_format(-1), PixelFormat::Jpeg);
}

#[test]
fn formats_are_tried_in_order() {
    assert_eq!(
        formats_to_try(PixelFormat::Grayscale),
        [0x59455247, 0x3231564E, 0x56595559, 0x47504A4D, 0x33424752]
    );
}

#[test]
fn config_defaults_and_limits() {
    let config = CameraConfig::new(PixelFormat::Rgb565, Resolution::Qvga);
    assert_eq!(config.format, PixelFormat::Rgb565);
    assert_eq!(config.resolution, Resolution::Qvga);
    assert_eq!(config.jpeg_quality, 12);
    assert_eq!(config.fb_count, 1);
    let default = CameraConfig::default();
    assert_eq!(default.format, PixelFormat::Jpeg);
    assert_eq!(default.resolution, Resolution::Vga);
    assert_eq!((default.jpeg_quality, default.fb_count), (12, 1));
    assert_eq!(config.with_jpeg_quality(0).jpeg_quality, 1);
    assert_eq!(config.with_jpeg_quality(1).jpeg_quality, 1);
    assert_eq!(config.with_jpeg_quality(55).jpeg_quality, 55);
    assert_eq!(config.with_jpeg_quality(100).jpeg_quality, 100);
    assert_eq!(config.with_jpeg_quality(101).jpeg_quality, 100);
    assert_eq!(config.with_jpeg_quality(255).fb_count, 1);
    assert_eq!(config.with_fb_count(0).fb_count, 1);
    assert_eq!(config.with_fb_count(2).fb_count, 2);
    assert_eq!(config.with_fb_count(3).fb_count, 3);
    assert_eq!(config.with_fb_count(4).fb_count, 3);
    assert_eq!(config.with_fb_count(4).jpeg_quality, 12);
}

#[test]
fn frame_buffer_holds_data() {
    let frame = FrameBuffer::new(640, 480, PixelFormat::Jpeg, vec![1, 2, 3]);
    assert_eq!((frame.width, frame.height), (640, 480));
    assert_eq!(frame.format, PixelFormat::Jpeg);
    assert_eq!(frame.timestamp, 0);
    assert_eq!(frame.len(), 3);
    assert!(!frame.is_empty());
    let empty = FrameBuffer::new(1, 1, PixelFormat::Grayscale, Vec::new());
    assert_eq!(empty.len(), 0);
    assert!(empty.is_empty());
}

#[test]
fn settings_auto_and_default() {
    let auto = CameraSettings::auto();
    assert!(auto.awb && auto.awb_gain && auto.aec && auto.agc);
    assert!(!auto.hmirror && !auto.vflip);
    assert_eq!((auto.brightness, auto.contrast, auto.saturation, auto.ae_level), (0, 0, 0, 0));
    assert_eq!(auto.gainceiling, 0);
    let default = CameraSettings::default();
    assert!(!default.awb && !default.awb_gain && !default.aec && !default.agc);
    assert_eq!(default.gainceiling, 0);
}

#[test]
fn control_values_are_clamped() {
    assert_eq!(control_to_setting(0), 0);
    assert_eq!(control_to_setting(127), 127);
    assert_eq!(control_to_setting(128), 127);
    assert_eq!(control_to_setting(-128), -128);
    assert_eq!(control_to_setting(-129), -128);
    assert_eq!(control_to_setting(i32::MAX), 127);
    assert_eq!(control_to_setting(i32::MIN), -128);
}

#[test]
fn timestamps_are_microseconds() {
    assert_eq!(frame_timestamp(0, 0), Some(0));
    assert_eq!(frame_timestamp(2, 500_000), Some(2_500_000));
    assert_eq!(frame_timestamp(u64::MAX / 1_000_000, 0), Some(18_446_744_073_709_000_000));
    assert_eq!(frame_timestamp(u64::MAX / 1_000_000 + 1, 0), None);
    assert_eq!(frame_timestamp(u64::MAX / 1_000_000, 551_616), None);
    assert_eq!(frame_timestamp(u64::MAX / 1_000_000, 551_615), Some(u64::MAX));
}

#[test]
fn platform_without_camera_supports_nothing() {
    assert_eq!(none::camera_initialize(CameraConfig::default()), Err(CameraError::NotSupported));
    assert_eq!(none::camera_deinitialize(), Err(CameraError::NotSupported));
    assert_eq!(none::camera_capture_frame().unwrap_err(), CameraError::NotSupported);
    assert_eq!(none::camera_get_settings().unwrap_err(), CameraError::NotSupported);
    assert_eq!(none::camera_set_settings(CameraSettings::auto()), Err(CameraError::NotSupported));
    assert!(!none::camera_is_initialized());
}
