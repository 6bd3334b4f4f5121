use hal::ble::nimble::{
    check_c_text, command_notice, deinitialize_result, initialize_result, poll_count,
    received_command, reports_client, start_advertising_result, stop_advertising_result,
};
use hal::ble::BleError;
use hal::camera::sensor;
use hal::camera::sensor::{capture_error, request_result, sensor_settings};
use hal::camera::v4l2::{after_wait, dequeue_error, CameraState, WaitStep};
use hal::camera::{CameraError, PixelFormat};
use hal::errno::{error_of, is_error, Errno};
use hal::heap::{HeapStats, Measurement};

const CODES: Errno = Errno {
    ealready: 114,
    enodev: 19,
    enotsup: 95,
    enoent: 2,
    enomem: 12,
    etimedout: 110,
};

#[test]
fn return_codes_are_negative_error_numbers() {
    assert!(is_error(-19, 19));
    assert!(!is_error(19, 19));
    assert!(!is_error(-18, 19));
    assert!(!is_error(i32::MIN, i32::MIN));
    assert!(is_error(0, 0));
    assert_eq!(error_of(-5), 5);
    assert_eq!(error_of(5), -5);
    assert_eq!(error_of(i32::MIN), i32::MIN);
}

#[test]
fn nimble_results() {
    assert_eq!(initialize_result(0, &CODES), Ok(()));
    assert_eq!(initialize_result(-114, &CODES), Err(BleError::AlreadyInitialized));
    assert_eq!(initialize_result(-1, &CODES), Err(BleError::SocketError));
    assert_eq!(initialize_result(114, &CODES), Err(BleError::SocketError));
    assert_eq!(deinitialize_result(0, &CODES), Ok(()));
    assert_eq!(deinitialize_result(-19, &CODES), Err(BleError::NotInitialized));
    assert_eq!(deinitialize_result(-114, &CODES), Err(BleError::SocketError));
    assert_eq!(start_advertising_result(0, &CODES), Ok(()));
    assert_eq!(start_advertising_result(-19, &CODES), Err(BleError::NotInitialized));
    assert_eq!(start_advertising_result(-95, &CODES), Err(BleError::NotSupported));
    assert_eq!(start_advertising_result(-1, &CODES), Err(BleError::SocketError));
    assert_eq!(stop_advertising_result(0), Ok(()));
    assert_eq!(stop_advertising_result(-19), Err(BleError::SocketError));
}

#[test]
fn names_with_zero_bytes_are_invalid() {
    assert_eq!(check_c_text(b"RustCam"), Ok(()));
    assert_eq!(check_c_text(b""), Ok(()));
    assert_eq!(check_c_text(b"Rust\0Cam"), Err(BleError::InvalidParameter));
    assert_eq!(check_c_text(b"RustCam\0"), Err(BleError::InvalidParameter));
}

#[test]
fn server_polls() {
    assert_eq!(poll_count(0), u32::MAX);
    assert_eq!(poll_count(99), 0);
    assert_eq!(poll_count(100), 1);
    assert_eq!(poll_count(60_000), 600);
    assert!(reports_client(0, 1));
    assert!(reports_client(50, -1));
    assert!(!reports_client(50, 0));
    assert!(!reports_client(49, 1));
}

#[test]
fn received_commands() {
    let mut buffer = [0u8; 64];
    buffer[..3].copy_from_slice(b"led");
    assert_eq!(received_command(&buffer, 3), Some(b"led".to_vec()));
    assert_eq!(received_command(&buffer, 0), None);
    assert_eq!(received_command(&buffer, -1), None);
    assert_eq!(received_command(&buffer, 64).unwrap().len(), 64);
    let notice = command_notice(b"led on");
    assert_eq!(notice.len(), 80);
    assert_eq!(&notice[..29], b"GATT command received: led on");
    assert!(notice[29..].iter().all(|b| *b == 0));
    let notice = command_notice(&[b'x'; 64]);
    assert_eq!(&notice[23..79], &[b'x'; 56][..]);
    assert_eq!(notice[79], 0);
}

#[test]
fn sensor_results() {
    assert_eq!(sensor::initialize_result(0, &CODES), Ok(()));
    assert_eq!(sensor::initialize_result(-114, &CODES), Err(CameraError::AlreadyInitialized));
    assert_eq!(sensor::initialize_result(-2, &CODES), Err(CameraError::DeviceNotFound));
    assert_eq!(sensor::initialize_result(-19, &CODES), Err(CameraError::DeviceNotFound));
    assert_eq!(sensor::initialize_result(-95, &CODES), Err(CameraError::NotSupported));
    assert_eq!(sensor::initialize_result(-12, &CODES), Err(CameraError::BufferAllocationFailed));
    assert_eq!(sensor::initialize_result(-5, &CODES), Err(CameraError::SystemError(5)));
    assert_eq!(sensor::initialize_result(7, &CODES), Err(CameraError::SystemError(-7)));
    assert_eq!(request_result(0, &CODES), Ok(()));
    assert_eq!(request_result(-19, &CODES), Err(CameraError::NotInitialized));
    assert_eq!(request_result(-5, &CODES), Err(CameraError::SystemError(5)));
    assert_eq!(capture_error(-19, &CODES), CameraError::NotInitialized);
    assert_eq!(capture_error(-110, &CODES), CameraError::Timeout);
    assert_eq!(capture_error(-5, &CODES), CameraError::CaptureFailed);
    let settings = sensor_settings(1, -2, 2);
    assert_eq!((settings.brightness, settings.contrast, settings.saturation), (1, -2, 2));
    assert!(settings.awb && settings.awb_gain && settings.aec && settings.agc);
    assert!(!settings.hmirror && !settings.vflip);
}

#[test]
fn capture_waits() {
    assert_eq!(after_wait(1, false, 10), WaitStep::Ready);
    assert_eq!(after_wait(0, false, 10), WaitStep::Again(9));
    assert_eq!(after_wait(0, false, 2), WaitStep::Again(1));
    assert_eq!(after_wait(0, false, 1), WaitStep::Failed(CameraError::Timeout));
    assert_eq!(after_wait(0, true, 0), WaitStep::Failed(CameraError::Timeout));
    assert_eq!(after_wait(-1, true, 3), WaitStep::Again(3));
    assert_eq!(after_wait(-1, false, 3), WaitStep::Failed(CameraError::CaptureFailed));
    assert_eq!(dequeue_error(true), CameraError::Timeout);
    assert_eq!(dequeue_error(false), CameraError::CaptureFailed);
}

#[test]
fn camera_session_state() {
    let state = CameraState::default();
    assert!(!state.open && !state.streaming);
    assert_eq!((state.width, state.height, state.format), (640, 480, PixelFormat::Jpeg));
    let state = CameraState::started(1280, 720, 0x56595559);
    assert!(state.open && state.streaming);
    assert_eq!((state.width, state.height, state.format), (1280, 720, PixelFormat::Yuv422));
}

#[test]
fn heap_measurements() {
    let measurement = Measurement { name: "Vec", heap_before: 1000, heap_after: 1400 };
    assert_eq!(measurement.allocated(), 400);
    let freed = Measurement { name: "drop", heap_before: 1400, heap_after: 1000 };
    assert_eq!(freed.allocated(), -400);
    let stats = HeapStats::without_largest_chunk(4096, 3, 1024, 3072);
    assert_eq!(
        (stats.arena, stats.ordblks, stats.mxordblk, stats.uordblks, stats.fordblks),
        (4096, 3, 0, 1024, 3072)
    );
}
