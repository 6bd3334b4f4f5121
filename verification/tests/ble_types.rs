use hal::ble::address::{hex_digit_value, parse_hex_byte};
use hal::ble::none;
use hal::ble::{AddressType, BleAddress, BleError, ConnectionHandle, ScanResult, Uuid};

#[test]
fn error_messages() {
    assert_eq!(BleError::NotInitialized.to_string(), "BLE not initialized");
    assert_eq!(BleError::AlreadyInitialized.to_string(), "BLE already initialized");
    assert_eq!(BleError::SocketError.to_string(), "Socket creation failed");
    assert_eq!(BleError::BindError.to_string(), "Bind failed");
    assert_eq!(BleError::ScanError.to_string(), "Scan failed");
    assert_eq!(BleError::ConnectionError.to_string(), "Connection failed");
    assert_eq!(BleError::DisconnectionError.to_string(), "Disconnection failed");
    assert_eq!(BleError::GattError.to_string(), "GATT operation failed");
    assert_eq!(BleError::Timeout.to_string(), "Timeout occurred");
    assert_eq!(BleError::InvalidParameter.to_string(), "Invalid parameter");
    assert_eq!(BleError::NotSupported.to_string(), "Not supported on this platform");
    assert_eq!(BleError::PermissionDenied.to_string(), "Permission denied");
    assert_eq!(BleError::DeviceNotFound.to_string(), "Device not found");
    assert_eq!(BleError::NoAdapter.message(), "No Bluetooth adapter available");
}

#[test]
fn address_new_keeps_bytes() {
    let address = BleAddress::new([0xAA, 0xBB, 0xCC, 0xDD, 0xEE, 0xFF]);
    assert_eq!(address.bytes, [0xAA, 0xBB, 0xCC, 0xDD, 0xEE, 0xFF]);
    assert!(address.same_as(&BleAddress::new([0xAA, 0xBB, 0xCC, 0xDD, 0xEE, 0xFF])));
    assert!(!address.same_as(&BleAddress::new([0xAA, 0xBB, 0xCC, 0xDD, 0xEE, 0xFE])));
}

#[test]
fn address_from_str_reads_six_hex_fields() {
    assert_eq!(
        BleAddress::from_str("AA:BB:CC:DD:EE:FF"),
        Some(BleAddress::new([0xAA, 0xBB, 0xCC, 0xDD, 0xEE, 0xFF]))
    );
    assert_eq!(
        BleAddress::from_str("0:1:a:B:7f:ff"),
        Some(BleAddress::new([0x00, 0x01, 0x0A, 0x0B, 0x7F, 0xFF]))
    );
    assert_eq!(
        BleAddress::from_str("+1:002:0003:4:5:6"),
        Some(BleAddress::new([1, 2, 3, 4, 5, 6]))
    );
}

#[test]
fn address_from_str_rejects_other_texts() {
    assert_eq!(BleAddress::from_str(""), None);
    assert_eq!(BleAddress::from_str("AA:BB:CC:DD:EE"), None);
    assert_eq!(BleAddress::from_str("AA:BB:CC:DD:EE:FF:00"), None);
    assert_eq!(BleAddress::from_str("AA:BB:CC:DD:EE:"), None);
    assert_eq!(BleAddress::from_str(":BB:CC:DD:EE:FF"), None);
    assert_eq!(BleAddress::from_str("AA:BB:CC:DD:EE:GG"), None);
    assert_eq!(BleAddress::from_str("AA:BB:CC:DD:EE:100"), None);
    assert_eq!(BleAddress::from_str("AA:BB:CC:DD:EE:-1"), None);
    assert_eq!(BleAddress::from_str("AA:BB:CC:DD:EE:+"), None);
    assert_eq!(BleAddress::from_str("AA:BB:CC:DD:EE: F"), None);
    assert_eq!(BleAddress::from_str("AA-BB-CC-DD-EE-FF"), None);
    assert_eq!(BleAddress::from_str("AA:BB:CC:DD:EE:\u{e9}"), None);
    assert_eq!(BleAddress::from_str("ZZ:BB:CC:DD:EE:FF:00"), None);
}

#[test]
fn hex_fields() {
    assert_eq!(hex_digit_value(b'0'), Some(0));
    assert_eq!(hex_digit_value(b'9'), Some(9));
    assert_eq!(hex_digit_value(b'a'), Some(10));
    assert_eq!(hex_digit_value(b'F'), Some(15));
    assert_eq!(hex_digit_value(b'g'), None);
    assert_eq!(hex_digit_value(b'/'), None);
    assert_eq!(hex_digit_value(b':'), None);
    assert_eq!(hex_digit_value(b'@'), None);
    assert_eq!(hex_digit_value(b'`'), None);
    assert_eq!(parse_hex_byte(b"xx7Fyy", 2, 4), Some(0x7F));
    assert_eq!(parse_hex_byte(b"7F", 0, 0), None);
    assert_eq!(parse_hex_byte(b"+7F", 0, 1), None);
    assert_eq!(parse_hex_byte(b"0000000000000000000000000001", 0, 28), Some(1));
    assert_eq!(parse_hex_byte(b"FFF", 0, 3), None);
}

#[test]
fn address_to_string_is_upper_case_hex() {
    assert_eq!(
        BleAddress::new([0xAA, 0x0B, 0xC0, 0x00, 0x9E, 0xFF]).to_string(),
        "AA:0B:C0:00:9E:FF"
    );
    let address = BleAddress::new([0x01, 0x23, 0x45, 0x67, 0x89, 0xAB]);
    assert_eq!(BleAddress::from_str(&address.to_string()), Some(address));
}

#[test]
fn uuid_from_u16_uses_base_uuid() {
    let uuid = Uuid::from_u16(0x1234);
    assert!(uuid.is_16bit);
    assert_eq!(
        uuid.bytes,
        [
            0x12, 0x34, 0x00, 0x00, 0x00, 0x00, 0x10, 0x00, 0x80, 0x00, 0x00, 0x80, 0x5F, 0x9B,
            0x34, 0xFB
        ]
    );
    assert_eq!(&Uuid::from_u16(0x00FF).bytes[..2], &[0x00, 0xFF]);
}

#[test]
fn uuid_from_bytes_is_128_bit() {
    let uuid = Uuid::from_bytes([7; 16]);
    assert!(!uuid.is_16bit);
    assert_eq!(uuid.bytes, [7; 16]);
}

#[test]
fn scan_result_name_str() {
    let mut name = [0u8; 32];
    name[..5].copy_from_slice(b"Hello");
    let mut result = ScanResult {
        address: BleAddress::new([1, 2, 3, 4, 5, 6]),
        address_type: AddressType::Random,
        rssi: -42,
        name: Some(name),
        name_len: 5,
    };
    assert_eq!(result.name_str(), Some("Hello"));
    result.name_len = 3;
    assert_eq!(result.name_str(), Some("Hel"));
    result.name_len = 0;
    assert_eq!(result.name_str(), Some(""));
    result.name = None;
    assert_eq!(result.name_str(), None);
    result.name = Some([0xC3; 32]);
    result.name_len = 1;
    assert_eq!(result.name_str(), None);
}

#[test]
fn platform_without_bluetooth_supports_nothing() {
    let address = BleAddress::new([1, 2, 3, 4, 5, 6]);
    assert_eq!(none::ble_initialize(), Err(BleError::NotSupported));
    assert_eq!(none::ble_deinitialize(), Err(BleError::NotSupported));
    assert_eq!(none::ble_start_scan(100), Err(BleError::NotSupported));
    assert_eq!(none::ble_stop_scan(), Err(BleError::NotSupported));
    assert_eq!(none::ble_get_scan_results().unwrap_err(), BleError::NotSupported);
    assert_eq!(none::ble_connect(&address, 100), Err(BleError::NotSupported));
    assert_eq!(none::ble_disconnect(ConnectionHandle(1)), Err(BleError::NotSupported));
    assert_eq!(none::ble_start_advertising("x"), Err(BleError::NotSupported));
    assert_eq!(none::ble_stop_advertising(), Err(BleError::NotSupported));
    assert_eq!(none::ble_run_gatt_server("x", 100), Err(BleError::NotSupported));
    assert_eq!(
        none::gatt_discover_services(ConnectionHandle(1)).unwrap_err(),
        BleError::NotSupported
    );
}
