//! Data types shared by the BLE operations.

use vstd::prelude::*;
use vstd::string::StringSliceAdditionalSpecFns;
use vstd::utf8::valid_utf8;
use crate::text::utf8_text;

verus! {

/// BLE error types
#[derive(Debug, Clone, Copy, PartialEq, Eq, Structural)]
pub enum BleError {
    /// BLE not initialized
    NotInitialized,
    /// Already initialized
    AlreadyInitialized,
    /// Socket creation failed
    SocketError,
    /// Bind failed
    BindError,
    /// Scan failed
    ScanError,
    /// Connection failed
    ConnectionError,
    /// Disconnection failed
    DisconnectionError,
    /// GATT operation failed
    GattError,
    /// Timeout occurred
    Timeout,
    /// Invalid parameter
    InvalidParameter,
    /// Operation not supported on this platform
    NotSupported,
    /// Permission denied
    PermissionDenied,
    /// Device not found
    DeviceNotFound,
    /// No adapter available
    NoAdapter,
}

/// Result type for BLE operations
pub type BleResult<T> = Result<T, BleError>;

impl BleError {
    /// The text shown to a user for this error.
    pub open spec fn text(self) -> Seq<char> {
        match self {
            BleError::NotInitialized => "BLE not initialized"@,
            BleError::AlreadyInitialized => "BLE already initialized"@,
            BleError::SocketError => "Socket creation failed"@,
            BleError::BindError => "Bind failed"@,
            BleError::ScanError => "Scan failed"@,
            BleError::ConnectionError => "Connection failed"@,
            BleError::DisconnectionError => "Disconnection failed"@,
            BleError::GattError => "GATT operation failed"@,
            BleError::Timeout => "Timeout occurred"@,
            BleError::InvalidParameter => "Invalid parameter"@,
            BleError::NotSupported => "Not supported on this platform"@,
            BleError::PermissionDenied => "Permission denied"@,
            BleError::DeviceNotFound => "Device not found"@,
            BleError::NoAdapter => "No Bluetooth adapter available"@,
        }
    }

    /// The text shown to a user for this error.
    pub fn message(&self) -> (text: &'static str)
        ensures
            text@ == self.text(),
    {
        match self {
            BleError::NotInitialized => "BLE not initialized",
            BleError::AlreadyInitialized => "BLE already initialized",
            BleError::SocketError => "Socket creation failed",
            BleError::BindError => "Bind failed",
            BleError::ScanError => "Scan failed",
            BleError::ConnectionError => "Connection failed",
            BleError::DisconnectionError => "Disconnection failed",
            BleError::GattError => "GATT operation failed",
            BleError::Timeout => "Timeout occurred",
            BleError::InvalidParameter => "Invalid parameter",
            BleError::NotSupported => "Not supported on this platform",
            BleError::PermissionDenied => "Permission denied",
            BleError::DeviceNotFound => "Device not found",
            BleError::NoAdapter => "No Bluetooth adapter available",
        }
    }

    /// The error's text as an owned string.
    pub fn to_string(&self) -> (text: String)
        ensures
            text@ == self.text(),
    {
        self.message().to_owned()
    }
}

/// Bluetooth address (6 bytes, big-endian)
#[derive(Debug, Clone, Copy, PartialEq, Eq)]
pub struct BleAddress {
    pub bytes: [u8; 6],
}

impl BleAddress {
    /// Create a new BLE address from bytes
    pub fn new(bytes: [u8; 6]) -> (address: Self)
        ensures
            address.bytes == bytes,
    {
        Self { bytes }
    }

    /// Whether two addresses hold the same six bytes.
    pub fn same_as(&self, other: &BleAddress) -> (same: bool)
        ensures
            same == (self.bytes@ == other.bytes@),
    {
        let same = self.bytes[0] == other.bytes[0] && self.bytes[1] == other.bytes[1]
            && self.bytes[2] == other.bytes[2] && self.bytes[3] == other.bytes[3]
            && self.bytes[4] == other.bytes[4] && self.bytes[5] == other.bytes[5];
        proof {
            if same {
                assert(self.bytes@ =~= other.bytes@);
            }
        }
        same
    }
}

/// Address type for BLE devices
#[derive(Debug, Clone, Copy, PartialEq, Eq, Structural)]
pub enum AddressType {
    /// Public device address
    Public,
    /// Random device address
    Random,
}

/// Longest device name kept from an advertisement, in bytes.
pub const MAX_NAME_LEN: usize = 32;

/// BLE scan result
#[derive(Debug, Clone, Copy)]
pub struct ScanResult {
    /// Device address
    pub address: BleAddress,
    /// Address type
    pub address_type: AddressType,
    /// RSSI (signal strength) in dBm
    pub rssi: i8,
    /// Device name (if available from advertising data)
    pub name: Option<[u8; 32]>,
    /// Name length (valid bytes in name array)
    pub name_len: usize,
}

/// A scan result as plain values.
pub struct ScanResultView {
    pub address: Seq<u8>,
    pub address_type: AddressType,
    pub rssi: i8,
    /// The name buffer, where the device gave a name.
    pub name: Option<Seq<u8>>,
    /// The number of bytes at the start of the buffer that are the name.
    pub name_len: int,
}

impl ScanResultView {
    /// The name length fits the name buffer of 32 bytes, and is 0 where
    /// there is no name.
    pub open spec fn well_formed(self) -> bool {
        &&& 0 <= self.name_len <= MAX_NAME_LEN
        &&& self.name is None ==> self.name_len == 0
        &&& self.name matches Some(buffer) ==> buffer.len() == MAX_NAME_LEN
    }

    /// The device's name: the valid bytes of the name buffer.
    pub open spec fn device_name(self) -> Option<Seq<u8>> {
        match self.name {
            Some(buffer) => Some(buffer.take(self.name_len)),
            None => None,
        }
    }
}

impl View for ScanResult {
    type V = ScanResultView;

    open spec fn view(&self) -> ScanResultView {
        ScanResultView {
            address: self.address.bytes@,
            address_type: self.address_type,
            rssi: self.rssi,
            name: match self.name {
                Some(buffer) => Some(buffer@),
                None => None,
            },
            name_len: self.name_len as int,
        }
    }
}

impl ScanResult {
    /// The name length fits the name buffer, and is 0 where there is no name.
    pub open spec fn well_formed(&self) -> bool {
        self@.well_formed()
    }

    /// Get the device name as a string slice: the valid bytes of the
    /// name, where there is a name and its bytes are valid UTF-8.
    pub fn name_str(&self) -> (text: Option<&str>)
        requires
            self.name_len <= MAX_NAME_LEN,
        ensures
            text is Some <==> self@.device_name() is Some && valid_utf8(
                self@.device_name().unwrap(),
            ),
            text matches Some(s) ==> s.spec_bytes() == self@.device_name().unwrap(),
    {
        match &self.name {
            Some(buffer) => {
                let bytes = vstd::slice::slice_subrange(buffer.as_slice(), 0, self.name_len);
                assert(bytes@ =~= buffer@.take(self.name_len as int));
                utf8_text(bytes)
            },
            None => None,
        }
    }
}

/// Handle to a BLE connection
#[derive(Debug, Clone, Copy, PartialEq, Eq, Structural)]
pub struct ConnectionHandle(pub u16);

/// UUID for GATT services and characteristics
#[derive(Debug, Clone, Copy, PartialEq, Eq)]
pub struct Uuid {
    /// UUID bytes (16 bytes for 128-bit UUID, first 2 for 16-bit)
    pub bytes: [u8; 16],
    /// True if this is a 16-bit UUID
    pub is_16bit: bool,
}

/// The Bluetooth Base UUID from its third byte on.
pub open spec fn base_uuid_tail() -> Seq<u8> {
    seq![0x00u8, 0x00, 0x00, 0x00, 0x10, 0x00, 0x80, 0x00, 0x00, 0x80, 0x5F, 0x9B, 0x34, 0xFB]
}

impl Uuid {
    /// Create a 16-bit UUID: the value, high byte first, followed by the
    /// tail of the Bluetooth Base UUID.
    pub fn from_u16(uuid: u16) -> (id: Self)
        ensures
            id.is_16bit,
            id.bytes@ == seq![(uuid / 256) as u8, (uuid % 256) as u8] + base_uuid_tail(),
    {
        let bytes: [u8; 16] = [
            (uuid / 256) as u8,
            (uuid % 256) as u8,
            0x00,
            0x00,
            0x00,
            0x00,
            0x10,
            0x00,
            0x80,
            0x00,
            0x00,
            0x80,
            0x5F,
            0x9B,
            0x34,
            0xFB,
        ];
        assert(bytes@ =~= seq![(uuid / 256) as u8, (uuid % 256) as u8] + base_uuid_tail());
        Self { bytes, is_16bit: true }
    }

    /// Create a 128-bit UUID
    pub fn from_bytes(bytes: [u8; 16]) -> (id: Self)
        ensures
            id.bytes == bytes,
            !id.is_16bit,
    {
        Self { bytes, is_16bit: false }
    }
}

/// Handle to a GATT characteristic
#[derive(Debug, Clone, Copy, PartialEq, Eq)]
pub struct CharacteristicHandle {
    /// Connection this characteristic belongs to
    pub connection: ConnectionHandle,
    /// Attribute handle
    pub handle: u16,
    /// Value handle
    pub value_handle: u16,
}

} // verus!
