//! Data types of the WiFi driver.

use vstd::prelude::*;
use vstd::string::{StringExecFns, StringSliceAdditionalSpecFns};
use vstd::utf8::valid_utf8;
use crate::text::{
    append_decimal, append_signed, decimal_text, signed_text, upper_hex_ascii, upper_hex_code,
    utf8_text,
};

verus! {

/// WiFi operation errors
#[derive(Debug, Clone, Copy, PartialEq, Eq, Structural)]
pub enum WifiError {
    /// WiFi not initialized
    NotInitialized,
    /// Already initialized
    AlreadyInitialized,
    /// Socket creation failed
    SocketError,
    /// Interface not found
    InterfaceNotFound,
    /// Scan failed
    ScanFailed,
    /// Scan still in progress
    ScanInProgress,
    /// Connection failed
    ConnectionFailed,
    /// Authentication failed
    AuthenticationFailed,
    /// Network not found
    NetworkNotFound,
    /// Invalid password
    InvalidPassword,
    /// Timeout occurred
    Timeout,
    /// Configuration error
    ConfigurationError,
    /// Operation not supported on this platform
    NotSupported,
    /// System error with errno
    SystemError(i32),
}

/// Result type for WiFi operations
pub type WifiResult<T> = Result<T, WifiError>;

impl WifiError {
    /// The text shown to a user for this error.
    pub open spec fn text(self) -> Seq<char> {
        match self {
            WifiError::NotInitialized => "WiFi not initialized"@,
            WifiError::AlreadyInitialized => "WiFi already initialized"@,
            WifiError::SocketError => "Socket creation failed"@,
            WifiError::InterfaceNotFound => "Interface not found"@,
            WifiError::ScanFailed => "Scan failed"@,
            WifiError::ScanInProgress => "Scan in progress"@,
            WifiError::ConnectionFailed => "Connection failed"@,
            WifiError::AuthenticationFailed => "Authentication failed"@,
            WifiError::NetworkNotFound => "Network not found"@,
            WifiError::InvalidPassword => "Invalid password"@,
            WifiError::Timeout => "Timeout"@,
            WifiError::ConfigurationError => "Configuration error"@,
            WifiError::NotSupported => "Not supported on this platform"@,
            WifiError::SystemError(code) => "System error: "@ + signed_text(code as int),
        }
    }

    /// The text shown to a user for this error.
    pub fn to_string(&self) -> (text: String)
        ensures
            text@ == self.text(),
    {
        match self {
            WifiError::NotInitialized => "WiFi not initialized".to_owned(),
            WifiError::AlreadyInitialized => "WiFi already initialized".to_owned(),
            WifiError::SocketError => "Socket creation failed".to_owned(),
            WifiError::InterfaceNotFound => "Interface not found".to_owned(),
            WifiError::ScanFailed => "Scan failed".to_owned(),
            WifiError::ScanInProgress => "Scan in progress".to_owned(),
            WifiError::ConnectionFailed => "Connection failed".to_owned(),
            WifiError::AuthenticationFailed => "Authentication failed".to_owned(),
            WifiError::NetworkNotFound => "Network not found".to_owned(),
            WifiError::InvalidPassword => "Invalid password".to_owned(),
            WifiError::Timeout => "Timeout".to_owned(),
            WifiError::ConfigurationError => "Configuration error".to_owned(),
            WifiError::NotSupported => "Not supported on this platform".to_owned(),
            WifiError::SystemError(code) => {
                let mut text = "System error: ".to_owned();
                append_signed(&mut text, *code);
                text
            },
        }
    }
}

/// WiFi operating mode
#[derive(Debug, Clone, Copy, PartialEq, Eq, Structural)]
pub enum WifiMode {
    /// Automatically select mode
    Auto,
    /// Ad-hoc (IBSS) mode
    AdHoc,
    /// Infrastructure (managed/station) mode
    Station,
    /// Access Point (master) mode
    AccessPoint,
    /// Monitor mode
    Monitor,
}

impl WifiMode {
    /// The number that wireless drivers know the mode by.
    pub open spec fn number(self) -> u32 {
        match self {
            WifiMode::Auto => 0,
            WifiMode::AdHoc => 1,
            WifiMode::Station => 2,
            WifiMode::AccessPoint => 3,
            WifiMode::Monitor => 6,
        }
    }

    /// The mode of a number; a number that names no mode counts as `Auto`.
    pub open spec fn of_number(number: u32) -> WifiMode {
        if number == 1 {
            WifiMode::AdHoc
        } else if number == 2 {
            WifiMode::Station
        } else if number == 3 {
            WifiMode::AccessPoint
        } else if number == 6 {
            WifiMode::Monitor
        } else {
            WifiMode::Auto
        }
    }

    /// The number that wireless drivers know the mode by.
    pub fn code(&self) -> (number: u32)
        ensures
            number == self.number(),
    {
        match self {
            WifiMode::Auto => 0,
            WifiMode::AdHoc => 1,
            WifiMode::Station => 2,
            WifiMode::AccessPoint => 3,
            WifiMode::Monitor => 6,
        }
    }

    /// The mode of a number.
    pub fn from_code(number: u32) -> (mode: WifiMode)
        ensures
            mode == Self::of_number(number),
    {
        if number == 1 {
            WifiMode::AdHoc
        } else if number == 2 {
            WifiMode::Station
        } else if number == 3 {
            WifiMode::AccessPoint
        } else if number == 6 {
            WifiMode::Monitor
        } else {
            WifiMode::Auto
        }
    }

    /// A mode's number names that mode.
    pub proof fn lemma_number_round_trip(self)
        ensures
            Self::of_number(self.number()) == self,
    {
    }
}

/// WiFi authentication mode
#[derive(Debug, Clone, Copy, PartialEq, Eq, Structural)]
pub enum AuthMode {
    /// Open (no authentication)
    Open,
    /// WEP (deprecated)
    Wep,
    /// WPA-PSK
    WpaPsk,
    /// WPA2-PSK
    Wpa2Psk,
    /// WPA3-PSK
    Wpa3Psk,
    /// WPA/WPA2 mixed
    WpaWpa2Psk,
    /// Unknown
    Unknown,
}

impl Default for AuthMode {
    /// Open is the default.
    fn default() -> (mode: Self)
        ensures
            mode == AuthMode::Open,
    {
        AuthMode::Open
    }
}

/// Longest SSID in bytes.
pub const MAX_SSID_LEN: usize = 32;

/// Longest passphrase in bytes.
pub const MAX_PASSWORD_LEN: usize = 64;

/// WiFi scan result
#[derive(Debug, Clone, Copy)]
pub struct ScanResult {
    /// SSID (network name)
    pub ssid: [u8; 32],
    /// SSID length
    pub ssid_len: usize,
    /// BSSID (AP MAC address)
    pub bssid: [u8; 6],
    /// Channel number
    pub channel: u8,
    /// Signal strength in dBm
    pub rssi: i8,
    /// Authentication mode
    pub auth_mode: AuthMode,
}

/// A WiFi scan result as plain values.
pub struct ScanResultView {
    pub ssid: Seq<u8>,
    pub ssid_len: int,
    pub bssid: Seq<u8>,
    pub channel: u8,
    pub rssi: i8,
    pub auth_mode: AuthMode,
}

impl View for ScanResult {
    type V = ScanResultView;

    open spec fn view(&self) -> ScanResultView {
        ScanResultView {
            ssid: self.ssid@,
            ssid_len: self.ssid_len as int,
            bssid: self.bssid@,
            channel: self.channel,
            rssi: self.rssi,
            auth_mode: self.auth_mode,
        }
    }
}

/// `count` zero bytes.
pub open spec fn zero_bytes(count: int) -> Seq<u8> {
    Seq::new(count as nat, |i: int| 0u8)
}

impl ScanResultView {
    /// The result that a fresh record holds: nothing but zeros, open.
    pub open spec fn empty() -> ScanResultView {
        ScanResultView {
            ssid: zero_bytes(32),
            ssid_len: 0,
            bssid: zero_bytes(6),
            channel: 0,
            rssi: 0,
            auth_mode: AuthMode::Open,
        }
    }

    /// The name of the network: the valid bytes of the SSID.
    pub open spec fn name(self) -> Seq<u8> {
        self.ssid.take(self.ssid_len)
    }
}

/// A MAC address as text: six bytes as two upper-case hexadecimal digits
/// each, separated by colons, in ASCII.
pub open spec fn mac_text(mac: Seq<u8>) -> Seq<u8> {
    Seq::new(
        17,
        |i: int|
            if i % 3 == 0 {
                upper_hex_code(mac[i / 3] as int / 16)
            } else if i % 3 == 1 {
                upper_hex_code(mac[i / 3] as int % 16)
            } else {
                0x3Au8
            },
    )
}

impl Default for ScanResult {
    /// A record of zeros with open authentication.
    fn default() -> (result: Self)
        ensures
            result@ == ScanResultView::empty(),
    {
        let result = ScanResult {
            ssid: [0u8; 32],
            ssid_len: 0,
            bssid: [0u8; 6],
            channel: 0,
            rssi: 0,
            auth_mode: AuthMode::Open,
        };
        assert(result.ssid@ =~= zero_bytes(32));
        assert(result.bssid@ =~= zero_bytes(6));
        result
    }
}

impl ScanResult {
    /// Get SSID as string: the valid bytes of the SSID, where they are
    /// valid UTF-8.
    pub fn ssid_str(&self) -> (text: Option<&str>)
        requires
            self.ssid_len <= MAX_SSID_LEN,
        ensures
            text is Some <==> valid_utf8(self@.name()),
            text matches Some(s) ==> s.spec_bytes() == self@.name(),
    {
        let bytes = vstd::slice::slice_subrange(self.ssid.as_slice(), 0, self.ssid_len);
        assert(bytes@ =~= self@.name());
        utf8_text(bytes)
    }

    /// Format BSSID as MAC address string
    pub fn bssid_str(&self) -> (text: [u8; 17])
        ensures
            text@ == mac_text(self.bssid@),
    {
        let mut text: [u8; 17] = [0u8; 17];
        let mut i: usize = 0;
        while i < 6
            invariant
                i <= 6,
                forall|k: int| 0 <= k < 3 * i && k < 17 ==> text@[k] == mac_text(self.bssid@)[k],
            decreases 6 - i,
        {
            text[i * 3] = upper_hex_ascii(self.bssid[i] / 16);
            text[i * 3 + 1] = upper_hex_ascii(self.bssid[i] % 16);
            if i < 5 {
                text[i * 3 + 2] = 0x3A;
            }
            i += 1;
        }
        assert(text@ =~= mac_text(self.bssid@));
        text
    }
}

/// Station mode configuration
#[derive(Debug, Clone, Copy)]
pub struct StationConfig {
    /// SSID (network name)
    pub ssid: [u8; 32],
    /// SSID length
    pub ssid_len: usize,
    /// Password/passphrase
    pub password: [u8; 64],
    /// Password length
    pub password_len: usize,
    /// Optional specific BSSID
    pub bssid: Option<[u8; 6]>,
    /// Optional channel
    pub channel: Option<u8>,
    /// Authentication mode
    pub auth_mode: AuthMode,
}

/// The first `limit` bytes of `text`, filled up with zeros to `limit` bytes.
pub open spec fn padded(text: Seq<u8>, limit: int) -> Seq<u8> {
    if text.len() >= limit {
        text.take(limit)
    } else {
        text + zero_bytes(limit - text.len())
    }
}

/// The smaller of a length and a limit.
pub open spec fn capped(len: int, limit: int) -> int {
    if len <= limit {
        len
    } else {
        limit
    }
}

/// Copies the first 32 bytes of `text` into a zeroed buffer.
pub fn fill_32(text: &[u8]) -> (filled: ([u8; 32], usize))
    ensures
        filled.0@ == padded(text@, 32),
        filled.1 == capped(text@.len() as int, 32),
{
    let count: usize = if text.len() <= 32 {
        text.len()
    } else {
        32
    };
    let mut buffer: [u8; 32] = [0u8; 32];
    let mut i: usize = 0;
    while i < count
        invariant
            i <= count <= 32,
            count <= text@.len(),
            forall|k: int| 0 <= k < i ==> buffer@[k] == text@[k],
            forall|k: int| i <= k < 32 ==> buffer@[k] == 0,
        decreases count - i,
    {
        buffer[i] = text[i];
        i += 1;
    }
    assert(buffer@ =~= padded(text@, 32));
    (buffer, count)
}

/// Copies the first 64 bytes of `text` into a zeroed buffer.
pub fn fill_64(text: &[u8]) -> (filled: ([u8; 64], usize))
    ensures
        filled.0@ == padded(text@, 64),
        filled.1 == capped(text@.len() as int, 64),
{
    let count: usize = if text.len() <= 64 {
        text.len()
    } else {
        64
    };
    let mut buffer: [u8; 64] = [0u8; 64];
    let mut i: usize = 0;
    while i < count
        invariant
            i <= count <= 64,
            count <= text@.len(),
            forall|k: int| 0 <= k < i ==> buffer@[k] == text@[k],
            forall|k: int| i <= k < 64 ==> buffer@[k] == 0,
        decreases count - i,
    {
        buffer[i] = text[i];
        i += 1;
    }
    assert(buffer@ =~= padded(text@, 64));
    (buffer, count)
}

impl StationConfig {
    /// Create a new station config from SSID and password strings: the
    /// first 32 bytes of the SSID and the first 64 of the password are
    /// kept, no BSSID and no channel are asked for, and the
    /// authentication mode is WPA2-PSK.
    pub fn new(ssid: &str, password: &str) -> (config: Self)
        ensures
            config.ssid@ == padded(ssid.spec_bytes(), 32),
            config.ssid_len == capped(ssid.spec_bytes().len() as int, 32),
            config.password@ == padded(password.spec_bytes(), 64),
            config.password_len == capped(password.spec_bytes().len() as int, 64),
            config.bssid is None,
            config.channel is None,
            config.auth_mode == AuthMode::Wpa2Psk,
    {
        let (ssid, ssid_len) = fill_32(ssid.as_bytes());
        let (password, password_len) = fill_64(password.as_bytes());
        StationConfig {
            ssid,
            ssid_len,
            password,
            password_len,
            bssid: None,
            channel: None,
            auth_mode: AuthMode::Wpa2Psk,
        }
    }
}

/// Connection status
#[derive(Debug, Clone, Copy, PartialEq, Eq, Structural)]
pub enum ConnectionStatus {
    /// Not connected
    Disconnected,
    /// Connecting in progress
    Connecting,
    /// Connected to AP
    Connected,
    /// Connection failed
    Failed,
}

/// IP configuration
#[derive(Debug, Clone, Copy)]
pub struct IpInfo {
    /// IP address
    pub ip: [u8; 4],
    /// Subnet mask
    pub netmask: [u8; 4],
    /// Gateway address
    pub gateway: [u8; 4],
}

/// Four bytes in dotted decimal.
pub open spec fn dotted(address: Seq<u8>) -> Seq<char> {
    decimal_text(address[0] as nat) + seq!['.'] + decimal_text(address[1] as nat) + seq!['.']
        + decimal_text(address[2] as nat) + seq!['.'] + decimal_text(address[3] as nat)
}

impl IpInfo {
    /// The IP address in dotted decimal.
    pub fn to_string(&self) -> (text: String)
        ensures
            text@ == dotted(self.ip@),
    {
        proof {
            reveal_strlit(".");
        }
        let mut text = String::new();
        append_decimal(&mut text, self.ip[0] as u64);
        text.append(".");
        append_decimal(&mut text, self.ip[1] as u64);
        text.append(".");
        append_decimal(&mut text, self.ip[2] as u64);
        text.append(".");
        append_decimal(&mut text, self.ip[3] as u64);
        assert(text@ =~= dotted(self.ip@));
        text
    }
}

} // verus!
