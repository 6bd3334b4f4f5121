//! The wireless-extensions driver: the parameters it sets to connect,
//! what system errors mean to it, and the event stream of its scan results.

use vstd::prelude::*;
use crate::wifi::bytes::{push_u16, push_u32, u16_bytes, u32_bytes, ByteOrder};
use crate::wifi::types::{AuthMode, ConnectionStatus, StationConfig, WifiError, WifiResult};

verus! {

/// WPA version: none.
pub const IW_AUTH_WPA_VERSION_DISABLED: u32 = 0x01;

/// WPA version: WPA.
pub const IW_AUTH_WPA_VERSION_WPA: u32 = 0x02;

/// WPA version: WPA2.
pub const IW_AUTH_WPA_VERSION_WPA2: u32 = 0x04;

/// Cipher: none.
pub const IW_AUTH_CIPHER_NONE: u32 = 0x01;

/// Cipher: TKIP.
pub const IW_AUTH_CIPHER_TKIP: u32 = 0x04;

/// Cipher: CCMP.
pub const IW_AUTH_CIPHER_CCMP: u32 = 0x08;

/// Key algorithm: CCMP.
pub const IW_ENCODE_ALG_CCMP: u16 = 3;

/// Key algorithm: PMK.
pub const IW_ENCODE_ALG_PMK: u16 = 4;

/// System error: resource temporarily unavailable.
pub const EAGAIN: i32 = 11;

/// System error: argument list too long.
pub const E2BIG: i32 = 7;

/// System error: no such device or address.
pub const ENXIO: i32 = 6;

/// System error: no such device.
pub const ENODEV: i32 = 19;

/// System error: not a typewriter, which says that a request is not known.
pub const ENOTTY: i32 = 25;

/// Event: address of an access point, which begins a network.
pub const SIOCGIWAP_EVENT: u16 = 0x8b15;

/// Event: ESSID.
pub const SIOCGIWESSID_EVENT: u16 = 0x8b1b;

/// Event: frequency or channel.
pub const SIOCGIWFREQ_EVENT: u16 = 0x8b05;

/// Event: encoding.
pub const SIOCGIWENCODE_EVENT: u16 = 0x8b2b;

/// Event: link quality.
pub const IWEVQUAL: u16 = 0x8c01;

/// Encoding flag: encoding is disabled.
pub const IW_ENCODE_DISABLED: u16 = 0x8000;

/// Size of the header of a key request, before the key.
pub const KEY_HEADER_LEN: usize = 40;

/// Size of the buffer of a key request.
pub const KEY_BUFFER_LEN: usize = 128;

/// Hardware type of an Ethernet address.
pub const ARPHRD_ETHER: u16 = 1;

/// Most networks that one reading of the scan results gives.
pub const MAX_NETWORKS: usize = 16;

/// The WPA version and the cipher that an authentication mode is
/// connected with: none for open and WEP, WPA with TKIP for WPA, and WPA2
/// with CCMP for every other mode.
pub open spec fn auth_parameters_of(mode: AuthMode) -> (u32, u32) {
    match mode {
        AuthMode::Open => (IW_AUTH_WPA_VERSION_DISABLED, IW_AUTH_CIPHER_NONE),
        AuthMode::Wep => (IW_AUTH_WPA_VERSION_DISABLED, IW_AUTH_CIPHER_NONE),
        AuthMode::WpaPsk => (IW_AUTH_WPA_VERSION_WPA, IW_AUTH_CIPHER_TKIP),
        _ => (IW_AUTH_WPA_VERSION_WPA2, IW_AUTH_CIPHER_CCMP),
    }
}

/// The WPA version and the cipher that an authentication mode is
/// connected with.
pub fn auth_parameters(mode: AuthMode) -> (parameters: (u32, u32))
    ensures
        parameters == auth_parameters_of(mode),
{
    match mode {
        AuthMode::Open => (IW_AUTH_WPA_VERSION_DISABLED, IW_AUTH_CIPHER_NONE),
        AuthMode::Wep => (IW_AUTH_WPA_VERSION_DISABLED, IW_AUTH_CIPHER_NONE),
        AuthMode::WpaPsk => (IW_AUTH_WPA_VERSION_WPA, IW_AUTH_CIPHER_TKIP),
        _ => (IW_AUTH_WPA_VERSION_WPA2, IW_AUTH_CIPHER_CCMP),
    }
}

/// The algorithm that the key is set with: CCMP for the CCMP cipher, PMK
/// for any other.
pub fn key_algorithm(cipher: u32) -> (algorithm: u16)
    ensures
        algorithm == if cipher == IW_AUTH_CIPHER_CCMP {
            IW_ENCODE_ALG_CCMP
        } else {
            IW_ENCODE_ALG_PMK
        },
{
    if cipher == IW_AUTH_CIPHER_CCMP {
        IW_ENCODE_ALG_CCMP
    } else {
        IW_ENCODE_ALG_PMK
    }
}

/// Whether a key is set to connect: there is a password and the mode is
/// not open.
pub fn needs_key(config: &StationConfig) -> (needed: bool)
    ensures
        needed == (config.password_len > 0 && config.auth_mode != AuthMode::Open),
{
    config.password_len > 0 && !matches!(config.auth_mode, AuthMode::Open)
}

/// `count` bytes of the same value.
pub open spec fn repeated(value: u8, count: int) -> Seq<u8> {
    Seq::new(count as nat, |i: int| value)
}

/// The part of a key that fits the buffer of a key request.
pub open spec fn key_part(key: Seq<u8>) -> Seq<u8> {
    if key.len() <= KEY_BUFFER_LEN - KEY_HEADER_LEN {
        key
    } else {
        key.take(KEY_BUFFER_LEN - KEY_HEADER_LEN)
    }
}

/// A key request: no flags, two zeroed sequence counters, the broadcast
/// Ethernet address, the algorithm, the length of the key, and as much of
/// the key as fits.
pub open spec fn key_request(alg: u16, key: Seq<u8>, order: ByteOrder) -> Seq<u8> {
    u32_bytes(0, order) + repeated(0, 16) + u16_bytes(ARPHRD_ETHER, order) + repeated(0xFF, 6)
        + repeated(0, 8) + u16_bytes(alg, order) + u16_bytes(key.len() as u16, order) + key_part(
        key,
    )
}

/// Builds a key request.
pub fn build_key_request(alg: u16, key: &[u8], order: ByteOrder) -> (request: Vec<u8>)
    requires
        key@.len() <= u16::MAX,
    ensures
        request@ == key_request(alg, key@, order),
        request@.len() == KEY_HEADER_LEN + key_part(key@).len(),
        request@.len() <= KEY_BUFFER_LEN,
{
    let mut request: Vec<u8> = Vec::new();
    push_u32(&mut request, 0, order);
    let mut i: usize = 0;
    while i < 16
        invariant
            i <= 16,
            request@ == u32_bytes(0, order) + repeated(0, i as int),
        decreases 16 - i,
    {
        request.push(0);
        i += 1;
        assert(request@ =~= u32_bytes(0, order) + repeated(0, i as int));
    }
    push_u16(&mut request, ARPHRD_ETHER, order);
    let ghost head = request@;
    i = 0;
    while i < 6
        invariant
            i <= 6,
            request@ == head + repeated(0xFF, i as int),
        decreases 6 - i,
    {
        request.push(0xFF);
        i += 1;
        assert(request@ =~= head + repeated(0xFF, i as int));
    }
    let ghost addressed = request@;
    i = 0;
    while i < 8
        invariant
            i <= 8,
            request@ == addressed + repeated(0, i as int),
        decreases 8 - i,
    {
        request.push(0);
        i += 1;
        assert(request@ =~= addressed + repeated(0, i as int));
    }
    push_u16(&mut request, alg, order);
    push_u16(&mut request, key.len() as u16, order);
    let count: usize = if key.len() <= KEY_BUFFER_LEN - KEY_HEADER_LEN {
        key.len()
    } else {
        KEY_BUFFER_LEN - KEY_HEADER_LEN
    };
    let part = vstd::slice::slice_subrange(key, 0, count);
    assert(part@ =~= key_part(key@));
    request.extend_from_slice(part);
    assert(request@ =~= key_request(alg, key@, order));
    request
}

/// Whether an address is that of an access point: not all zeros and not
/// all ones.
pub open spec fn names_access_point(address: Seq<u8>) -> bool {
    &&& exists|i: int| 0 <= i < address.len() && address[i] != 0
    &&& exists|i: int| 0 <= i < address.len() && address[i] != 0xFF
}

/// Get current connection status from how asking for the access point
/// ended and the address it gave: connected exactly when the request
/// succeeded and the address is that of an access point.
pub fn connection_status(succeeded: bool, address: &[u8; 6]) -> (status: ConnectionStatus)
    ensures
        status == if succeeded && names_access_point(address@) {
            ConnectionStatus::Connected
        } else {
            ConnectionStatus::Disconnected
        },
{
    if !succeeded {
        return ConnectionStatus::Disconnected;
    }
    let mut zero = true;
    let mut ones = true;
    let mut i: usize = 0;
    while i < 6
        invariant
            i <= 6,
            zero <==> forall|k: int| 0 <= k < i ==> address@[k] == 0,
            ones <==> forall|k: int| 0 <= k < i ==> address@[k] == 0xFF,
        decreases 6 - i,
    {
        if address[i] != 0 {
            zero = false;
        }
        if address[i] != 0xFF {
            ones = false;
        }
        i += 1;
    }
    if zero || ones {
        ConnectionStatus::Disconnected
    } else {
        ConnectionStatus::Connected
    }
}

/// Check if scan is complete, from how asking for the results with a
/// buffer of one byte ended: success, and a buffer that is too small, say
/// that results are ready; a resource that is not yet available says
/// that the scan is still under way; any other error is a failed scan.
pub fn scan_completion(ret: i32, errno: i32) -> (complete: WifiResult<bool>)
    ensures
        complete == if ret >= 0 || errno == E2BIG {
            Ok::<bool, WifiError>(true)
        } else if errno == EAGAIN {
            Ok::<bool, WifiError>(false)
        } else {
            Err::<bool, WifiError>(WifiError::ScanFailed)
        },
{
    if ret < 0 {
        if errno == E2BIG {
            return Ok(true);
        }
        if errno == EAGAIN {
            return Ok(false);
        }
        return Err(WifiError::ScanFailed);
    }
    Ok(true)
}

/// The error of a failed request for the scan results: a scan still
/// under way where the resource is not yet available, a failed scan
/// otherwise.
pub fn scan_fetch_error(errno: i32) -> (error: WifiError)
    ensures
        error == if errno == EAGAIN {
            WifiError::ScanInProgress
        } else {
            WifiError::ScanFailed
        },
{
    if errno == EAGAIN {
        WifiError::ScanInProgress
    } else {
        WifiError::ScanFailed
    }
}

/// The error of a failed request for the hardware address: not supported
/// where the request is not known, interface not found otherwise.
pub fn mac_address_error(errno: i32) -> (error: WifiError)
    ensures
        error == if errno == ENOTTY {
            WifiError::NotSupported
        } else {
            WifiError::InterfaceNotFound
        },
{
    if errno == ENODEV || errno == ENXIO {
        return WifiError::InterfaceNotFound;
    }
    if errno == ENOTTY {
        return WifiError::NotSupported;
    }
    WifiError::InterfaceNotFound
}

/// The channel of a frequency in MHz, or of a channel number: a number
/// below 15 is a channel already; 2412 to 2484 MHz are channels 1 to 14;
/// anything else is channel 0.
pub open spec fn wext_channel_of(freq_mhz: u32) -> u8 {
    if freq_mhz < 15 {
        freq_mhz as u8
    } else if freq_mhz == 2484 {
        14
    } else if 2412 <= freq_mhz <= 2484 {
        ((freq_mhz - 2412) / 5 + 1) as u8
    } else {
        0
    }
}

/// The channel of a frequency in MHz, or of a channel number.
pub fn wext_channel(freq_mhz: u32) -> (channel: u8)
    ensures
        channel == wext_channel_of(freq_mhz),
{
    if freq_mhz < 15 {
        freq_mhz as u8
    } else if freq_mhz >= 2412 && freq_mhz <= 2484 {
        if freq_mhz == 2484 {
            14
        } else {
            ((freq_mhz - 2412) / 5 + 1) as u8
        }
    } else {
        0
    }
}

} // verus!
