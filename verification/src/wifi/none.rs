//! WiFi on a platform that has none: every operation reports that it is
//! not supported.

use vstd::prelude::*;
use crate::wifi::types::{
    ConnectionStatus, IpInfo, ScanResult, StationConfig, WifiError, WifiMode, WifiResult,
};

verus! {

/// Initialize WiFi: not supported.
pub fn wifi_initialize() -> (done: WifiResult<()>)
    ensures
        done == Err::<(), WifiError>(WifiError::NotSupported),
{
    Err(WifiError::NotSupported)
}

/// Deinitialize WiFi: not supported.
pub fn wifi_deinitialize() -> (done: WifiResult<()>)
    ensures
        done == Err::<(), WifiError>(WifiError::NotSupported),
{
    Err(WifiError::NotSupported)
}

/// Check if WiFi is initialized: never.
pub fn wifi_is_initialized() -> (initialized: bool)
    ensures
        !initialized,
{
    false
}

/// Set the operating mode: not supported.
pub fn wifi_set_mode(mode: WifiMode) -> (done: WifiResult<()>)
    ensures
        done == Err::<(), WifiError>(WifiError::NotSupported),
{
    Err(WifiError::NotSupported)
}

/// Get the operating mode: not supported.
pub fn wifi_get_mode() -> (mode: WifiResult<WifiMode>)
    ensures
        mode == Err::<WifiMode, WifiError>(WifiError::NotSupported),
{
    Err(WifiError::NotSupported)
}

/// Start a scan: not supported.
pub fn wifi_start_scan() -> (done: WifiResult<()>)
    ensures
        done == Err::<(), WifiError>(WifiError::NotSupported),
{
    Err(WifiError::NotSupported)
}

/// Check if the scan is complete: not supported.
pub fn wifi_scan_is_complete() -> (complete: WifiResult<bool>)
    ensures
        complete == Err::<bool, WifiError>(WifiError::NotSupported),
{
    Err(WifiError::NotSupported)
}

/// Get scan results: not supported.
pub fn wifi_get_scan_results() -> (results: WifiResult<([ScanResult; 16], usize)>)
    ensures
        results is Err,
        results->Err_0 == WifiError::NotSupported,
{
    Err(WifiError::NotSupported)
}

/// Connect to a network: not supported.
pub fn wifi_connect(config: &StationConfig) -> (done: WifiResult<()>)
    ensures
        done == Err::<(), WifiError>(WifiError::NotSupported),
{
    Err(WifiError::NotSupported)
}

/// Disconnect from the network: not supported.
pub fn wifi_disconnect() -> (done: WifiResult<()>)
    ensures
        done == Err::<(), WifiError>(WifiError::NotSupported),
{
    Err(WifiError::NotSupported)
}

/// Get the connection status: not supported.
pub fn wifi_get_connection_status() -> (status: WifiResult<ConnectionStatus>)
    ensures
        status == Err::<ConnectionStatus, WifiError>(WifiError::NotSupported),
{
    Err(WifiError::NotSupported)
}

/// Get the current ESSID: not supported.
pub fn wifi_get_essid() -> (essid: WifiResult<([u8; 32], usize)>)
    ensures
        essid is Err,
        essid->Err_0 == WifiError::NotSupported,
{
    Err(WifiError::NotSupported)
}

/// Get IP information: not supported.
pub fn wifi_get_ip_info() -> (info: WifiResult<IpInfo>)
    ensures
        info is Err,
        info->Err_0 == WifiError::NotSupported,
{
    Err(WifiError::NotSupported)
}

/// Get signal strength: not supported.
pub fn wifi_get_rssi() -> (rssi: WifiResult<i8>)
    ensures
        rssi == Err::<i8, WifiError>(WifiError::NotSupported),
{
    Err(WifiError::NotSupported)
}

/// Get the MAC address: not supported.
pub fn wifi_get_mac_address() -> (mac: WifiResult<[u8; 6]>)
    ensures
        mac is Err,
        mac->Err_0 == WifiError::NotSupported,
{
    Err(WifiError::NotSupported)
}

} // verus!
