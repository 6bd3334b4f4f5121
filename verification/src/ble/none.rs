//! Bluetooth on a platform that has none: every operation reports that
//! it is not supported.

use vstd::prelude::*;
use crate::ble::types::{
    BleAddress, BleError, BleResult, CharacteristicHandle, ConnectionHandle, ScanResult, Uuid,
};

verus! {

/// Initialize BLE subsystem: not supported.
pub fn ble_initialize() -> (done: BleResult<()>)
    ensures
        done == Err::<(), BleError>(BleError::NotSupported),
{
    Err(BleError::NotSupported)
}

/// Deinitialize BLE subsystem: not supported.
pub fn ble_deinitialize() -> (done: BleResult<()>)
    ensures
        done == Err::<(), BleError>(BleError::NotSupported),
{
    Err(BleError::NotSupported)
}

/// Start BLE scanning: not supported.
pub fn ble_start_scan(timeout_ms: u32) -> (done: BleResult<()>)
    ensures
        done == Err::<(), BleError>(BleError::NotSupported),
{
    Err(BleError::NotSupported)
}

/// Stop BLE scanning: not supported.
pub fn ble_stop_scan() -> (done: BleResult<()>)
    ensures
        done == Err::<(), BleError>(BleError::NotSupported),
{
    Err(BleError::NotSupported)
}

/// Get scan results: not supported.
pub fn ble_get_scan_results() -> (results: BleResult<Vec<ScanResult>>)
    ensures
        results is Err,
        results->Err_0 == BleError::NotSupported,
{
    Err(BleError::NotSupported)
}

/// Connect to a BLE device: not supported.
pub fn ble_connect(address: &BleAddress, timeout_ms: u32) -> (connection: BleResult<
    ConnectionHandle,
>)
    ensures
        connection is Err,
        connection->Err_0 == BleError::NotSupported,
{
    Err(BleError::NotSupported)
}

/// Disconnect from a BLE device: not supported.
pub fn ble_disconnect(handle: ConnectionHandle) -> (done: BleResult<()>)
    ensures
        done == Err::<(), BleError>(BleError::NotSupported),
{
    Err(BleError::NotSupported)
}

/// Discover GATT services: not supported.
pub fn gatt_discover_services(handle: ConnectionHandle) -> (services: BleResult<Vec<Uuid>>)
    ensures
        services is Err,
        services->Err_0 == BleError::NotSupported,
{
    Err(BleError::NotSupported)
}

/// Read a GATT characteristic: not supported.
pub fn gatt_read_characteristic(characteristic: CharacteristicHandle) -> (value: BleResult<Vec<u8>>)
    ensures
        value is Err,
        value->Err_0 == BleError::NotSupported,
{
    Err(BleError::NotSupported)
}

/// Write to a GATT characteristic: not supported.
pub fn gatt_write_characteristic(characteristic: CharacteristicHandle, data: &[u8]) -> (done:
    BleResult<()>)
    ensures
        done == Err::<(), BleError>(BleError::NotSupported),
{
    Err(BleError::NotSupported)
}

/// Start BLE advertising: not supported.
pub fn ble_start_advertising(name: &str) -> (done: BleResult<()>)
    ensures
        done == Err::<(), BleError>(BleError::NotSupported),
{
    Err(BleError::NotSupported)
}

/// Stop BLE advertising: not supported.
pub fn ble_stop_advertising() -> (done: BleResult<()>)
    ensures
        done == Err::<(), BleError>(BleError::NotSupported),
{
    Err(BleError::NotSupported)
}

/// Run a GATT server: not supported.
pub fn ble_run_gatt_server(name: &str, timeout_ms: u32) -> (done: BleResult<()>)
    ensures
        done == Err::<(), BleError>(BleError::NotSupported),
{
    Err(BleError::NotSupported)
}

} // verus!
