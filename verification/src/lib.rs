//! Hardware abstraction layer: heap statistics, a Bluetooth Low Energy
//! controller driver with a small GATT server, a camera and WiFi.
//!
//! Nothing here performs I/O. The BLE driver is a set of state machines:
//! each operation names the transport action that its caller is to
//! perform next and is handed how that action ended. The camera and WiFi
//! modules hold the data types of their drivers, build the requests that
//! the drivers send, and read the answers that come back.

pub mod ble;
pub mod camera;
pub mod errno;
pub mod heap;
pub mod text;
pub mod wifi;
