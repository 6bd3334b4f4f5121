//! Bluetooth Low Energy over the Host Controller Interface.
//!
//! The driver speaks HCI to a controller through a packet-oriented
//! transport that its caller owns. Nothing here performs I/O: every
//! operation is a state machine that names the next transport action and
//! is handed what the transport answered.
//!
//! - [`transport`]: the actions and events of the transport.
//! - [`command`], [`sequence`]: commands and their command-complete events.
//! - [`link`], [`driver`]: opening and closing the transport.
//! - [`report`], [`scan`], [`scanner`]: scanning for advertising devices.
//! - [`advertise`], [`advertiser`]: advertising.
//! - [`att`], [`gatt`], [`server`]: the GATT server.
//! - [`nimble`]: a host stack that runs beside the driver.
//! - [`none`]: a platform without Bluetooth.

pub mod address;
pub mod advertise;
pub mod advertiser;
pub mod att;
pub mod command;
pub mod driver;
pub mod gatt;
pub mod link;
pub mod nimble;
pub mod none;
pub mod report;
pub mod scan;
pub mod scanner;
pub mod sequence;
pub mod server;
pub mod state;
pub mod transport;
pub mod types;
pub mod wire;

pub use types::{
    AddressType, BleAddress, BleError, BleResult, CharacteristicHandle, ConnectionHandle,
    ScanResult, Uuid,
};
