//! WiFi: the data types of scanning and connecting, the netlink
//! messages of the nl80211 driver, and the requests and events of the
//! wireless-extensions driver.

pub mod answer;
pub mod bytes;
pub mod linux;
pub mod netlink;
pub mod nl80211;
pub mod none;
pub mod types;
pub mod wext;
pub mod wext_scan;

pub use types::{
    AuthMode, ConnectionStatus, IpInfo, ScanResult, StationConfig, WifiError, WifiMode, WifiResult,
};
