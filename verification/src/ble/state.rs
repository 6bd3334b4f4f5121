//! What the driver remembers between operations.

use vstd::prelude::*;
use crate::ble::scan::{
    all_well_formed, one_per_address, records_well_formed, result_views, MAX_SCAN_RESULTS,
};
use crate::ble::types::{ScanResult, ScanResultView};

verus! {

/// The driver's state: whether its transport is open, what is switched
/// on, and what the last scan found.
#[derive(Debug)]
pub struct BleState {
    /// The channel of the open transport; `None` while there is no transport.
    pub channel: Option<u16>,
    /// Whether a scan is under way.
    pub scanning: bool,
    /// Whether advertising is switched on.
    pub advertising: bool,
    /// The devices that the last scan found, in the order in which it heard them.
    pub scan_results: Vec<ScanResult>,
}

/// The driver's state as plain values.
pub struct BleStateView {
    pub channel: Option<u16>,
    pub scanning: bool,
    pub advertising: bool,
    pub scan_results: Seq<ScanResultView>,
}

impl View for BleState {
    type V = BleStateView;

    open spec fn view(&self) -> BleStateView {
        BleStateView {
            channel: self.channel,
            scanning: self.scanning,
            advertising: self.advertising,
            scan_results: result_views(self.scan_results@),
        }
    }
}

impl BleStateView {
    /// The state before anything was initialized.
    pub open spec fn initial() -> BleStateView {
        BleStateView {
            channel: None,
            scanning: false,
            advertising: false,
            scan_results: Seq::empty(),
        }
    }

    /// Whether the transport is open.
    pub open spec fn is_open(self) -> bool {
        self.channel is Some
    }
}

impl BleState {
    /// Every record of the last scan is well formed: its name length fits
    /// the name buffer, and is 0 where it has no name.
    pub open spec fn records_well_formed(&self) -> bool {
        all_well_formed(self.scan_results@)
    }

    /// The state of a driver that has no transport yet.
    pub fn new() -> (state: BleState)
        ensures
            state@ == BleStateView::initial(),
            state.scan_results@.len() == 0,
            state.records_well_formed(),
    {
        let state = BleState {
            channel: None,
            scanning: false,
            advertising: false,
            scan_results: Vec::new(),
        };
        assert(state@.scan_results =~= Seq::empty());
        state
    }

    /// Whether the transport is open.
    pub fn is_open(&self) -> (open: bool)
        ensures
            open == self@.is_open(),
    {
        self.channel.is_some()
    }
}


impl BleStateView {
    /// The results of the last scan are at most 32, no two of them share
    /// an address, and each of them is well formed.
    pub open spec fn well_formed(self) -> bool {
        &&& self.scan_results.len() <= MAX_SCAN_RESULTS
        &&& one_per_address(self.scan_results)
        &&& records_well_formed(self.scan_results)
    }
}

} // verus!
