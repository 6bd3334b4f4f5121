//! The nl80211 driver's state and what it decides from the answers that
//! its caller fetched.

use vstd::prelude::*;
use crate::wifi::answer::{interface_views, result_views, WifiInterface, WifiInterfaceView};
use crate::wifi::nl80211::NL80211_IFTYPE_STATION;
use crate::wifi::types::{
    padded, zero_bytes, ConnectionStatus, IpInfo, ScanResult, ScanResultView, StationConfig,
    WifiError, WifiMode, WifiResult,
};

verus! {

/// Most scan results that are handed out at once.
pub const MAX_RESULTS: usize = 16;

/// Most bytes of an interface's name that are kept.
pub const MAX_IFNAME: usize = 15;

/// What the driver remembers between operations.
#[derive(Debug)]
pub struct WifiState {
    /// Whether an interface was found.
    pub initialized: bool,
    /// Number of the nl80211 family.
    pub family_id: u16,
    /// Index of the interface.
    pub ifindex: i32,
    /// Name of the interface, ended by a zero byte.
    pub ifname: [u8; 16],
    /// Hardware address of the interface.
    pub mac: [u8; 6],
    /// Whether a scan was started whose results were not seen yet.
    pub scan_in_progress: bool,
    /// The results of the last scan that had any.
    pub cached: Option<Vec<ScanResult>>,
}

/// The driver's state as plain values.
pub struct WifiStateView {
    pub initialized: bool,
    pub family_id: u16,
    pub ifindex: i32,
    pub ifname: Seq<u8>,
    pub mac: Seq<u8>,
    pub scan_in_progress: bool,
    pub cached: Option<Seq<ScanResultView>>,
}

impl View for WifiState {
    type V = WifiStateView;

    open spec fn view(&self) -> WifiStateView {
        WifiStateView {
            initialized: self.initialized,
            family_id: self.family_id,
            ifindex: self.ifindex,
            ifname: self.ifname@,
            mac: self.mac@,
            scan_in_progress: self.scan_in_progress,
            cached: match self.cached {
                Some(results) => Some(result_views(results@)),
                None => None,
            },
        }
    }
}

impl WifiStateView {
    /// The state of a driver that was not initialized.
    pub open spec fn initial() -> WifiStateView {
        WifiStateView {
            initialized: false,
            family_id: 0,
            ifindex: 0,
            ifname: zero_bytes(16),
            mac: zero_bytes(6),
            scan_in_progress: false,
            cached: None,
        }
    }
}

/// Whether an interface can be used as a station: its type is station,
/// or is not known.
pub open spec fn usable(interface: WifiInterfaceView) -> bool {
    interface.iftype == NL80211_IFTYPE_STATION || interface.iftype == 0
}

/// Finds the first interface that can be used as a station.
pub fn select_interface(interfaces: &Vec<WifiInterface>) -> (place: Option<usize>)
    ensures
        match place {
            Some(i) => i < interfaces@.len() && usable(interfaces@[i as int]@) && forall|j: int|
                0 <= j < i ==> !usable(#[trigger] interfaces@[j]@),
            None => forall|j: int| 0 <= j < interfaces@.len() ==> !usable(#[trigger] interfaces@[j]@),
        },
{
    let mut i: usize = 0;
    while i < interfaces.len()
        invariant
            i <= interfaces@.len(),
            forall|j: int| 0 <= j < i ==> !usable(#[trigger] interfaces@[j]@),
        decreases interfaces@.len() - i,
    {
        if interfaces[i].iftype == NL80211_IFTYPE_STATION || interfaces[i].iftype == 0 {
            return Some(i);
        }
        i += 1;
    }
    None
}

/// An interface's name as the driver keeps it: its first 15 bytes,
/// filled up with zeros to 16 bytes.
pub open spec fn kept_name(name: Seq<u8>) -> Seq<u8> {
    padded(name, MAX_IFNAME as int) + seq![0u8]
}

/// Copies an interface's name into the buffer the driver keeps it in.
pub fn keep_name(name: &[u8]) -> (kept: [u8; 16])
    ensures
        kept@ == kept_name(name@),
{
    let count: usize = if name.len() <= MAX_IFNAME {
        name.len()
    } else {
        MAX_IFNAME
    };
    let mut kept: [u8; 16] = [0u8; 16];
    let mut i: usize = 0;
    while i < count
        invariant
            i <= count <= MAX_IFNAME,
            count <= name@.len(),
            forall|k: int| 0 <= k < i ==> kept@[k] == name@[k],
            forall|k: int| i <= k < 16 ==> kept@[k] == 0,
        decreases count - i,
    {
        kept[i] = name[i];
        i += 1;
    }
    assert(kept@ =~= kept_name(name@));
    kept
}

/// The first 16 of a list of scan results, filled up with empty records.
pub open spec fn first_results(results: Seq<ScanResultView>) -> Seq<ScanResultView> {
    Seq::new(
        MAX_RESULTS as nat,
        |i: int|
            if i < results.len() {
                results[i]
            } else {
                ScanResultView::empty()
            },
    )
}

/// The number of scan results that are handed out: at most 16.
pub open spec fn handed_out(count: int) -> int {
    if count <= MAX_RESULTS {
        count
    } else {
        MAX_RESULTS as int
    }
}

/// Copies the first 16 scan results into an array, with their number.
pub fn take_results(results: &Vec<ScanResult>) -> (taken: ([ScanResult; 16], usize))
    ensures
        result_views(taken.0@) == first_results(result_views(results@)),
        taken.1 == handed_out(results@.len() as int),
{
    let blank = ScanResult::default();
    let mut taken: [ScanResult; 16] = [blank; 16];
    let count: usize = if results.len() <= MAX_RESULTS {
        results.len()
    } else {
        MAX_RESULTS
    };
    let mut i: usize = 0;
    while i < count
        invariant
            i <= count <= MAX_RESULTS,
            count <= results@.len(),
            blank@ == ScanResultView::empty(),
            forall|k: int| 0 <= k < i ==> taken@[k] == results@[k],
            forall|k: int| i <= k < 16 ==> taken@[k] == blank,
        decreases count - i,
    {
        taken[i] = results[i];
        i += 1;
    }
    assert(result_views(taken@) =~= first_results(result_views(results@)));
    (taken, count)
}

impl WifiState {
    /// The state of a driver that was not initialized.
    pub fn new() -> (state: WifiState)
        ensures
            state@ == WifiStateView::initial(),
    {
        let state = WifiState {
            initialized: false,
            family_id: 0,
            ifindex: 0,
            ifname: [0u8; 16],
            mac: [0u8; 6],
            scan_in_progress: false,
            cached: None,
        };
        assert(state.ifname@ =~= zero_bytes(16));
        assert(state.mac@ =~= zero_bytes(6));
        state
    }
}

/// `Ok` for a driver that is initialized, `NotInitialized` for one that is not.
pub fn require_initialized(state: &WifiState) -> (ready: WifiResult<()>)
    ensures
        ready == if state.initialized {
            Ok::<(), WifiError>(())
        } else {
            Err::<(), WifiError>(WifiError::NotInitialized)
        },
{
    if state.initialized {
        Ok(())
    } else {
        Err(WifiError::NotInitialized)
    }
}

/// Initialize WiFi subsystem: adopts the first interface that can be
/// used as a station, with the family number it was found under. Without
/// such an interface the driver stays uninitialized and the result is
/// `InterfaceNotFound`; the family number is kept all the same. A driver
/// that is initialized already stays as it is.
pub fn wifi_initialize(state: &mut WifiState, family_id: u16, interfaces: &Vec<WifiInterface>) -> (done:
    WifiResult<()>)
    ensures
        old(state).initialized ==> done == Ok::<(), WifiError>(()) && final(state)@ == old(state)@,
        !old(state).initialized ==> match select_spec(interface_views(interfaces@)) {
            Some(i) => done == Ok::<(), WifiError>(()) && final(state)@ == (WifiStateView {
                initialized: true,
                family_id,
                ifindex: interfaces@[i].ifindex,
                ifname: kept_name(vstd::utf8::encode_utf8(interfaces@[i].ifname@)),
                mac: interfaces@[i].mac@,
                ..old(state)@
            }),
            None => done == Err::<(), WifiError>(WifiError::InterfaceNotFound) && final(state)@ == (
            WifiStateView { family_id, ..old(state)@ }),
        },
{
    if state.initialized {
        return Ok(());
    }
    state.family_id = family_id;
    match select_interface(interfaces) {
        Some(i) => {
            proof {
                lemma_select(interface_views(interfaces@), i as int);
            }
            state.ifindex = interfaces[i].ifindex;
            state.ifname = keep_name(interfaces[i].ifname.as_str().as_bytes());
            state.mac = interfaces[i].mac;
            state.initialized = true;
            Ok(())
        },
        None => {
            proof {
                lemma_select_none(interface_views(interfaces@));
            }
            Err(WifiError::InterfaceNotFound)
        },
    }
}

/// The place of the first interface that can be used as a station.
pub open spec fn select_spec(interfaces: Seq<WifiInterfaceView>) -> Option<int>
    decreases interfaces.len(),
{
    if interfaces.len() == 0 {
        None
    } else {
        match select_spec(interfaces.drop_last()) {
            Some(i) => Some(i),
            None => if usable(interfaces.last()) {
                Some(interfaces.len() - 1)
            } else {
                None
            },
        }
    }
}

/// The first usable interface is the one that is selected.
pub proof fn lemma_select(interfaces: Seq<WifiInterfaceView>, place: int)
    requires
        0 <= place < interfaces.len(),
        usable(interfaces[place]),
        forall|j: int| 0 <= j < place ==> !usable(#[trigger] interfaces[j]),
    ensures
        select_spec(interfaces) == Some(place),
    decreases interfaces.len(),
{
    let front = interfaces.drop_last();
    if place < interfaces.len() - 1 {
        assert(front[place] == interfaces[place]);
        assert forall|j: int| 0 <= j < place implies !usable(#[trigger] front[j]) by {
            assert(front[j] == interfaces[j]);
        }
        lemma_select(front, place);
    } else {
        assert forall|j: int| 0 <= j < front.len() implies !usable(#[trigger] front[j]) by {
            assert(front[j] == interfaces[j]);
        }
        lemma_select_none(front);
    }
}

/// Where no interface is usable, none is selected.
pub proof fn lemma_select_none(interfaces: Seq<WifiInterfaceView>)
    requires
        forall|j: int| 0 <= j < interfaces.len() ==> !usable(#[trigger] interfaces[j]),
    ensures
        select_spec(interfaces) is None,
    decreases interfaces.len(),
{
    if interfaces.len() > 0 {
        let front = interfaces.drop_last();
        assert forall|j: int| 0 <= j < front.len() implies !usable(#[trigger] front[j]) by {
            assert(front[j] == interfaces[j]);
        }
        lemma_select_none(front);
        assert(interfaces.last() == interfaces[interfaces.len() - 1]);
    }
}

/// Deinitialize WiFi subsystem: forgets the interface and the cached results.
pub fn wifi_deinitialize(state: &mut WifiState) -> (done: WifiResult<()>)
    ensures
        done == Ok::<(), WifiError>(()),
        final(state)@ == (WifiStateView {
            family_id: old(state).family_id,
            scan_in_progress: old(state).scan_in_progress,
            ..WifiStateView::initial()
        }),
{
    state.initialized = false;
    state.ifindex = 0;
    state.ifname = [0u8; 16];
    state.mac = [0u8; 6];
    state.cached = None;
    assert(state.ifname@ =~= zero_bytes(16));
    assert(state.mac@ =~= zero_bytes(6));
    Ok(())
}

/// Check if WiFi is initialized
pub fn wifi_is_initialized(state: &WifiState) -> (initialized: bool)
    ensures
        initialized == state.initialized,
{
    state.initialized
}

/// Set WiFi operating mode: accepted, and nothing is changed.
pub fn wifi_set_mode(mode: WifiMode) -> (done: WifiResult<()>)
    ensures
        done == Ok::<(), WifiError>(()),
{
    Ok(())
}

/// Get WiFi operating mode: always station.
pub fn wifi_get_mode() -> (mode: WifiResult<WifiMode>)
    ensures
        mode == Ok::<WifiMode, WifiError>(WifiMode::Station),
{
    Ok(WifiMode::Station)
}

/// Start WiFi scan: takes note of how the request to scan ended. After a
/// success a scan is under way and the cached results are dropped.
pub fn wifi_start_scan(state: &mut WifiState, outcome: WifiResult<()>) -> (done: WifiResult<()>)
    ensures
        done == outcome,
        final(state)@ == if outcome is Ok {
            WifiStateView { scan_in_progress: true, cached: None, ..old(state)@ }
        } else {
            old(state)@
        },
{
    if outcome.is_ok() {
        state.scan_in_progress = true;
        state.cached = None;
    }
    outcome
}

/// Check if scan is complete, from what fetching the results gave.
///
/// Results that are not empty complete the scan and are cached. Empty
/// results say that the scan is complete exactly when none is under way.
/// A failed fetch says that it is not complete.
pub fn wifi_scan_is_complete(state: &mut WifiState, fetched: WifiResult<Vec<ScanResult>>) -> (complete:
    bool)
    ensures
        match fetched {
            Ok(results) => if results@.len() > 0 {
                complete && final(state)@ == (WifiStateView {
                    scan_in_progress: false,
                    cached: Some(result_views(results@)),
                    ..old(state)@
                })
            } else {
                complete == !old(state).scan_in_progress && final(state)@ == old(state)@
            },
            Err(_) => !complete && final(state)@ == old(state)@,
        },
{
    match fetched {
        Ok(results) => {
            if results.len() > 0 {
                state.scan_in_progress = false;
                state.cached = Some(results);
                true
            } else {
                !state.scan_in_progress
            }
        },
        Err(_) => false,
    }
}

/// Get scan results: the first 16 of the cached results, with their
/// number, or `None` where nothing is cached.
pub fn wifi_get_scan_results(state: &WifiState) -> (results: Option<([ScanResult; 16], usize)>)
    ensures
        match state@.cached {
            Some(cached) => results is Some && result_views(results.unwrap().0@) == first_results(
                cached,
            ) && results.unwrap().1 == handed_out(cached.len() as int),
            None => results is None,
        },
{
    match &state.cached {
        Some(cached) => Some(take_results(cached)),
        None => None,
    }
}

/// Connect to WiFi network: not supported.
pub fn wifi_connect(config: &StationConfig) -> (done: WifiResult<()>)
    ensures
        done == Err::<(), WifiError>(WifiError::NotSupported),
{
    Err(WifiError::NotSupported)
}

/// Disconnect from WiFi network: not supported.
pub fn wifi_disconnect() -> (done: WifiResult<()>)
    ensures
        done == Err::<(), WifiError>(WifiError::NotSupported),
{
    Err(WifiError::NotSupported)
}

/// The connection status that an interface's operating state means:
/// connected when it is up, disconnected otherwise.
pub fn wifi_get_connection_status(state: &WifiState, up: bool) -> (status: WifiResult<
    ConnectionStatus,
>)
    ensures
        status == if !state.initialized {
            Err::<ConnectionStatus, WifiError>(WifiError::NotInitialized)
        } else if up {
            Ok::<ConnectionStatus, WifiError>(ConnectionStatus::Connected)
        } else {
            Ok::<ConnectionStatus, WifiError>(ConnectionStatus::Disconnected)
        },
{
    if !state.initialized {
        Err(WifiError::NotInitialized)
    } else if up {
        Ok(ConnectionStatus::Connected)
    } else {
        Ok(ConnectionStatus::Disconnected)
    }
}

/// Get current ESSID: not supported.
pub fn wifi_get_essid() -> (essid: WifiResult<([u8; 32], usize)>)
    ensures
        essid is Err,
        essid->Err_0 == WifiError::NotSupported,
{
    Err(WifiError::NotSupported)
}

/// Get IP information: not supported.
pub fn wifi_get_ip_info() -> (info: WifiResult<IpInfo>)
    ensures
        info is Err,
        info->Err_0 == WifiError::NotSupported,
{
    Err(WifiError::NotSupported)
}

/// Get signal strength: not supported.
pub fn wifi_get_rssi() -> (rssi: WifiResult<i8>)
    ensures
        rssi == Err::<i8, WifiError>(WifiError::NotSupported),
{
    Err(WifiError::NotSupported)
}

/// Get MAC address: that of the adopted interface.
pub fn wifi_get_mac_address(state: &WifiState) -> (mac: WifiResult<[u8; 6]>)
    ensures
        match mac {
            Ok(address) => state.initialized && address == state.mac,
            Err(error) => !state.initialized && error == WifiError::NotInitialized,
        },
{
    if !state.initialized {
        return Err(WifiError::NotInitialized);
    }
    Ok(state.mac)
}

} // verus!
