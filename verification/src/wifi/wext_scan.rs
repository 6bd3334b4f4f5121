//! The scan results of the wireless-extensions driver: a stream of
//! events, each a length, a command and data. An access-point event
//! begins a network; the events after it describe that network.

use vstd::prelude::*;
use crate::wifi::bytes::{
    i32_at, read_i32, read_u16, read_u32, signed16, signed8, to_signed16, to_signed8, u16_at,
    u32_at, ByteOrder,
};
use crate::wifi::types::{AuthMode, ScanResult, ScanResultView};
use crate::wifi::wext::{
    wext_channel, wext_channel_of, IWEVQUAL, IW_ENCODE_DISABLED, MAX_NETWORKS, SIOCGIWAP_EVENT,
    SIOCGIWENCODE_EVENT, SIOCGIWESSID_EVENT, SIOCGIWFREQ_EVENT,
};

verus! {

/// Size of an event's header: length and command.
pub const EVENT_HDRLEN: usize = 4;

/// Offset of an ESSID from the start of its event.
pub const ESSID_OFFSET: usize = 12;

/// A network being read from the event stream.
#[derive(Debug, Clone, Copy)]
pub struct Network {
    /// What the events said of the network.
    pub result: ScanResult,
    /// Mantissa and exponent of the network's frequency, where the last
    /// frequency event gave a frequency with an exponent: the channel of
    /// `result` is then still to be set from it.
    pub frequency: Option<(i32, i16)>,
}

/// A network as plain values.
pub struct NetworkView {
    pub result: ScanResultView,
    pub frequency: Option<(i32, i16)>,
}

impl View for Network {
    type V = NetworkView;

    open spec fn view(&self) -> NetworkView {
        NetworkView { result: self.result@, frequency: self.frequency }
    }
}

/// The networks of a list as plain values.
pub open spec fn network_views(networks: Seq<Network>) -> Seq<NetworkView> {
    networks.map_values(|network: Network| network@)
}

/// Where the reading of an event stream stands.
pub struct Reading {
    /// The networks that are complete.
    pub found: Seq<NetworkView>,
    /// The network that the events describe at present.
    pub current: NetworkView,
    /// Whether an access-point event has begun a network.
    pub started: bool,
}

/// A network of which nothing is known.
pub open spec fn blank_network() -> NetworkView {
    NetworkView { result: ScanResultView::empty(), frequency: None }
}

/// The reading before the first event.
pub open spec fn fresh_reading() -> Reading {
    Reading { found: Seq::empty(), current: blank_network(), started: false }
}

/// Whether a network is kept: only one with an SSID is.
pub open spec fn kept(network: NetworkView) -> bool {
    network.result.ssid_len > 0
}

/// Whether an event to be read starts at `at`: fewer than 16 networks are
/// complete, the event's header lies within the stream, and its length
/// covers the header and stays within the stream.
pub open spec fn event_at(reading: Reading, stream: Seq<u8>, at: int, order: ByteOrder) -> bool {
    &&& 0 <= at
    &&& at + EVENT_HDRLEN <= stream.len()
    &&& reading.found.len() < MAX_NETWORKS
    &&& u16_at(stream, at, order) >= EVENT_HDRLEN
    &&& at + u16_at(stream, at, order) <= stream.len()
}

/// The network after an event with command `cmd` and `data`, which
/// starts at `at` in `stream`.
///
/// An ESSID event gives the first 32 bytes of the ESSID, which stands
/// twelve bytes after the start of the event. A frequency event without
/// an exponent gives the channel; one with an exponent leaves mantissa
/// and exponent for the channel to be set from. A quality event gives
/// the signal level. An encoding event says whether the network is open.
/// An event that is too short for its data changes nothing.
pub open spec fn described(
    network: NetworkView,
    stream: Seq<u8>,
    at: int,
    cmd: u16,
    data: Seq<u8>,
    order: ByteOrder,
) -> NetworkView {
    let result = network.result;
    if cmd == SIOCGIWESSID_EVENT && data.len() >= 8 {
        let announced = u16_at(data, 4, order);
        let count = if announced <= 32 {
            announced as int
        } else {
            32
        };
        if at + ESSID_OFFSET + count <= stream.len() {
            NetworkView {
                result: ScanResultView {
                    ssid: stream.subrange(at + ESSID_OFFSET, at + ESSID_OFFSET + count)
                        + result.ssid.skip(count),
                    ssid_len: count,
                    ..result
                },
                ..network
            }
        } else {
            network
        }
    } else if cmd == SIOCGIWFREQ_EVENT && data.len() >= 8 {
        if signed16(u16_at(data, 4, order)) == 0 {
            NetworkView {
                result: ScanResultView {
                    channel: wext_channel_of(u32_at(data, 0, order)),
                    ..result
                },
                frequency: None,
            }
        } else {
            NetworkView {
                frequency: Some((i32_at(data, 0, order), signed16(u16_at(data, 4, order)))),
                ..network
            }
        }
    } else if cmd == IWEVQUAL && data.len() >= 4 {
        NetworkView { result: ScanResultView { rssi: signed8(data[1]), ..result }, ..network }
    } else if cmd == SIOCGIWENCODE_EVENT && data.len() >= 8 {
        NetworkView {
            result: ScanResultView {
                auth_mode: if u16_at(data, 6, order) >= IW_ENCODE_DISABLED {
                    AuthMode::Open
                } else {
                    AuthMode::Wpa2Psk
                },
                ..result
            },
            ..network
        }
    } else {
        network
    }
}

/// The network that an access-point event begins: nothing is known of it
/// but its address, which is bytes 2 to 7 of the event's data.
pub open spec fn begun(data: Seq<u8>) -> NetworkView {
    if data.len() >= 8 {
        NetworkView {
            result: ScanResultView { bssid: data.subrange(2, 8), ..ScanResultView::empty() },
            frequency: None,
        }
    } else {
        blank_network()
    }
}

/// The reading after the event at `at`. An access-point event completes
/// the network before it, which is kept where it has an SSID, and begins
/// another. Any other event describes the network at present.
pub open spec fn after_event(reading: Reading, stream: Seq<u8>, at: int, order: ByteOrder) -> Reading {
    let len = u16_at(stream, at, order) as int;
    let cmd = u16_at(stream, at + 2, order);
    let data = stream.subrange(at + EVENT_HDRLEN, at + len);
    if cmd == SIOCGIWAP_EVENT {
        Reading {
            found: if reading.started && kept(reading.current) {
                reading.found.push(reading.current)
            } else {
                reading.found
            },
            current: begun(data),
            started: true,
        }
    } else {
        Reading { current: described(reading.current, stream, at, cmd, data, order), ..reading }
    }
}

/// The reading after the events of `stream` from `at` on.
#[verifier::opaque]
pub open spec fn read_events(reading: Reading, stream: Seq<u8>, at: int, order: ByteOrder) -> Reading
    decreases stream.len() - at,
{
    if !event_at(reading, stream, at, order) {
        reading
    } else {
        read_events(
            after_event(reading, stream, at, order),
            stream,
            at + u16_at(stream, at, order),
            order,
        )
    }
}

/// The networks of an event stream: at most 16, in the order of their
/// access-point events, the last one included where it has an SSID.
pub open spec fn networks(stream: Seq<u8>, order: ByteOrder) -> Seq<NetworkView> {
    let reading = read_events(fresh_reading(), stream, 0, order);
    if reading.started && kept(reading.current) && reading.found.len() < MAX_NETWORKS {
        reading.found.push(reading.current)
    } else {
        reading.found
    }
}

/// Reading goes from an event to the next, and ends where no event starts.
pub proof fn lemma_read_events_step(reading: Reading, stream: Seq<u8>, at: int, order: ByteOrder)
    ensures
        event_at(reading, stream, at, order) ==> read_events(reading, stream, at, order)
            == read_events(
            after_event(reading, stream, at, order),
            stream,
            at + u16_at(stream, at, order),
            order,
        ),
        !event_at(reading, stream, at, order) ==> read_events(reading, stream, at, order)
            == reading,
{
    reveal(read_events);
}

/// Begins a network from the data of an access-point event.
pub fn begin_network(data: &[u8]) -> (network: Network)
    ensures
        network@ == begun(data@),
{
    let mut result = ScanResult::default();
    if data.len() >= 8 {
        result.bssid = [data[2], data[3], data[4], data[5], data[6], data[7]];
        assert(result.bssid@ =~= data@.subrange(2, 8));
    }
    Network { result, frequency: None }
}

/// Takes note of what an event says of the network at present.
pub fn describe(
    network: &mut Network,
    stream: &[u8],
    at: usize,
    cmd: u16,
    data: &[u8],
    order: ByteOrder,
)
    requires
        at <= stream@.len(),
    ensures
        final(network)@ == described(old(network)@, stream@, at as int, cmd, data@, order),
{
    if cmd == SIOCGIWESSID_EVENT && data.len() >= 8 {
        let announced: usize = read_u16(data, 4, order) as usize;
        let count: usize = if announced <= 32 {
            announced
        } else {
            32
        };
        let total = stream.len();
        if total - at >= ESSID_OFFSET + count {
            let ghost before = network.result@;
            let ghost value = stream@.subrange(at + ESSID_OFFSET, at + ESSID_OFFSET + count);
            let mut k: usize = 0;
            assert(value.take(0) + before.ssid.skip(0) =~= before.ssid);
            while k < count
                invariant
                    k <= count <= 32,
                    total == stream@.len(),
                    at + ESSID_OFFSET + count <= total,
                    value == stream@.subrange(at + ESSID_OFFSET, at + ESSID_OFFSET + count),
                    before.ssid.len() == 32,
                    network@ == (NetworkView {
                        result: ScanResultView {
                            ssid: value.take(k as int) + before.ssid.skip(k as int),
                            ..before
                        },
                        ..old(network)@
                    }),
                decreases count - k,
            {
                network.result.ssid[k] = stream[at + ESSID_OFFSET + k];
                k += 1;
                assert(network.result.ssid@ =~= value.take(k as int) + before.ssid.skip(k as int));
            }
            assert(value.take(count as int) =~= value);
            network.result.ssid_len = count;
        }
    } else if cmd == SIOCGIWFREQ_EVENT && data.len() >= 8 {
        let exponent = to_signed16(read_u16(data, 4, order));
        if exponent == 0 {
            network.result.channel = wext_channel(read_u32(data, 0, order));
            network.frequency = None;
        } else {
            network.frequency = Some((read_i32(data, 0, order), exponent));
        }
    } else if cmd == IWEVQUAL && data.len() >= 4 {
        network.result.rssi = to_signed8(data[1]);
    } else if cmd == SIOCGIWENCODE_EVENT && data.len() >= 8 {
        if read_u16(data, 6, order) >= IW_ENCODE_DISABLED {
            network.result.auth_mode = AuthMode::Open;
        } else {
            network.result.auth_mode = AuthMode::Wpa2Psk;
        }
    }
}

/// Get scan results: reads the networks out of the event stream that the
/// driver filled the scan buffer with.
pub fn parse_scan_events(stream: &[u8], order: ByteOrder) -> (found: Vec<Network>)
    ensures
        network_views(found@) == networks(stream@, order),
        found@.len() <= MAX_NETWORKS,
{
    let total = stream.len();
    let mut found: Vec<Network> = Vec::new();
    let mut current = Network { result: ScanResult::default(), frequency: None };
    let mut started = false;
    let mut offset: usize = 0;
    let mut more = true;
    assert(network_views(found@) =~= Seq::empty());
    while more
        invariant
            total == stream@.len(),
            offset <= total,
            found@.len() <= MAX_NETWORKS,
            read_events(
                Reading { found: network_views(found@), current: current@, started },
                stream@,
                offset as int,
                order,
            ) == read_events(fresh_reading(), stream@, 0, order),
            !more ==> !event_at(
                Reading { found: network_views(found@), current: current@, started },
                stream@,
                offset as int,
                order,
            ),
        decreases total - offset + if more { 1int } else { 0int },
    {
        let ghost reading = Reading { found: network_views(found@), current: current@, started };
        if total - offset < EVENT_HDRLEN || found.len() >= MAX_NETWORKS {
            more = false;
        } else {
            let len: usize = read_u16(stream, offset, order) as usize;
            if len < EVENT_HDRLEN || len > total - offset {
                more = false;
            } else {
                let cmd = read_u16(stream, offset + 2, order);
                let data = vstd::slice::slice_subrange(stream, offset + EVENT_HDRLEN, offset + len);
                proof {
                    lemma_read_events_step(reading, stream@, offset as int, order);
                }
                if cmd == SIOCGIWAP_EVENT {
                    if started && current.result.ssid_len > 0 {
                        found.push(current);
                        assert(network_views(found@) =~= reading.found.push(current@));
                    }
                    current = begin_network(data);
                    started = true;
                } else {
                    describe(&mut current, stream, offset, cmd, data, order);
                }
                offset += len;
            }
        }
    }
    proof {
        lemma_read_events_step(
            Reading { found: network_views(found@), current: current@, started },
            stream@,
            offset as int,
            order,
        );
    }
    if started && current.result.ssid_len > 0 && found.len() < MAX_NETWORKS {
        let ghost before = network_views(found@);
        found.push(current);
        assert(network_views(found@) =~= before.push(current@));
    }
    found
}

/// Sets a network's channel from its frequency in MHz, which its caller
/// worked out from mantissa and exponent, and hands out the scan result.
pub fn resolve_channel(network: &Network, freq_mhz: u32) -> (result: ScanResult)
    ensures
        result@ == (ScanResultView { channel: wext_channel_of(freq_mhz), ..network.result@ }),
{
    let mut result = network.result;
    result.channel = wext_channel(freq_mhz);
    result
}

} // verus!
