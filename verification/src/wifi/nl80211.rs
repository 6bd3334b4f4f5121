//! What nl80211 answers: scan results, interfaces, the family number.
//!
//! An answer is a run of netlink messages, each padded to a multiple of
//! four bytes. A message of type done or error ends the run, and so
//! does a message whose length does not fit.

use std::collections::HashMap;
use vstd::prelude::*;
use vstd::std_specs::hash::*;
use crate::wifi::bytes::{i32_at, join16, read_i32, read_u16, read_u32, u32_at, ByteOrder};
use crate::wifi::netlink::{
    attribute_views, attributes, channel_of, freq_to_channel, parse_attrs,
};
use crate::wifi::types::{zero_bytes, AuthMode, ScanResult, ScanResultView};

verus! {

broadcast use vstd::std_specs::hash::group_hash_axioms;

/// Message type: error or acknowledgement.
pub const NLMSG_ERROR: u16 = 2;

/// Message type: end of a multipart answer.
pub const NLMSG_DONE: u16 = 3;

/// Message flag: part of a multipart answer.
pub const NLM_F_MULTI: u16 = 2;

/// Attribute of the controller's answer: the family's number.
pub const CTRL_ATTR_FAMILY_ID: u16 = 1;

/// Attribute: index of an interface.
pub const NL80211_ATTR_IFINDEX: u16 = 3;

/// Attribute: name of an interface.
pub const NL80211_ATTR_IFNAME: u16 = 4;

/// Attribute: type of an interface.
pub const NL80211_ATTR_IFTYPE: u16 = 5;

/// Attribute: hardware address of an interface.
pub const NL80211_ATTR_MAC: u16 = 6;

/// Attribute: one network of a scan, as nested attributes.
pub const NL80211_ATTR_BSS: u16 = 47;

/// Attribute of a network: its BSSID.
pub const NL80211_BSS_BSSID: u16 = 1;

/// Attribute of a network: its frequency in MHz.
pub const NL80211_BSS_FREQUENCY: u16 = 2;

/// Attribute of a network: its capability field.
pub const NL80211_BSS_CAPABILITY: u16 = 5;

/// Attribute of a network: its information elements.
pub const NL80211_BSS_INFORMATION_ELEMENTS: u16 = 6;

/// Attribute of a network: its signal strength in hundredths of dBm.
pub const NL80211_BSS_SIGNAL_MBM: u16 = 7;

/// Interface type: station.
pub const NL80211_IFTYPE_STATION: u32 = 2;

/// Information element: SSID.
pub const WLAN_EID_SSID: u8 = 0;

/// Information element: RSN, which announces WPA2.
pub const WLAN_EID_RSN: u8 = 48;

/// Signal strength of a network whose answer names none, in dBm.
pub const RSSI_FLOOR: i8 = -100;

/// The error of the system that stands for an answer that cannot be read.
pub const UNREADABLE: i32 = -1;

/// The error of the system that says that a scan is under way already.
pub const SCAN_BUSY: i32 = -16;

/// Looks an attribute up by its type.
pub fn lookup(attrs: &HashMap<u16, Vec<u8>>, kind: u16) -> (value: Option<&Vec<u8>>)
    ensures
        match value {
            Some(found) => attribute_views(attrs@).contains_key(kind) && attribute_views(
                attrs@,
            )[kind] == found@,
            None => !attribute_views(attrs@).contains_key(kind),
        },
{
    attrs.get(&kind)
}

/// A scan result after one information element: an SSID element gives
/// the first 32 bytes of its value as the SSID and leaves the bytes of
/// the buffer after them as they were; an RSN element makes the
/// authentication WPA2-PSK; any other element changes nothing.
pub open spec fn with_element(result: ScanResultView, kind: u8, value: Seq<u8>) -> ScanResultView {
    if kind == WLAN_EID_SSID {
        let count = if value.len() <= 32 {
            value.len() as int
        } else {
            32
        };
        ScanResultView { ssid: value.take(count) + result.ssid.skip(count), ssid_len: count, ..result }
    } else if kind == WLAN_EID_RSN {
        ScanResultView { auth_mode: AuthMode::Wpa2Psk, ..result }
    } else {
        result
    }
}

/// A scan result after the information elements of `data` from `at` on.
/// An element is a type byte, a length byte and that many value bytes;
/// an element that runs past the data ends the reading.
pub open spec fn with_elements(result: ScanResultView, data: Seq<u8>, at: int) -> ScanResultView
    decreases data.len() - at,
{
    if at < 0 || at + 2 > data.len() || at + 2 + data[at + 1] > data.len() {
        result
    } else {
        let len = data[at + 1] as int;
        with_elements(
            with_element(result, data[at], data.subrange(at + 2, at + 2 + len)),
            data,
            at + 2 + len,
        )
    }
}

/// Parse Information Elements
pub fn parse_ies(data: &[u8], result: &mut ScanResult)
    ensures
        final(result)@ == with_elements(old(result)@, data@, 0),
{
    let total = data.len();
    let mut offset: usize = 0;
    while total - offset >= 2 && total - offset - 2 >= data[offset + 1] as usize
        invariant
            total == data@.len(),
            offset <= total,
            with_elements(result@, data@, offset as int) == with_elements(old(result)@, data@, 0),
        decreases total - offset,
    {
        let kind = data[offset];
        let len: usize = data[offset + 1] as usize;
        let ghost before = result@;
        let ghost value = data@.subrange(offset + 2, offset + 2 + len);
        if kind == WLAN_EID_SSID {
            let count: usize = if len <= 32 {
                len
            } else {
                32
            };
            let mut k: usize = 0;
            assert(value.take(0) + before.ssid.skip(0) =~= before.ssid);
            while k < count
                invariant
                    k <= count <= 32,
                    count <= len,
                    offset + 2 + len <= total,
                    total == data@.len(),
                    result@ == (ScanResultView {
                        ssid: value.take(k as int) + before.ssid.skip(k as int),
                        ..before
                    }),
                    before.ssid.len() == 32,
                    value == data@.subrange(offset + 2, offset + 2 + len),
                decreases count - k,
            {
                result.ssid[k] = data[offset + 2 + k];
                k += 1;
                assert(result.ssid@ =~= value.take(k as int) + before.ssid.skip(k as int));
            }
            result.ssid_len = count;
        } else if kind == WLAN_EID_RSN {
            result.auth_mode = AuthMode::Wpa2Psk;
        }
        assert(result@ == with_element(before, kind, value));
        offset += 2 + len;
    }
}

/// Integer division that rounds towards zero.
pub open spec fn quotient(value: int, by: int) -> int {
    if value >= 0 {
        value / by
    } else {
        -((-value) / by)
    }
}

/// An integer cut to its lowest eight bits, read as a signed number.
pub open spec fn low_signed_byte(value: int) -> i8 {
    let low = value % 256;
    if low < 128 {
        low as i8
    } else {
        (low - 256) as i8
    }
}

/// A signal strength in hundredths of dBm as whole dBm in a signed byte.
pub fn signal_to_rssi(signal_mbm: i32) -> (rssi: i8)
    ensures
        rssi == low_signed_byte(quotient(signal_mbm as int, 100)),
{
    let whole: i64 = if signal_mbm >= 0 {
        signal_mbm as i64 / 100
    } else {
        -((-(signal_mbm as i64)) / 100)
    };
    let low: i64 = (whole + 0x1_0000_0000) % 256;
    assert(low == whole as int % 256);
    if low < 128 {
        low as i8
    } else {
        (low - 256) as i8
    }
}

/// The scan result that a network's attributes start from: zeros, -100
/// dBm, open.
pub open spec fn blank_result() -> ScanResultView {
    ScanResultView { rssi: RSSI_FLOOR, ..ScanResultView::empty() }
}

/// Whether the privacy bit of a network's capability field is set.
pub open spec fn has_privacy(capability: u16) -> bool {
    capability / 16 % 2 == 1
}

/// The scan result that a network's attributes give.
///
/// The BSSID is the first six bytes of its attribute; the channel is
/// that of the frequency; the signal strength is the signal in whole dBm;
/// SSID and WPA2 come from the information elements; a network with the
/// privacy bit set and no WPA2 counts as WEP. Each attribute that is
/// missing or too short leaves its part as it was.
pub open spec fn result_of(attrs: Map<u16, Seq<u8>>, order: ByteOrder) -> ScanResultView {
    let blank = blank_result();
    let named = if attrs.contains_key(NL80211_BSS_BSSID) && attrs[NL80211_BSS_BSSID].len() >= 6 {
        ScanResultView { bssid: attrs[NL80211_BSS_BSSID].take(6), ..blank }
    } else {
        blank
    };
    let tuned = if attrs.contains_key(NL80211_BSS_FREQUENCY) && attrs[NL80211_BSS_FREQUENCY].len()
        >= 4 {
        ScanResultView {
            channel: channel_of(u32_at(attrs[NL80211_BSS_FREQUENCY], 0, order)),
            ..named
        }
    } else {
        named
    };
    let heard = if attrs.contains_key(NL80211_BSS_SIGNAL_MBM) && attrs[NL80211_BSS_SIGNAL_MBM].len()
        >= 4 {
        ScanResultView {
            rssi: low_signed_byte(
                quotient(i32_at(attrs[NL80211_BSS_SIGNAL_MBM], 0, order) as int, 100),
            ),
            ..tuned
        }
    } else {
        tuned
    };
    let described = if attrs.contains_key(NL80211_BSS_INFORMATION_ELEMENTS) {
        with_elements(heard, attrs[NL80211_BSS_INFORMATION_ELEMENTS], 0)
    } else {
        heard
    };
    if attrs.contains_key(NL80211_BSS_CAPABILITY) && attrs[NL80211_BSS_CAPABILITY].len() >= 2
        && has_privacy(join16(attrs[NL80211_BSS_CAPABILITY][0], attrs[NL80211_BSS_CAPABILITY][1]))
        && described.auth_mode == AuthMode::Open {
        ScanResultView { auth_mode: AuthMode::Wep, ..described }
    } else {
        described
    }
}

/// The scan result in the attributes of one network: what the
/// attributes give, unless that leaves the BSSID all zeros.
pub open spec fn bss_of(data: Seq<u8>, order: ByteOrder) -> Option<ScanResultView> {
    let result = result_of(attributes(data, order), order);
    if result.bssid == zero_bytes(6) {
        None
    } else {
        Some(result)
    }
}

/// Parse BSS (Basic Service Set) attributes
pub fn parse_bss(data: &[u8], order: ByteOrder) -> (found: Option<ScanResult>)
    ensures
        match found {
            Some(result) => bss_of(data@, order) == Some(result@),
            None => bss_of(data@, order) is None,
        },
{
    let attrs = parse_attrs(data, order);
    let mut result = ScanResult::default();
    result.rssi = RSSI_FLOOR;
    assert(result@ == blank_result());
    match lookup(&attrs, NL80211_BSS_BSSID) {
        Some(bssid) => {
            if bssid.len() >= 6 {
                let mut k: usize = 0;
                assert(bssid@.take(0) + zero_bytes(6).skip(0) =~= zero_bytes(6));
                while k < 6
                    invariant
                        k <= 6,
                        bssid@.len() >= 6,
                        result@ == (ScanResultView {
                            bssid: bssid@.take(k as int) + zero_bytes(6).skip(k as int),
                            ..blank_result()
                        }),
                    decreases 6 - k,
                {
                    result.bssid[k] = bssid[k];
                    k += 1;
                    assert(result.bssid@ =~= bssid@.take(k as int) + zero_bytes(6).skip(k as int));
                }
                assert(result.bssid@ =~= bssid@.take(6));
            }
        },
        None => {},
    }
    match lookup(&attrs, NL80211_BSS_FREQUENCY) {
        Some(frequency) => {
            if frequency.len() >= 4 {
                result.channel = freq_to_channel(read_u32(frequency.as_slice(), 0, order));
            }
        },
        None => {},
    }
    match lookup(&attrs, NL80211_BSS_SIGNAL_MBM) {
        Some(signal) => {
            if signal.len() >= 4 {
                result.rssi = signal_to_rssi(read_i32(signal.as_slice(), 0, order));
            }
        },
        None => {},
    }
    match lookup(&attrs, NL80211_BSS_INFORMATION_ELEMENTS) {
        Some(elements) => {
            parse_ies(elements.as_slice(), &mut result);
        },
        None => {},
    }
    match lookup(&attrs, NL80211_BSS_CAPABILITY) {
        Some(capability) => {
            if capability.len() >= 2 {
                let field = read_u16(capability.as_slice(), 0, ByteOrder::Little);
                if field / 16 % 2 == 1 && matches!(result.auth_mode, AuthMode::Open) {
                    result.auth_mode = AuthMode::Wep;
                }
            }
        },
        None => {},
    }
    assert(result@ == result_of(attributes(data@, order), order));
    let zero = result.bssid[0] == 0 && result.bssid[1] == 0 && result.bssid[2] == 0
        && result.bssid[3] == 0 && result.bssid[4] == 0 && result.bssid[5] == 0;
    proof {
        if zero {
            assert(result.bssid@ =~= zero_bytes(6));
        } else {
            assert(zero_bytes(6)[0] == 0 && zero_bytes(6)[1] == 0 && zero_bytes(6)[2] == 0
                && zero_bytes(6)[3] == 0 && zero_bytes(6)[4] == 0 && zero_bytes(6)[5] == 0);
        }
    }
    if zero {
        None
    } else {
        Some(result)
    }
}

} // verus!
