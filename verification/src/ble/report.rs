//! Advertising reports: the event that a scanning controller sends for
//! each advertisement it hears, and the device record read from it.
//!
//! One report per event is read. The event's parameters after the
//! subevent code are: number of reports, event type, address type, six
//! address bytes (last byte first), data length, data, RSSI.

use vstd::prelude::*;
use crate::ble::advertise::{AD_TYPE_COMPLETE_NAME, AD_TYPE_SHORT_NAME};
use crate::ble::command::HCI_EVENT_PKT;
use crate::ble::types::{AddressType, BleAddress, ScanResult, ScanResultView, MAX_NAME_LEN};

verus! {

/// Event code of an LE meta event.
pub const HCI_EV_LE_META: u8 = 0x3E;

/// Subevent code of an advertising report.
pub const HCI_EV_LE_ADVERTISING_REPORT: u8 = 0x02;

/// Address type byte of a random address.
pub const LE_RANDOM_ADDRESS: u8 = 0x01;

/// Bytes of a report before its advertising data.
pub const REPORT_HEADER_LEN: usize = 10;

/// RSSI reported where the report ends before its RSSI byte.
pub const RSSI_UNKNOWN: i8 = -127;

/// A byte read as a signed number in two's complement.
pub open spec fn signed_byte(byte: u8) -> i8 {
    if byte < 128 {
        byte as i8
    } else {
        (byte as int - 256) as i8
    }
}

/// A byte read as a signed number in two's complement.
pub fn to_signed(byte: u8) -> (value: i8)
    ensures
        value == signed_byte(byte),
{
    if byte < 128 {
        byte as i8
    } else {
        (byte as i16 - 256) as i8
    }
}

/// The local name in advertising data, looked for from offset `at` on.
///
/// The data is a run of structures, each a length byte, a type byte and
/// `length - 1` value bytes. The first structure of type shortened or
/// complete local name with a value gives the name: its value, cut to 32
/// bytes. A zero length, or a structure that runs past the data, ends
/// the search.
pub open spec fn local_name_from(ad: Seq<u8>, at: int) -> Option<Seq<u8>>
    decreases ad.len() - at,
{
    if at < 0 || at + 1 >= ad.len() {
        None
    } else {
        let len = ad[at] as int;
        if len == 0 || at + len >= ad.len() {
            None
        } else if (ad[at + 1] == AD_TYPE_COMPLETE_NAME || ad[at + 1] == AD_TYPE_SHORT_NAME) && len
            > 1 {
            let value = ad.subrange(at + 2, at + 1 + len);
            Some(
                if value.len() <= MAX_NAME_LEN {
                    value
                } else {
                    value.take(MAX_NAME_LEN as int)
                },
            )
        } else {
            local_name_from(ad, at + len + 1)
        }
    }
}

/// The local name in advertising data.
pub open spec fn local_name(ad: Seq<u8>) -> Option<Seq<u8>> {
    local_name_from(ad, 0)
}

/// Whether the bytes of `buffer` from `len` on are zero.
pub open spec fn zero_from(buffer: Seq<u8>, len: int) -> bool {
    forall|k: int| len <= k < buffer.len() ==> buffer[k] == 0
}

/// Looks for the local name in advertising data. The name comes in a
/// buffer of 32 bytes with its length; the bytes after it are zero.
pub fn find_local_name(ad: &[u8]) -> (found: Option<([u8; 32], usize)>)
    ensures
        match found {
            Some((buffer, len)) => len <= MAX_NAME_LEN && local_name(ad@) == Some(
                buffer@.take(len as int),
            ) && zero_from(buffer@, len as int),
            None => local_name(ad@) is None,
        },
{
    let total = ad.len();
    let mut at: usize = 0;
    while at < total && total - at > 1
        invariant
            total == ad@.len(),
            at <= total,
            local_name(ad@) == local_name_from(ad@, at as int),
        decreases total - at,
    {
        let len: usize = ad[at] as usize;
        if len == 0 || len >= total - at {
            return None;
        }
        let kind = ad[at + 1];
        if (kind == AD_TYPE_COMPLETE_NAME || kind == AD_TYPE_SHORT_NAME) && len > 1 {
            let count: usize = if len - 1 <= MAX_NAME_LEN {
                len - 1
            } else {
                MAX_NAME_LEN
            };
            let mut buffer: [u8; 32] = [0u8; 32];
            let mut k: usize = 0;
            while k < count
                invariant
                    k <= count <= MAX_NAME_LEN,
                    count <= len - 1,
                    at + len < total,
                    total == ad@.len(),
                    forall|j: int| 0 <= j < k ==> buffer@[j] == ad@[at + 2 + j],
                    forall|j: int| k <= j < 32 ==> buffer@[j] == 0,
                decreases count - k,
            {
                buffer[k] = ad[at + 2 + k];
                k += 1;
            }
            proof {
                let value = ad@.subrange(at + 2, at + 1 + len);
                let name = if value.len() <= MAX_NAME_LEN {
                    value
                } else {
                    value.take(MAX_NAME_LEN as int)
                };
                assert(buffer@.take(count as int) =~= name);
            }
            return Some((buffer, count));
        }
        at += len + 1;
    }
    None
}

/// A name in its buffer of 32 bytes: the name, filled up with zeros.
pub open spec fn name_buffer(name: Seq<u8>) -> Seq<u8> {
    name + Seq::new((MAX_NAME_LEN - name.len()) as nat, |i: int| 0u8)
}

/// The local name that a report gives: that of its advertising data,
/// where there is any and all of it is there.
pub open spec fn reported_name(data: Seq<u8>) -> Option<Seq<u8>> {
    let data_len = data[9] as int;
    if data_len > 0 && data.len() >= REPORT_HEADER_LEN + data_len {
        local_name(data.subrange(REPORT_HEADER_LEN as int, REPORT_HEADER_LEN + data_len))
    } else {
        None
    }
}

/// A local name is never longer than 32 bytes.
pub proof fn lemma_local_name_fits(ad: Seq<u8>, at: int)
    ensures
        local_name_from(ad, at) matches Some(name) ==> name.len() <= MAX_NAME_LEN,
    decreases ad.len() - at,
{
    if !(at < 0 || at + 1 >= ad.len()) {
        let len = ad[at] as int;
        if !(len == 0 || at + len >= ad.len()) && !((ad[at + 1] == AD_TYPE_COMPLETE_NAME || ad[at
            + 1] == AD_TYPE_SHORT_NAME) && len > 1) {
            lemma_local_name_fits(ad, at + len + 1);
        }
    }
}

/// The device record in the parameters of an advertising report, taken
/// after the subevent code. There is none where the parameters are
/// shorter than the report's header or announce no report. Only the
/// first report is read.
///
/// The address is the six address bytes in reverse order; the address type
/// is random where its byte is 1 and public otherwise; the RSSI is the
/// byte after the advertising data, or -127 where the parameters end
/// before it; the name is the local name of the advertising data, where
/// all of the data is there, in a buffer of 32 bytes that zeros fill up.
pub open spec fn report_of(data: Seq<u8>) -> Option<ScanResultView> {
    if data.len() < REPORT_HEADER_LEN || data[0] == 0 {
        None
    } else {
        let data_len = data[9] as int;
        let after = REPORT_HEADER_LEN + data_len;
        Some(
            ScanResultView {
                address: seq![data[8], data[7], data[6], data[5], data[4], data[3]],
                address_type: if data[2] == LE_RANDOM_ADDRESS {
                    AddressType::Random
                } else {
                    AddressType::Public
                },
                rssi: if after < data.len() {
                    signed_byte(data[after])
                } else {
                    RSSI_UNKNOWN
                },
                name: match reported_name(data) {
                    Some(name) => Some(name_buffer(name)),
                    None => None,
                },
                name_len: match reported_name(data) {
                    Some(name) => name.len() as int,
                    None => 0,
                },
            },
        )
    }
}

/// The record of a report is well formed.
pub proof fn lemma_report_is_well_formed(data: Seq<u8>)
    ensures
        report_of(data) matches Some(record) ==> record.well_formed(),
{
    if data.len() >= REPORT_HEADER_LEN {
        let data_len = data[9] as int;
        lemma_local_name_fits(
            data.subrange(REPORT_HEADER_LEN as int, REPORT_HEADER_LEN + data_len),
            0,
        );
    }
}

/// Reads the device record from the parameters of an advertising report.
pub fn parse_advertising_report(data: &[u8]) -> (report: Option<ScanResult>)
    ensures
        match report {
            Some(found) => report_of(data@) == Some(found@) && found.well_formed(),
            None => report_of(data@) is None,
        },
{
    if data.len() < REPORT_HEADER_LEN {
        return None;
    }
    if data[0] == 0 {
        return None;
    }
    let bytes: [u8; 6] = [data[8], data[7], data[6], data[5], data[4], data[3]];
    assert(bytes@ =~= seq![data@[8], data@[7], data@[6], data@[5], data@[4], data@[3]]);
    let data_len: usize = data[9] as usize;
    let after: usize = REPORT_HEADER_LEN + data_len;
    let rssi: i8 = if after < data.len() {
        to_signed(data[after])
    } else {
        RSSI_UNKNOWN
    };
    let mut name: Option<[u8; 32]> = None;
    let mut name_len: usize = 0;
    if data_len > 0 && data.len() >= after {
        match find_local_name(vstd::slice::slice_subrange(data, REPORT_HEADER_LEN, after)) {
            Some((buffer, len)) => {
                assert(buffer@ =~= name_buffer(buffer@.take(len as int)));
                name = Some(buffer);
                name_len = len;
            },
            None => {},
        }
    }
    let address_type = if data[2] == LE_RANDOM_ADDRESS {
        AddressType::Random
    } else {
        AddressType::Public
    };
    Some(ScanResult { address: BleAddress { bytes }, address_type, rssi, name, name_len })
}

/// The device record that a packet carries: the report of an LE meta
/// event whose subevent is an advertising report.
pub open spec fn advertised_in(packet: Seq<u8>) -> Option<ScanResultView> {
    if packet.len() >= 4 && packet[0] == HCI_EVENT_PKT && packet[1] == HCI_EV_LE_META && packet[3]
        == HCI_EV_LE_ADVERTISING_REPORT {
        report_of(packet.skip(4))
    } else {
        None
    }
}

/// Reads the device record that a packet carries, if it carries one.
pub fn read_report(packet: &[u8]) -> (report: Option<ScanResult>)
    ensures
        match report {
            Some(found) => advertised_in(packet@) == Some(found@) && found.well_formed(),
            None => advertised_in(packet@) is None,
        },
{
    if packet.len() >= 4 && packet[0] == HCI_EVENT_PKT && packet[1] == HCI_EV_LE_META && packet[3]
        == HCI_EV_LE_ADVERTISING_REPORT {
        let data = vstd::slice::slice_subrange(packet, 4, packet.len());
        assert(data@ =~= packet@.skip(4));
        parse_advertising_report(data)
    } else {
        None
    }
}

} // verus!
