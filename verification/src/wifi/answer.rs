//! Reading the messages of an nl80211 answer.

use std::collections::HashMap;
use vstd::prelude::*;
use crate::text::{lossy_text, utf8_lossy};
use crate::wifi::bytes::{i32_at, read_i32, read_u16, read_u32, u16_at, u32_at, ByteOrder};
use crate::wifi::netlink::{aligned4, attribute_views, attributes, parse_attrs, NLMSG_HDRLEN};
use crate::wifi::nl80211::{
    bss_of, lookup, parse_bss, CTRL_ATTR_FAMILY_ID, NL80211_ATTR_BSS, NL80211_ATTR_IFINDEX,
    NL80211_ATTR_IFNAME, NL80211_ATTR_IFTYPE, NL80211_ATTR_MAC, NLMSG_DONE, NLMSG_ERROR,
    NLM_F_MULTI, SCAN_BUSY, UNREADABLE,
};
use crate::wifi::types::{zero_bytes, ScanResult, ScanResultView, WifiError, WifiResult};

verus! {

/// Offset of a message's attributes.
pub const ATTRS_OFFSET: usize = 20;

/// The type of the message at `at`.
pub open spec fn message_type(response: Seq<u8>, at: int, order: ByteOrder) -> u16 {
    u16_at(response, at + 4, order)
}

/// The length that the message at `at` announces.
pub open spec fn message_len(response: Seq<u8>, at: int, order: ByteOrder) -> int {
    u32_at(response, at, order) as int
}

/// Whether a message to be read starts at `at`: its header lies within
/// the answer, it is neither the end of the answer nor an error, and its
/// length covers the header and stays within the answer.
pub open spec fn message_at(response: Seq<u8>, at: int, order: ByteOrder) -> bool {
    &&& 0 <= at
    &&& at + NLMSG_HDRLEN <= response.len()
    &&& message_type(response, at, order) != NLMSG_DONE
    &&& message_type(response, at, order) != NLMSG_ERROR
    &&& message_len(response, at, order) >= NLMSG_HDRLEN
    &&& at + message_len(response, at, order) <= response.len()
}

/// The bytes of the attributes of the message at `at`: what follows its
/// two headers, where anything does.
pub open spec fn message_payload(response: Seq<u8>, at: int, order: ByteOrder) -> Option<Seq<u8>> {
    let len = message_len(response, at, order);
    if len > ATTRS_OFFSET {
        Some(response.subrange(at + ATTRS_OFFSET, at + len))
    } else {
        None
    }
}

/// The scan result in the attributes of one message: that of its BSS
/// attribute, where it has one that names a network.
pub open spec fn bss_in(payload: Seq<u8>, order: ByteOrder) -> Option<ScanResultView> {
    let attrs = attributes(payload, order);
    if attrs.contains_key(NL80211_ATTR_BSS) {
        bss_of(attrs[NL80211_ATTR_BSS], order)
    } else {
        None
    }
}

/// The place of the message after the one at `at`.
pub open spec fn next_message(response: Seq<u8>, at: int, order: ByteOrder) -> int {
    at + aligned4(message_len(response, at, order))
}

/// The records of a list as plain values.
pub open spec fn result_views(results: Seq<ScanResult>) -> Seq<ScanResultView> {
    results.map_values(|result: ScanResult| result@)
}

/// The scan result of one message.
pub open spec fn message_result(response: Seq<u8>, at: int, order: ByteOrder) -> Option<
    ScanResultView,
> {
    match message_payload(response, at, order) {
        Some(payload) => bss_in(payload, order),
        None => None,
    }
}

/// The scan results of the messages of `response` from `at` on, added to
/// `found` in the order of the messages.
#[verifier::opaque]
pub open spec fn scan_results_from(
    found: Seq<ScanResultView>,
    response: Seq<u8>,
    at: int,
    order: ByteOrder,
) -> Seq<ScanResultView>
    decreases response.len() + 4 - at,
{
    if !message_at(response, at, order) {
        found
    } else {
        scan_results_from(
            match message_result(response, at, order) {
                Some(result) => found.push(result),
                None => found,
            },
            response,
            next_message(response, at, order),
            order,
        )
    }
}

/// The scan results of an answer.
pub open spec fn scan_results(response: Seq<u8>, order: ByteOrder) -> Seq<ScanResultView> {
    scan_results_from(Seq::empty(), response, 0, order)
}

/// Reading goes from a message to the next, and ends where no message starts.
pub proof fn lemma_scan_results_step(
    found: Seq<ScanResultView>,
    response: Seq<u8>,
    at: int,
    order: ByteOrder,
)
    ensures
        message_at(response, at, order) ==> scan_results_from(found, response, at, order)
            == scan_results_from(
            match message_result(response, at, order) {
                Some(result) => found.push(result),
                None => found,
            },
            response,
            next_message(response, at, order),
            order,
        ),
        !message_at(response, at, order) ==> scan_results_from(found, response, at, order)
            == found,
{
    reveal(scan_results_from);
}

/// No message starts where fewer bytes than a header are left.
pub proof fn lemma_no_message_at_end(response: Seq<u8>, at: int, order: ByteOrder)
    requires
        at + NLMSG_HDRLEN > response.len(),
    ensures
        !message_at(response, at, order),
{
}

/// Reads the header of the message at `offset`: its length, where a
/// message to be read starts there.
pub fn read_message(response: &[u8], offset: usize, order: ByteOrder) -> (len: Option<usize>)
    requires
        offset <= response@.len(),
    ensures
        match len {
            Some(found) => message_at(response@, offset as int, order) && found == message_len(
                response@,
                offset as int,
                order,
            ) && offset + found <= response@.len() && found >= NLMSG_HDRLEN,
            None => !message_at(response@, offset as int, order),
        },
{
    let total = response.len();
    if total - offset < NLMSG_HDRLEN {
        return None;
    }
    let kind = read_u16(response, offset + 4, order);
    if kind == NLMSG_DONE || kind == NLMSG_ERROR {
        return None;
    }
    let len = read_u32(response, offset, order);
    if len < NLMSG_HDRLEN as u32 || len as u64 > (total - offset) as u64 {
        return None;
    }
    Some(len as usize)
}

/// The place of the message after the one of `len` bytes at `offset`, or
/// `None` where that lies past the answer.
pub fn step_over(total: usize, offset: usize, len: usize) -> (next: Option<usize>)
    requires
        offset + len <= total,
        len >= NLMSG_HDRLEN,
    ensures
        match next {
            Some(place) => place == offset + aligned4(len as int) && place <= total,
            None => offset + aligned4(len as int) > total,
        },
{
    let pad: usize = (4 - len % 4) % 4;
    assert(len + pad == aligned4(len as int));
    if pad > total - offset - len {
        None
    } else {
        Some(offset + len + pad)
    }
}

/// Reads the scan result in the attributes of one message.
pub fn read_bss(payload: &[u8], order: ByteOrder) -> (found: Option<ScanResult>)
    ensures
        match found {
            Some(result) => bss_in(payload@, order) == Some(result@),
            None => bss_in(payload@, order) is None,
        },
{
    let attrs = parse_attrs(payload, order);
    match lookup(&attrs, NL80211_ATTR_BSS) {
        Some(bss) => parse_bss(bss.as_slice(), order),
        None => None,
    }
}

/// Get scan results: reads the scan results out of the answer to a scan dump.
pub fn parse_scan_results(response: &[u8], order: ByteOrder) -> (results: Vec<ScanResult>)
    ensures
        result_views(results@) == scan_results(response@, order),
{
    let total = response.len();
    let mut results: Vec<ScanResult> = Vec::new();
    let mut offset: usize = 0;
    let mut more = true;
    assert(result_views(results@) =~= Seq::empty());
    while more
        invariant
            total == response@.len(),
            offset <= total,
            scan_results_from(result_views(results@), response@, offset as int, order)
                == scan_results(response@, order),
            !more ==> !message_at(response@, offset as int, order),
        decreases total - offset + if more { 1int } else { 0int },
    {
        match read_message(response, offset, order) {
            None => {
                more = false;
            },
            Some(len) => {
                let ghost before = result_views(results@);
                if len > ATTRS_OFFSET {
                    let payload = vstd::slice::slice_subrange(
                        response,
                        offset + ATTRS_OFFSET,
                        offset + len,
                    );
                    match read_bss(payload, order) {
                        Some(result) => {
                            results.push(result);
                            assert(result_views(results@) =~= before.push(result@));
                        },
                        None => {},
                    }
                }
                let ghost after = result_views(results@);
                proof {
                    lemma_scan_results_step(before, response@, offset as int, order);
                }
                match step_over(total, offset, len) {
                    Some(next) => {
                        offset = next;
                    },
                    None => {
                        proof {
                            let next = next_message(response@, offset as int, order);
                            lemma_no_message_at_end(response@, next, order);
                            lemma_no_message_at_end(response@, total as int, order);
                            lemma_scan_results_step(after, response@, next, order);
                            lemma_scan_results_step(after, response@, total as int, order);
                        }
                        offset = total;
                        more = false;
                    },
                }
            },
        }
    }
    proof {
        lemma_scan_results_step(result_views(results@), response@, offset as int, order);
    }
    results
}

/// WiFi interface information
#[derive(Debug)]
pub struct WifiInterface {
    /// Index of the interface.
    pub ifindex: i32,
    /// Name of the interface.
    pub ifname: String,
    /// Hardware address of the interface.
    pub mac: [u8; 6],
    /// Type of the interface.
    pub iftype: u32,
}

/// An interface as plain values.
pub struct WifiInterfaceView {
    pub ifindex: i32,
    pub ifname: Seq<char>,
    pub mac: Seq<u8>,
    pub iftype: u32,
}

impl View for WifiInterface {
    type V = WifiInterfaceView;

    open spec fn view(&self) -> WifiInterfaceView {
        WifiInterfaceView {
            ifindex: self.ifindex,
            ifname: self.ifname@,
            mac: self.mac@,
            iftype: self.iftype,
        }
    }
}

/// The interfaces of a list as plain values.
pub open spec fn interface_views(interfaces: Seq<WifiInterface>) -> Seq<WifiInterfaceView> {
    interfaces.map_values(|interface: WifiInterface| interface@)
}

/// The bytes before the first zero byte, or all of them where none is zero.
pub open spec fn before_nul(bytes: Seq<u8>) -> Seq<u8>
    decreases bytes.len(),
{
    if bytes.len() == 0 || bytes[0] == 0 {
        Seq::empty()
    } else {
        seq![bytes[0]] + before_nul(bytes.skip(1))
    }
}

/// Where no byte before `end` is zero, and `end` is the end or a zero
/// byte, the bytes before the first zero byte are those before `end`.
pub proof fn lemma_before_nul(bytes: Seq<u8>, end: int)
    requires
        0 <= end <= bytes.len(),
        forall|i: int| 0 <= i < end ==> bytes[i] != 0,
        end == bytes.len() || bytes[end] == 0,
    ensures
        before_nul(bytes) == bytes.take(end),
    decreases bytes.len(),
{
    if end == 0 {
        assert(bytes.take(0) =~= Seq::<u8>::empty());
    } else {
        let rest = bytes.skip(1);
        assert forall|i: int| 0 <= i < end - 1 implies rest[i] != 0 by {
            assert(rest[i] == bytes[i + 1]);
        }
        lemma_before_nul(rest, end - 1);
        assert(bytes.take(end) =~= seq![bytes[0]] + rest.take(end - 1));
    }
}

/// The bytes before the first zero byte.
pub fn until_nul(bytes: &[u8]) -> (head: &[u8])
    ensures
        head@ == before_nul(bytes@),
{
    let mut end: usize = 0;
    while end < bytes.len() && bytes[end] != 0
        invariant
            end <= bytes@.len(),
            forall|i: int| 0 <= i < end ==> bytes@[i] != 0,
        decreases bytes@.len() - end,
    {
        end += 1;
    }
    proof {
        lemma_before_nul(bytes@, end as int);
    }
    vstd::slice::slice_subrange(bytes, 0, end)
}

/// The interface that a message's attributes describe: index, name up to
/// its first zero byte, hardware address and type, each zero or empty
/// where its attribute is missing or too short. There is none where the
/// index is not positive or the name is empty.
pub open spec fn interface_of(attrs: Map<u16, Seq<u8>>, order: ByteOrder) -> Option<
    WifiInterfaceView,
> {
    let interface = WifiInterfaceView {
        ifindex: if attrs.contains_key(NL80211_ATTR_IFINDEX) && attrs[NL80211_ATTR_IFINDEX].len()
            >= 4 {
            i32_at(attrs[NL80211_ATTR_IFINDEX], 0, order)
        } else {
            0
        },
        ifname: if attrs.contains_key(NL80211_ATTR_IFNAME) {
            utf8_lossy(before_nul(attrs[NL80211_ATTR_IFNAME]))
        } else {
            Seq::empty()
        },
        mac: if attrs.contains_key(NL80211_ATTR_MAC) && attrs[NL80211_ATTR_MAC].len() >= 6 {
            attrs[NL80211_ATTR_MAC].take(6)
        } else {
            zero_bytes(6)
        },
        iftype: if attrs.contains_key(NL80211_ATTR_IFTYPE) && attrs[NL80211_ATTR_IFTYPE].len()
            >= 4 {
            u32_at(attrs[NL80211_ATTR_IFTYPE], 0, order)
        } else {
            0
        },
    };
    if interface.ifindex > 0 && interface.ifname.len() > 0 {
        Some(interface)
    } else {
        None
    }
}

/// The interface of the given index, name, hardware address and type:
/// there is none where the index is not positive or the name is empty.
pub fn interface_from_parts(ifindex: i32, ifname: String, mac: [u8; 6], iftype: u32) -> (found:
    Option<WifiInterface>)
    ensures
        match found {
            Some(interface) => ifindex > 0 && ifname@.len() > 0 && interface@ == (
            WifiInterfaceView { ifindex, ifname: ifname@, mac: mac@, iftype }),
            None => !(ifindex > 0 && ifname@.len() > 0),
        },
{
    if ifindex > 0 && !ifname.as_str().is_empty() {
        Some(WifiInterface { ifindex, ifname, mac, iftype })
    } else {
        None
    }
}

/// Reads the interface that a message's attributes describe.
pub fn parse_interface(attrs: &HashMap<u16, Vec<u8>>, order: ByteOrder) -> (found: Option<
    WifiInterface,
>)
    ensures
        match found {
            Some(interface) => interface_of(attribute_views(attrs@), order) == Some(interface@),
            None => interface_of(attribute_views(attrs@), order) is None,
        },
{
    let mut ifindex: i32 = 0;
    match lookup(attrs, NL80211_ATTR_IFINDEX) {
        Some(value) => {
            if value.len() >= 4 {
                ifindex = read_i32(value.as_slice(), 0, order);
            }
        },
        None => {},
    }
    let ifname = match lookup(attrs, NL80211_ATTR_IFNAME) {
        Some(value) => lossy_text(until_nul(value.as_slice())),
        None => String::new(),
    };
    let mut mac: [u8; 6] = [0u8; 6];
    assert(mac@ =~= zero_bytes(6));
    match lookup(attrs, NL80211_ATTR_MAC) {
        Some(value) => {
            if value.len() >= 6 {
                mac = [value[0], value[1], value[2], value[3], value[4], value[5]];
                assert(mac@ =~= value@.take(6));
            }
        },
        None => {},
    }
    let mut iftype: u32 = 0;
    match lookup(attrs, NL80211_ATTR_IFTYPE) {
        Some(value) => {
            if value.len() >= 4 {
                iftype = read_u32(value.as_slice(), 0, order);
            }
        },
        None => {},
    }
    interface_from_parts(ifindex, ifname, mac, iftype)
}

/// The interface of one message, where it describes one.
pub open spec fn message_interface(response: Seq<u8>, at: int, order: ByteOrder) -> Option<
    WifiInterfaceView,
> {
    match message_payload(response, at, order) {
        Some(payload) => interface_of(attributes(payload, order), order),
        None => None,
    }
}

/// Reads the interface in the attributes of one message.
pub fn read_interface(payload: &[u8], order: ByteOrder) -> (found: Option<WifiInterface>)
    ensures
        match found {
            Some(interface) => interface_of(attributes(payload@, order), order) == Some(
                interface@,
            ),
            None => interface_of(attributes(payload@, order), order) is None,
        },
{
    let attrs = parse_attrs(payload, order);
    parse_interface(&attrs, order)
}

/// The interfaces of the messages of `response` from `at` on, added to
/// `found` in the order of the messages.
#[verifier::opaque]
pub open spec fn interfaces_from(
    found: Seq<WifiInterfaceView>,
    response: Seq<u8>,
    at: int,
    order: ByteOrder,
) -> Seq<WifiInterfaceView>
    decreases response.len() + 4 - at,
{
    if !message_at(response, at, order) {
        found
    } else {
        interfaces_from(
            match message_interface(response, at, order) {
                Some(interface) => found.push(interface),
                None => found,
            },
            response,
            next_message(response, at, order),
            order,
        )
    }
}

/// Reading goes from a message to the next, and ends where no message starts.
pub proof fn lemma_interfaces_step(
    found: Seq<WifiInterfaceView>,
    response: Seq<u8>,
    at: int,
    order: ByteOrder,
)
    ensures
        message_at(response, at, order) ==> interfaces_from(found, response, at, order)
            == interfaces_from(
            match message_interface(response, at, order) {
                Some(interface) => found.push(interface),
                None => found,
            },
            response,
            next_message(response, at, order),
            order,
        ),
        !message_at(response, at, order) ==> interfaces_from(found, response, at, order) == found,
{
    reveal(interfaces_from);
}

/// The interfaces of an answer.
pub open spec fn interfaces(response: Seq<u8>, order: ByteOrder) -> Seq<WifiInterfaceView> {
    interfaces_from(Seq::empty(), response, 0, order)
}

/// Get WiFi interfaces: reads the interfaces out of the answer to an
/// interface dump.
pub fn parse_interfaces(response: &[u8], order: ByteOrder) -> (found: Vec<WifiInterface>)
    ensures
        interface_views(found@) == interfaces(response@, order),
{
    let total = response.len();
    let mut found: Vec<WifiInterface> = Vec::new();
    let mut offset: usize = 0;
    let mut more = true;
    assert(interface_views(found@) =~= Seq::empty());
    while more
        invariant
            total == response@.len(),
            offset <= total,
            interfaces_from(interface_views(found@), response@, offset as int, order)
                == interfaces(response@, order),
            !more ==> !message_at(response@, offset as int, order),
        decreases total - offset + if more { 1int } else { 0int },
    {
        match read_message(response, offset, order) {
            None => {
                more = false;
            },
            Some(len) => {
                let ghost before = interface_views(found@);
                if len > ATTRS_OFFSET {
                    let payload = vstd::slice::slice_subrange(
                        response,
                        offset + ATTRS_OFFSET,
                        offset + len,
                    );
                    match read_interface(payload, order) {
                        Some(interface) => {
                            let ghost view = interface@;
                            found.push(interface);
                            assert(interface_views(found@) =~= before.push(view));
                        },
                        None => {},
                    }
                }
                let ghost after = interface_views(found@);
                proof {
                    lemma_interfaces_step(before, response@, offset as int, order);
                }
                match step_over(total, offset, len) {
                    Some(next) => {
                        offset = next;
                    },
                    None => {
                        proof {
                            let next = next_message(response@, offset as int, order);
                            lemma_no_message_at_end(response@, next, order);
                            lemma_no_message_at_end(response@, total as int, order);
                            lemma_interfaces_step(after, response@, next, order);
                            lemma_interfaces_step(after, response@, total as int, order);
                        }
                        offset = total;
                        more = false;
                    },
                }
            },
        }
    }
    proof {
        lemma_interfaces_step(interface_views(found@), response@, offset as int, order);
    }
    found
}

/// The error of the system that an error message at the start of
/// `response` carries, where there is such a message with its error.
pub open spec fn reported_error(response: Seq<u8>, order: ByteOrder) -> Option<i32> {
    if response.len() >= ATTRS_OFFSET && message_type(response, 0, order) == NLMSG_ERROR {
        Some(i32_at(response, NLMSG_HDRLEN as int, order))
    } else {
        None
    }
}

/// Reads the error that an error message at the start of `response` carries.
pub fn read_error(response: &[u8], order: ByteOrder) -> (error: Option<i32>)
    ensures
        error == reported_error(response@, order),
{
    if response.len() >= ATTRS_OFFSET && read_u16(response, 4, order) == NLMSG_ERROR {
        Some(read_i32(response, NLMSG_HDRLEN, order))
    } else {
        None
    }
}

/// The family number in the controller's answer.
///
/// An error message gives the system's error. Otherwise the number is
/// the first two bytes of the family-id attribute. An answer that is
/// too short for its headers, or has no such attribute of two bytes,
/// gives the system error -1.
pub open spec fn family_id(response: Seq<u8>, order: ByteOrder) -> WifiResult<u16> {
    if response.len() < ATTRS_OFFSET {
        Err(WifiError::SystemError(UNREADABLE))
    } else if message_type(response, 0, order) == NLMSG_ERROR {
        Err(WifiError::SystemError(i32_at(response, NLMSG_HDRLEN as int, order)))
    } else {
        let attrs = attributes(response.skip(ATTRS_OFFSET as int), order);
        if attrs.contains_key(CTRL_ATTR_FAMILY_ID) && attrs[CTRL_ATTR_FAMILY_ID].len() >= 2 {
            Ok(u16_at(attrs[CTRL_ATTR_FAMILY_ID], 0, order))
        } else {
            Err(WifiError::SystemError(UNREADABLE))
        }
    }
}

/// Resolve nl80211 family ID: reads the family number out of the
/// controller's answer.
pub fn parse_family_id(response: &[u8], order: ByteOrder) -> (id: WifiResult<u16>)
    ensures
        id == family_id(response@, order),
{
    if response.len() < ATTRS_OFFSET {
        return Err(WifiError::SystemError(UNREADABLE));
    }
    match read_error(response, order) {
        Some(error) => {
            return Err(WifiError::SystemError(error));
        },
        None => {},
    }
    let payload = vstd::slice::slice_subrange(response, ATTRS_OFFSET, response.len());
    assert(payload@ =~= response@.skip(ATTRS_OFFSET as int));
    let attrs = parse_attrs(payload, order);
    match lookup(&attrs, CTRL_ATTR_FAMILY_ID) {
        Some(value) => {
            if value.len() >= 2 {
                Ok(read_u16(value.as_slice(), 0, order))
            } else {
                Err(WifiError::SystemError(UNREADABLE))
            }
        },
        None => Err(WifiError::SystemError(UNREADABLE)),
    }
}

/// How a request to scan ended, from its answer: a negative error is a
/// failure with that error, except -16, which says that a scan is under
/// way already and counts as success. Any other answer is a success.
pub open spec fn trigger_outcome(response: Seq<u8>, order: ByteOrder) -> WifiResult<()> {
    match reported_error(response, order) {
        Some(error) => if error < 0 && error != SCAN_BUSY {
            Err(WifiError::SystemError(error))
        } else {
            Ok(())
        },
        None => Ok(()),
    }
}

/// Trigger WiFi scan: reads from the answer how the request ended.
pub fn check_trigger(response: &[u8], order: ByteOrder) -> (outcome: WifiResult<()>)
    ensures
        outcome == trigger_outcome(response@, order),
{
    match read_error(response, order) {
        Some(error) => {
            if error < 0 && error != SCAN_BUSY {
                Err(WifiError::SystemError(error))
            } else {
                Ok(())
            }
        },
        None => Ok(()),
    }
}

/// Whether an answer is complete with the datagram `chunk`: its first
/// message is the end of a multipart answer, or is no part of one. A
/// datagram too short for a header ends the answer.
pub open spec fn ends_answer(chunk: Seq<u8>, order: ByteOrder) -> bool {
    chunk.len() < 8 || message_type(chunk, 0, order) == NLMSG_DONE || u16_at(chunk, 6, order)
        / NLM_F_MULTI % 2 == 0
}

/// Whether an answer is complete with the datagram `chunk`.
pub fn is_last_chunk(chunk: &[u8], order: ByteOrder) -> (last: bool)
    ensures
        last == ends_answer(chunk@, order),
{
    if chunk.len() < 8 {
        return true;
    }
    read_u16(chunk, 4, order) == NLMSG_DONE || read_u16(chunk, 6, order) / NLM_F_MULTI % 2 == 0
}

} // verus!
