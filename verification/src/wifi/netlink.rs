//! Netlink attributes and nl80211 request messages.
//!
//! A netlink message is a 16-byte header (length, type, flags, sequence
//! number, port), a 4-byte generic netlink header (command, version,
//! reserved) and attributes. An attribute is a 4-byte header (length,
//! type) and a value, padded with zeros to a multiple of four bytes; its
//! length counts header and value.

use std::collections::HashMap;
use vstd::prelude::*;
use vstd::std_specs::hash::*;
use crate::wifi::bytes::{push_u16, push_u32, read_u16, u16_at, u16_bytes, u32_bytes, ByteOrder};
use crate::wifi::types::zero_bytes;

verus! {

broadcast use vstd::std_specs::hash::group_hash_axioms;

/// Size of the netlink message header.
pub const NLMSG_HDRLEN: usize = 16;

/// Size of the generic netlink header.
pub const GENL_HDRLEN: usize = 4;

/// Size of an attribute's header.
pub const NLA_HDRLEN: usize = 4;

/// The part of an attribute's type field that is its type: the two flag
/// bits above it are masked out.
pub const NLA_TYPE_MODULUS: u16 = 0x8000;

/// Version of every generic netlink request.
pub const GENL_VERSION: u8 = 1;

/// Most value bytes that fit an attribute.
pub const MAX_ATTR_VALUE: usize = 65531;

/// `n` rounded up to a multiple of four.
pub open spec fn aligned4(n: int) -> int {
    (n + 3) / 4 * 4
}

/// Align to 4-byte boundary
pub fn align4(n: usize) -> (aligned: usize)
    requires
        n + 3 <= usize::MAX,
    ensures
        aligned == aligned4(n as int),
{
    (n + 3) / 4 * 4
}

/// The channel of a frequency in MHz: 1 to 13 for 2412 to 2472 in steps
/// of 5, 14 for 2484, 36 to 165 for 5180 to 5825, and 0 for any other.
pub open spec fn channel_of(freq: u32) -> u8 {
    if freq == 2484 {
        14
    } else if 2412 <= freq <= 2484 {
        ((freq - 2412) / 5 + 1) as u8
    } else if 5180 <= freq <= 5825 {
        ((freq - 5180) / 5 + 36) as u8
    } else {
        0
    }
}

/// Convert frequency (MHz) to channel number
pub fn freq_to_channel(freq: u32) -> (channel: u8)
    ensures
        channel == channel_of(freq),
{
    if freq >= 2412 && freq <= 2484 {
        if freq == 2484 {
            14
        } else {
            ((freq - 2412) / 5 + 1) as u8
        }
    } else if freq >= 5180 && freq <= 5825 {
        ((freq - 5180) / 5 + 36) as u8
    } else {
        0
    }
}

/// Whether an attribute starts at `at`: its header lies within the data,
/// and its length covers the header and stays within the data.
pub open spec fn attribute_at(data: Seq<u8>, at: int, order: ByteOrder) -> bool {
    &&& 0 <= at
    &&& at + NLA_HDRLEN <= data.len()
    &&& u16_at(data, at, order) >= NLA_HDRLEN
    &&& at + u16_at(data, at, order) <= data.len()
}

/// The attributes of `data` from `at` on, added to `found`: each
/// attribute's value under its type, a later attribute replacing an
/// earlier one of the same type. What follows the first place where no
/// attribute starts is not read.
pub open spec fn attributes_from(
    found: Map<u16, Seq<u8>>,
    data: Seq<u8>,
    at: int,
    order: ByteOrder,
) -> Map<u16, Seq<u8>>
    decreases data.len() + 4 - at,
{
    if !attribute_at(data, at, order) {
        found
    } else {
        let len = u16_at(data, at, order) as int;
        let kind = (u16_at(data, at + 2, order) % NLA_TYPE_MODULUS) as u16;
        attributes_from(
            found.insert(kind, data.subrange(at + NLA_HDRLEN, at + len)),
            data,
            at + aligned4(len),
            order,
        )
    }
}

/// The attributes of `data`.
pub open spec fn attributes(data: Seq<u8>, order: ByteOrder) -> Map<u16, Seq<u8>> {
    attributes_from(Map::empty(), data, 0, order)
}

/// The values of a map of attributes as plain values.
pub open spec fn attribute_views(found: Map<u16, Vec<u8>>) -> Map<u16, Seq<u8>> {
    found.map_values(|value: Vec<u8>| value@)
}

/// Parse netlink attributes from buffer
pub fn parse_attrs(data: &[u8], order: ByteOrder) -> (attrs: HashMap<u16, Vec<u8>>)
    ensures
        attribute_views(attrs@) == attributes(data@, order),
{
    let mut attrs: HashMap<u16, Vec<u8>> = HashMap::new();
    let total = data.len();
    let mut offset: usize = 0;
    let mut more = true;
    assert(attribute_views(attrs@) =~= Map::empty());
    while more
        invariant
            total == data@.len(),
            offset <= total,
            attributes_from(attribute_views(attrs@), data@, offset as int, order) == attributes(
                data@,
                order,
            ),
            !more ==> !attribute_at(data@, offset as int, order),
        decreases total - offset + if more { 1int } else { 0int },
    {
        if total - offset < NLA_HDRLEN {
            more = false;
        } else {
            let len: usize = read_u16(data, offset, order) as usize;
            if len < NLA_HDRLEN || len > total - offset {
                more = false;
            } else {
                assert(attribute_at(data@, offset as int, order));
                let kind: u16 = read_u16(data, offset + 2, order) % NLA_TYPE_MODULUS;
                let value = vstd::slice::slice_to_vec(
                    vstd::slice::slice_subrange(data, offset + NLA_HDRLEN, offset + len),
                );
                let ghost before = attribute_views(attrs@);
                let ghost after = before.insert(
                    kind,
                    data@.subrange(offset + NLA_HDRLEN, offset + len),
                );
                attrs.insert(kind, value);
                assert(attribute_views(attrs@) =~= after);
                assert(attributes_from(before, data@, offset as int, order) == attributes_from(
                    after,
                    data@,
                    offset + aligned4(len as int),
                    order,
                ));
                let step = align4(len);
                if step > total - offset {
                    assert(!attribute_at(data@, offset + step, order));
                    assert(!attribute_at(data@, total as int, order));
                    offset = total;
                    more = false;
                } else {
                    offset += step;
                }
            }
        }
    }
    attrs
}

/// One attribute of a request.
#[derive(Debug)]
pub struct NlAttribute {
    /// The attribute's type.
    pub kind: u16,
    /// The attribute's value.
    pub value: Vec<u8>,
}

/// An attribute as plain values.
pub struct NlAttributeView {
    pub kind: u16,
    pub value: Seq<u8>,
}

impl View for NlAttribute {
    type V = NlAttributeView;

    open spec fn view(&self) -> NlAttributeView {
        NlAttributeView { kind: self.kind, value: self.value@ }
    }
}

/// An attribute as it is sent: length, type, value, and zeros up to a
/// multiple of four bytes.
pub open spec fn encoded_attribute(attribute: NlAttributeView, order: ByteOrder) -> Seq<u8> {
    let len = NLA_HDRLEN + attribute.value.len();
    u16_bytes(len as u16, order) + u16_bytes(attribute.kind, order) + attribute.value + zero_bytes(
        aligned4(len) - len,
    )
}

/// The first `count` attributes as they are sent, one after another.
pub open spec fn encoded_attributes(attributes: Seq<NlAttribute>, count: int, order: ByteOrder) -> Seq<
    u8,
>
    decreases count,
{
    if count <= 0 {
        Seq::empty()
    } else {
        encoded_attributes(attributes, count - 1, order) + encoded_attribute(
            attributes[count - 1]@,
            order,
        )
    }
}

/// The headers of a request of `total` bytes: length, type, flags,
/// sequence number and port; then command, version 1 and a reserved
/// zero.
pub open spec fn request_headers(
    total: u32,
    family_id: u16,
    cmd: u8,
    flags: u16,
    seq: u32,
    pid: u32,
    order: ByteOrder,
) -> Seq<u8> {
    u32_bytes(total, order) + u16_bytes(family_id, order) + u16_bytes(flags, order) + u32_bytes(
        seq,
        order,
    ) + u32_bytes(pid, order) + seq![cmd, GENL_VERSION] + u16_bytes(0, order)
}

/// A request as it is sent: its headers, whose length field counts the
/// whole message, and its attributes.
pub open spec fn request(
    family_id: u16,
    cmd: u8,
    flags: u16,
    seq: u32,
    pid: u32,
    attributes: Seq<NlAttribute>,
    order: ByteOrder,
) -> Seq<u8> {
    let body = encoded_attributes(attributes, attributes.len() as int, order);
    request_headers(
        (NLMSG_HDRLEN + GENL_HDRLEN + body.len()) as u32,
        family_id,
        cmd,
        flags,
        seq,
        pid,
        order,
    ) + body
}

/// The attributes are few enough, and their values short enough, for
/// the length fields of a message.
pub open spec fn fits_a_message(attributes: Seq<NlAttribute>) -> bool {
    &&& attributes.len() <= 1024
    &&& forall|i: int|
        0 <= i < attributes.len() ==> (#[trigger] attributes[i]).value@.len() <= MAX_ATTR_VALUE
}

/// The first `count` attributes take a multiple of four bytes, at most
/// 65536 each.
pub proof fn lemma_encoded_attributes_len(attributes: Seq<NlAttribute>, count: int, order: ByteOrder)
    requires
        fits_a_message(attributes),
        0 <= count <= attributes.len(),
    ensures
        encoded_attributes(attributes, count, order).len() <= 65536 * count,
    decreases count,
{
    if count > 0 {
        lemma_encoded_attributes_len(attributes, count - 1, order);
        let len = NLA_HDRLEN + attributes[count - 1].value@.len();
        assert(aligned4(len as int) - len <= 3);
    }
}

/// Build a netlink message
pub fn build_nl_msg(
    family_id: u16,
    cmd: u8,
    flags: u16,
    seq: u32,
    pid: u32,
    attrs: &Vec<NlAttribute>,
    order: ByteOrder,
) -> (msg: Vec<u8>)
    requires
        fits_a_message(attrs@),
    ensures
        msg@ == request(family_id, cmd, flags, seq, pid, attrs@, order),
{
    let mut body: Vec<u8> = Vec::new();
    let mut i: usize = 0;
    while i < attrs.len()
        invariant
            i <= attrs@.len(),
            fits_a_message(attrs@),
            body@ == encoded_attributes(attrs@, i as int, order),
        decreases attrs@.len() - i,
    {
        let ghost before = body@;
        let len: usize = NLA_HDRLEN + attrs[i].value.len();
        push_u16(&mut body, len as u16, order);
        push_u16(&mut body, attrs[i].kind, order);
        body.extend_from_slice(attrs[i].value.as_slice());
        let ghost unpadded = body@;
        let pad: usize = align4(len) - len;
        let mut k: usize = 0;
        while k < pad
            invariant
                k <= pad,
                body@ == unpadded + zero_bytes(k as int),
            decreases pad - k,
        {
            body.push(0);
            k += 1;
            assert(body@ =~= unpadded + zero_bytes(k as int));
        }
        proof {
            assert(unpadded =~= before + u16_bytes(len as u16, order) + u16_bytes(
                attrs@[i as int].kind,
                order,
            ) + attrs@[i as int].value@);
            assert(body@ =~= before + encoded_attribute(attrs@[i as int]@, order));
        }
        i += 1;
    }
    proof {
        lemma_encoded_attributes_len(attrs@, attrs@.len() as int, order);
    }
    let total: usize = NLMSG_HDRLEN + GENL_HDRLEN + body.len();
    let mut msg: Vec<u8> = Vec::new();
    push_u32(&mut msg, total as u32, order);
    push_u16(&mut msg, family_id, order);
    push_u16(&mut msg, flags, order);
    push_u32(&mut msg, seq, order);
    push_u32(&mut msg, pid, order);
    msg.push(cmd);
    msg.push(GENL_VERSION);
    push_u16(&mut msg, 0, order);
    assert(msg@ =~= request_headers(total as u32, family_id, cmd, flags, seq, pid, order));
    msg.extend_from_slice(body.as_slice());
    assert(msg@ =~= request(family_id, cmd, flags, seq, pid, attrs@, order));
    msg
}

} // verus!
