//! Attribute Protocol packets of the GATT server: the fixed attribute
//! table and the response to each request, framed for the ATT channel.
//!
//! The table holds one primary service (handle 1, UUID 0x1234) with a
//! readable characteristic (declaration at handle 2, value at handle 3,
//! UUID 0x1235, property read) and a writable one (declaration at handle
//! 4, value at handle 5, UUID 0x1236, properties write and write without
//! response).

use vstd::prelude::*;
use crate::ble::wire::{high_byte, high_byte_of, le16, low_byte, low_byte_of, read_le16};

verus! {

/// Packet type of ACL data.
pub const HCI_ACL_PKT: u8 = 0x02;

/// L2CAP channel of the Attribute Protocol.
pub const L2CAP_CID_ATT: u16 = 0x0004;

/// ATT opcode: error response.
pub const ATT_OP_ERROR_RSP: u8 = 0x01;

/// ATT opcode: exchange MTU request.
pub const ATT_OP_MTU_REQ: u8 = 0x02;

/// ATT opcode: exchange MTU response.
pub const ATT_OP_MTU_RSP: u8 = 0x03;

/// ATT opcode: find information request.
pub const ATT_OP_FIND_INFO_REQ: u8 = 0x04;

/// ATT opcode: find information response.
pub const ATT_OP_FIND_INFO_RSP: u8 = 0x05;

/// ATT opcode: read by type request.
pub const ATT_OP_READ_BY_TYPE_REQ: u8 = 0x08;

/// ATT opcode: read by type response.
pub const ATT_OP_READ_BY_TYPE_RSP: u8 = 0x09;

/// ATT opcode: read request.
pub const ATT_OP_READ_REQ: u8 = 0x0A;

/// ATT opcode: read response.
pub const ATT_OP_READ_RSP: u8 = 0x0B;

/// ATT opcode: read by group type request.
pub const ATT_OP_READ_BY_GROUP_REQ: u8 = 0x10;

/// ATT opcode: read by group type response.
pub const ATT_OP_READ_BY_GROUP_RSP: u8 = 0x11;

/// ATT opcode: write request.
pub const ATT_OP_WRITE_REQ: u8 = 0x12;

/// ATT opcode: write response.
pub const ATT_OP_WRITE_RSP: u8 = 0x13;

/// ATT opcode: write command, which is not answered.
pub const ATT_OP_WRITE_CMD: u8 = 0x52;

/// ATT error code: attribute not found.
pub const ATT_ERR_ATTR_NOT_FOUND: u8 = 0x0A;

/// The MTU that the server answers every MTU request with.
pub const ATT_MTU: u16 = 23;

/// UUID of a primary service declaration.
pub const UUID_PRIMARY_SERVICE: u16 = 0x2800;

/// UUID of a characteristic declaration.
pub const UUID_CHARACTERISTIC: u16 = 0x2803;

/// UUID of the service.
pub const UUID_SERVICE: u16 = 0x1234;

/// UUID of the readable characteristic.
pub const UUID_READ_VALUE: u16 = 0x1235;

/// UUID of the writable characteristic.
pub const UUID_WRITE_VALUE: u16 = 0x1236;

/// Handle of the service declaration, the first of the table.
pub const HANDLE_SERVICE: u16 = 1;

/// Handle of the declaration of the readable characteristic.
pub const HANDLE_READ_DECL: u16 = 2;

/// Handle of the value of the readable characteristic.
pub const HANDLE_READ_VALUE: u16 = 3;

/// Handle of the declaration of the writable characteristic.
pub const HANDLE_WRITE_DECL: u16 = 4;

/// Handle of the value of the writable characteristic, the last of the table.
pub const HANDLE_WRITE_VALUE: u16 = 5;

/// Characteristic property: read.
pub const PROP_READ: u8 = 0x02;

/// Characteristic property: write without response.
pub const PROP_WRITE_WITHOUT_RESPONSE: u8 = 0x04;

/// Characteristic property: write.
pub const PROP_WRITE: u8 = 0x08;

/// Characteristic properties: write and write without response, and no read.
pub const PROP_WRITE_ANY: u8 = 0x0C;

/// Most bytes that the writable characteristic holds.
pub const WRITE_BUFFER_LEN: usize = 32;

/// Most payload bytes whose frame lengths fit their 16-bit fields.
pub const MAX_ATT_PAYLOAD: usize = 65531;

/// A 16-bit value as its two bytes, low byte first.
pub open spec fn le_bytes(value: u16) -> Seq<u8> {
    seq![low_byte(value), high_byte(value)]
}

/// An ATT payload framed as an ACL data packet for `connection`: packet
/// type, connection handle with its upper four bits cleared, ACL length,
/// L2CAP length, the ATT channel, the payload.
pub open spec fn acl_frame(connection: u16, payload: Seq<u8>) -> Seq<u8> {
    seq![HCI_ACL_PKT, low_byte(connection), (high_byte(connection) % 16) as u8] + le_bytes(
        (payload.len() + 4) as u16,
    ) + le_bytes(payload.len() as u16) + le_bytes(L2CAP_CID_ATT) + payload
}

/// Frames an ATT payload for `connection`.
pub fn frame_att(connection: u16, payload: &[u8]) -> (packet: Vec<u8>)
    requires
        payload@.len() <= MAX_ATT_PAYLOAD,
    ensures
        packet@ == acl_frame(connection, payload@),
{
    let l2cap_len: u16 = payload.len() as u16;
    let acl_len: u16 = l2cap_len + 4;
    let mut packet: Vec<u8> = Vec::new();
    packet.push(HCI_ACL_PKT);
    packet.push(low_byte_of(connection));
    packet.push(high_byte_of(connection) % 16);
    packet.push(low_byte_of(acl_len));
    packet.push(high_byte_of(acl_len));
    packet.push(low_byte_of(l2cap_len));
    packet.push(high_byte_of(l2cap_len));
    packet.push(low_byte_of(L2CAP_CID_ATT));
    packet.push(high_byte_of(L2CAP_CID_ATT));
    packet.extend_from_slice(payload);
    assert(packet@ =~= acl_frame(connection, payload@));
    packet
}

/// Payload of the answer to an MTU request.
pub open spec fn mtu_response(mtu: u16) -> Seq<u8> {
    seq![ATT_OP_MTU_RSP] + le_bytes(mtu)
}

/// Payload of an error response: the opcode of the request it answers,
/// the handle it is about, the error code.
pub open spec fn error_response(request: u8, handle: u16, code: u8) -> Seq<u8> {
    seq![ATT_OP_ERROR_RSP, request] + le_bytes(handle) + seq![code]
}

/// Payload that names one service: entry length 6, first handle, last
/// handle, service UUID.
pub open spec fn service_record(first: u16, last: u16, uuid: u16) -> Seq<u8> {
    seq![ATT_OP_READ_BY_GROUP_RSP, 6u8] + le_bytes(first) + le_bytes(last) + le_bytes(uuid)
}

/// Payload that names one characteristic: entry length 7, declaration
/// handle, properties, value handle, UUID.
pub open spec fn characteristic_record(handle: u16, properties: u8, value_handle: u16, uuid: u16) -> Seq<
    u8,
> {
    seq![ATT_OP_READ_BY_TYPE_RSP, 7u8] + le_bytes(handle) + seq![properties] + le_bytes(
        value_handle,
    ) + le_bytes(uuid)
}

/// Payload that gives the 16-bit type of one attribute: format 1, handle, UUID.
pub open spec fn info_record(handle: u16, uuid: u16) -> Seq<u8> {
    seq![ATT_OP_FIND_INFO_RSP, 1u8] + le_bytes(handle) + le_bytes(uuid)
}

/// Payload of a read response.
pub open spec fn read_response(value: Seq<u8>) -> Seq<u8> {
    seq![ATT_OP_READ_RSP] + value
}

/// Payload of a write response.
pub open spec fn write_response() -> Seq<u8> {
    seq![ATT_OP_WRITE_RSP]
}

/// The properties of the writable characteristic are write and write
/// without response together, and the read property is not among them.
pub proof fn lemma_write_properties()
    ensures
        PROP_WRITE_ANY == PROP_WRITE | PROP_WRITE_WITHOUT_RESPONSE,
        PROP_WRITE_ANY & PROP_READ == 0,
        PROP_READ & (PROP_WRITE | PROP_WRITE_WITHOUT_RESPONSE) == 0,
{
    assert(0x0Cu8 == 0x08u8 | 0x04u8) by (bit_vector);
    assert(0x0Cu8 & 0x02u8 == 0) by (bit_vector);
    assert(0x02u8 & (0x08u8 | 0x04u8) == 0) by (bit_vector);
}

/// The type of the attribute at `handle`, where the table has one there.
pub open spec fn attribute_type(handle: u16) -> Option<u16> {
    if handle == HANDLE_SERVICE {
        Some(UUID_PRIMARY_SERVICE)
    } else if handle == HANDLE_READ_DECL || handle == HANDLE_WRITE_DECL {
        Some(UUID_CHARACTERISTIC)
    } else if handle == HANDLE_READ_VALUE {
        Some(UUID_READ_VALUE)
    } else if handle == HANDLE_WRITE_VALUE {
        Some(UUID_WRITE_VALUE)
    } else {
        None
    }
}

/// The handle at which a request starts: its first two bytes, or 1 where
/// the request is too short to hold them.
pub open spec fn start_handle(request: Seq<u8>) -> u16 {
    if request.len() >= 2 {
        le16(request[0], request[1])
    } else {
        HANDLE_SERVICE
    }
}

/// Payload of the answer to a read-by-group-type request, which asks for
/// services: the one service, unless the request starts after the last
/// handle of the table, which is answered with attribute-not-found for
/// its start handle.
pub open spec fn group_answer(request: Seq<u8>) -> Seq<u8> {
    if start_handle(request) > HANDLE_WRITE_VALUE {
        error_response(ATT_OP_READ_BY_GROUP_REQ, start_handle(request), ATT_ERR_ATTR_NOT_FOUND)
    } else {
        service_record(HANDLE_SERVICE, HANDLE_WRITE_VALUE, UUID_SERVICE)
    }
}

/// Payload of the answer to a read-by-type request. Where the request
/// holds a 16-bit type and asks for characteristic declarations, the
/// answer is the first declaration at or after its start handle; past the
/// last declaration, for any other type and for a short request the
/// answer is attribute-not-found for its start handle.
pub open spec fn type_answer(request: Seq<u8>) -> Seq<u8> {
    let start = start_handle(request);
    if request.len() >= 6 && le16(request[4], request[5]) == UUID_CHARACTERISTIC && start
        <= HANDLE_READ_DECL {
        characteristic_record(HANDLE_READ_DECL, PROP_READ, HANDLE_READ_VALUE, UUID_READ_VALUE)
    } else if request.len() >= 6 && le16(request[4], request[5]) == UUID_CHARACTERISTIC && start
        <= HANDLE_WRITE_DECL {
        characteristic_record(
            HANDLE_WRITE_DECL,
            PROP_WRITE_ANY,
            HANDLE_WRITE_VALUE,
            UUID_WRITE_VALUE,
        )
    } else {
        error_response(ATT_OP_READ_BY_TYPE_REQ, start, ATT_ERR_ATTR_NOT_FOUND)
    }
}

/// Payload of the answer to a find-information request: the type of the
/// attribute at exactly its start handle, or attribute-not-found for that
/// handle where the table has none there. A request too short for both of
/// its handles is answered with attribute-not-found for handle 1.
pub open spec fn info_answer(request: Seq<u8>) -> Seq<u8> {
    if request.len() >= 4 {
        match attribute_type(start_handle(request)) {
            Some(uuid) => info_record(start_handle(request), uuid),
            None => error_response(
                ATT_OP_FIND_INFO_REQ,
                start_handle(request),
                ATT_ERR_ATTR_NOT_FOUND,
            ),
        }
    } else {
        error_response(ATT_OP_FIND_INFO_REQ, HANDLE_SERVICE, ATT_ERR_ATTR_NOT_FOUND)
    }
}

/// Payload of the answer to a read request for `handle`: the value of the
/// readable or of the writable characteristic. A read of any other handle
/// is not answered.
pub open spec fn read_answer(handle: u16, message: Seq<u8>, written: Seq<u8>) -> Option<Seq<u8>> {
    if handle == HANDLE_READ_VALUE {
        Some(read_response(message))
    } else if handle == HANDLE_WRITE_VALUE {
        Some(read_response(written))
    } else {
        None
    }
}

/// Builds the answer to an MTU request.
pub fn build_att_mtu_response(conn_handle: u16, mtu: u16) -> (packet: Vec<u8>)
    ensures
        packet@ == acl_frame(conn_handle, mtu_response(mtu)),
{
    let payload: Vec<u8> = vec![ATT_OP_MTU_RSP, low_byte_of(mtu), high_byte_of(mtu)];
    assert(payload@ =~= mtu_response(mtu));
    frame_att(conn_handle, payload.as_slice())
}

/// Builds an error response.
pub fn build_error_response(conn_handle: u16, req_opcode: u8, handle: u16, error: u8) -> (packet:
    Vec<u8>)
    ensures
        packet@ == acl_frame(conn_handle, error_response(req_opcode, handle, error)),
{
    let payload: Vec<u8> = vec![
        ATT_OP_ERROR_RSP,
        req_opcode,
        low_byte_of(handle),
        high_byte_of(handle),
        error,
    ];
    assert(payload@ =~= error_response(req_opcode, handle, error));
    frame_att(conn_handle, payload.as_slice())
}

/// Reads the start handle of a request.
pub fn read_start_handle(req_data: &[u8]) -> (handle: u16)
    ensures
        handle == start_handle(req_data@),
{
    if req_data.len() >= 2 {
        read_le16(req_data, 0)
    } else {
        HANDLE_SERVICE
    }
}

/// Builds the answer to a read-by-group-type request from the bytes
/// after its opcode.
pub fn build_read_by_group_response(conn_handle: u16, req_data: &[u8]) -> (packet: Vec<u8>)
    ensures
        packet@ == acl_frame(conn_handle, group_answer(req_data@)),
{
    let start = read_start_handle(req_data);
    if start > HANDLE_WRITE_VALUE {
        return build_error_response(
            conn_handle,
            ATT_OP_READ_BY_GROUP_REQ,
            start,
            ATT_ERR_ATTR_NOT_FOUND,
        );
    }
    let payload: Vec<u8> = vec![
        ATT_OP_READ_BY_GROUP_RSP,
        6u8,
        low_byte_of(HANDLE_SERVICE),
        high_byte_of(HANDLE_SERVICE),
        low_byte_of(HANDLE_WRITE_VALUE),
        high_byte_of(HANDLE_WRITE_VALUE),
        low_byte_of(UUID_SERVICE),
        high_byte_of(UUID_SERVICE),
    ];
    assert(payload@ =~= service_record(HANDLE_SERVICE, HANDLE_WRITE_VALUE, UUID_SERVICE));
    frame_att(conn_handle, payload.as_slice())
}

/// Builds the packet that names one characteristic.
pub fn build_characteristic_record(
    conn_handle: u16,
    handle: u16,
    properties: u8,
    value_handle: u16,
    uuid: u16,
) -> (packet: Vec<u8>)
    ensures
        packet@ == acl_frame(
            conn_handle,
            characteristic_record(handle, properties, value_handle, uuid),
        ),
{
    let payload: Vec<u8> = vec![
        ATT_OP_READ_BY_TYPE_RSP,
        7u8,
        low_byte_of(handle),
        high_byte_of(handle),
        properties,
        low_byte_of(value_handle),
        high_byte_of(value_handle),
        low_byte_of(uuid),
        high_byte_of(uuid),
    ];
    assert(payload@ =~= characteristic_record(handle, properties, value_handle, uuid));
    frame_att(conn_handle, payload.as_slice())
}

/// Builds the answer to a read-by-type request from the bytes after its opcode.
pub fn build_read_by_type_response(conn_handle: u16, req_data: &[u8]) -> (packet: Vec<u8>)
    ensures
        packet@ == acl_frame(conn_handle, type_answer(req_data@)),
{
    let start = read_start_handle(req_data);
    if req_data.len() >= 6 && read_le16(req_data, 4) == UUID_CHARACTERISTIC {
        if start <= HANDLE_READ_DECL {
            return build_characteristic_record(
                conn_handle,
                HANDLE_READ_DECL,
                PROP_READ,
                HANDLE_READ_VALUE,
                UUID_READ_VALUE,
            );
        } else if start <= HANDLE_WRITE_DECL {
            return build_characteristic_record(
                conn_handle,
                HANDLE_WRITE_DECL,
                PROP_WRITE_ANY,
                HANDLE_WRITE_VALUE,
                UUID_WRITE_VALUE,
            );
        }
    }
    build_error_response(conn_handle, ATT_OP_READ_BY_TYPE_REQ, start, ATT_ERR_ATTR_NOT_FOUND)
}

/// The type of the attribute at `handle`, where the table has one there.
pub fn type_of_attribute(handle: u16) -> (uuid: Option<u16>)
    ensures
        uuid == attribute_type(handle),
{
    if handle == HANDLE_SERVICE {
        Some(UUID_PRIMARY_SERVICE)
    } else if handle == HANDLE_READ_DECL || handle == HANDLE_WRITE_DECL {
        Some(UUID_CHARACTERISTIC)
    } else if handle == HANDLE_READ_VALUE {
        Some(UUID_READ_VALUE)
    } else if handle == HANDLE_WRITE_VALUE {
        Some(UUID_WRITE_VALUE)
    } else {
        None
    }
}

/// Builds the answer to a find-information request from the bytes after
/// its opcode.
pub fn build_find_info_response(conn_handle: u16, req_data: &[u8]) -> (packet: Vec<u8>)
    ensures
        packet@ == acl_frame(conn_handle, info_answer(req_data@)),
{
    if req_data.len() >= 4 {
        let start = read_start_handle(req_data);
        match type_of_attribute(start) {
            Some(uuid) => {
                let payload: Vec<u8> = vec![
                    ATT_OP_FIND_INFO_RSP,
                    1u8,
                    low_byte_of(start),
                    high_byte_of(start),
                    low_byte_of(uuid),
                    high_byte_of(uuid),
                ];
                assert(payload@ =~= info_record(start, uuid));
                frame_att(conn_handle, payload.as_slice())
            },
            None => build_error_response(
                conn_handle,
                ATT_OP_FIND_INFO_REQ,
                start,
                ATT_ERR_ATTR_NOT_FOUND,
            ),
        }
    } else {
        build_error_response(
            conn_handle,
            ATT_OP_FIND_INFO_REQ,
            HANDLE_SERVICE,
            ATT_ERR_ATTR_NOT_FOUND,
        )
    }
}

/// Builds the answer to a read request for `attr_handle`, where it is
/// answered: `hello_msg` is the value of the readable characteristic,
/// `command_buf` that of the writable one.
pub fn build_read_response(
    conn_handle: u16,
    attr_handle: u16,
    hello_msg: &[u8],
    command_buf: &[u8],
) -> (packet: Option<Vec<u8>>)
    requires
        hello_msg@.len() < MAX_ATT_PAYLOAD,
        command_buf@.len() < MAX_ATT_PAYLOAD,
    ensures
        match read_answer(attr_handle, hello_msg@, command_buf@) {
            Some(payload) => packet is Some && packet.unwrap()@ == acl_frame(conn_handle, payload),
            None => packet is None,
        },
{
    if attr_handle != HANDLE_READ_VALUE && attr_handle != HANDLE_WRITE_VALUE {
        return None;
    }
    let value: &[u8] = if attr_handle == HANDLE_READ_VALUE {
        hello_msg
    } else {
        command_buf
    };
    let mut payload: Vec<u8> = Vec::new();
    payload.push(ATT_OP_READ_RSP);
    payload.extend_from_slice(value);
    assert(payload@ =~= read_response(value@));
    Some(frame_att(conn_handle, payload.as_slice()))
}

/// Builds the write response.
pub fn build_write_response(conn_handle: u16) -> (packet: Vec<u8>)
    ensures
        packet@ == acl_frame(conn_handle, write_response()),
{
    let payload: Vec<u8> = vec![ATT_OP_WRITE_RSP];
    assert(payload@ =~= write_response());
    frame_att(conn_handle, payload.as_slice())
}

} // verus!
