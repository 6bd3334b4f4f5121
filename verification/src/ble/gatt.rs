//! The GATT server's reaction to what arrives on the transport: it learns
//! its peer from the connection-complete event, answers ATT requests on
//! the ATT channel, keeps the last value written to the writable
//! characteristic, and ends with the disconnection-complete event.

use vstd::prelude::*;
use crate::ble::att::{
    acl_frame, build_att_mtu_response, build_find_info_response, build_read_by_group_response,
    build_read_by_type_response, build_read_response, build_write_response, group_answer,
    info_answer, mtu_response, read_answer, read_response, type_answer, write_response, ATT_MTU,
    ATT_OP_FIND_INFO_REQ, ATT_OP_MTU_REQ, ATT_OP_READ_BY_GROUP_REQ, ATT_OP_READ_BY_TYPE_REQ,
    ATT_OP_READ_REQ, ATT_OP_WRITE_CMD, ATT_OP_WRITE_REQ, HANDLE_READ_VALUE, HANDLE_WRITE_VALUE,
    HCI_ACL_PKT, L2CAP_CID_ATT, MAX_ATT_PAYLOAD, WRITE_BUFFER_LEN,
};
use crate::ble::command::HCI_EVENT_PKT;
use crate::ble::report::HCI_EV_LE_META;
use crate::ble::wire::{le16, read_le16};

verus! {

/// Event code of a disconnection-complete event.
pub const HCI_EV_DISCONN_COMPLETE: u8 = 0x05;

/// Subevent code of an LE connection-complete event.
pub const HCI_EV_LE_CONN_COMPLETE: u8 = 0x01;

/// The value of the readable characteristic unless another is configured:
/// the text "Hello from RustCam!".
pub open spec fn greeting() -> Seq<u8> {
    seq![
        0x48u8, 0x65, 0x6C, 0x6C, 0x6F, 0x20, 0x66, 0x72, 0x6F, 0x6D, 0x20, 0x52, 0x75, 0x73,
        0x74, 0x43, 0x61, 0x6D, 0x21,
    ]
}

/// The GATT server between packets.
#[derive(Debug)]
pub struct GattServer {
    /// Handle of the connection to the peer, while there is one.
    pub connection: Option<u16>,
    /// Value of the readable characteristic.
    pub message: Vec<u8>,
    /// Value of the writable characteristic: the last value written.
    pub written: Vec<u8>,
}

/// A GATT server as plain values.
pub struct GattServerView {
    pub connection: Option<u16>,
    pub message: Seq<u8>,
    pub written: Seq<u8>,
}

impl View for GattServer {
    type V = GattServerView;

    open spec fn view(&self) -> GattServerView {
        GattServerView {
            connection: self.connection,
            message: self.message@,
            written: self.written@,
        }
    }
}

/// What the server does about a packet.
#[derive(Debug)]
pub enum Reaction {
    /// Nothing is sent.
    Nothing,
    /// This packet is sent to the peer.
    Respond(Vec<u8>),
    /// The peer has disconnected: the server stops.
    Hangup,
}

/// A reaction as plain values.
pub enum ReactionView {
    Nothing,
    Respond(Seq<u8>),
    Hangup,
}

impl View for Reaction {
    type V = ReactionView;

    open spec fn view(&self) -> ReactionView {
        match *self {
            Reaction::Nothing => ReactionView::Nothing,
            Reaction::Respond(packet) => ReactionView::Respond(packet@),
            Reaction::Hangup => ReactionView::Hangup,
        }
    }
}

/// Whether `packet` is ACL data on the ATT channel that holds an ATT opcode.
pub open spec fn carries_att(packet: Seq<u8>) -> bool {
    &&& packet.len() >= 10
    &&& packet[0] == HCI_ACL_PKT
    &&& le16(packet[7], packet[8]) == L2CAP_CID_ATT
}

/// Whether `packet` is the event that reports a new connection with status 0.
pub open spec fn reports_connection(packet: Seq<u8>) -> bool {
    &&& packet.len() >= 7
    &&& packet[0] == HCI_EVENT_PKT
    &&& packet[1] == HCI_EV_LE_META
    &&& packet[3] == HCI_EV_LE_CONN_COMPLETE
    &&& packet[4] == 0
}

/// Whether `packet` is the event that reports a disconnection.
pub open spec fn reports_disconnection(packet: Seq<u8>) -> bool {
    &&& packet.len() >= 5
    &&& packet[0] == HCI_EVENT_PKT
    &&& packet[1] == HCI_EV_DISCONN_COMPLETE
}

impl GattServerView {
    /// Both values fit: the readable one a frame, the written one its buffer.
    pub open spec fn well_formed(self) -> bool {
        &&& self.message.len() < MAX_ATT_PAYLOAD
        &&& self.written.len() <= WRITE_BUFFER_LEN
    }

    /// The value of the writable characteristic after a write of `value`
    /// to `handle`: the value, where the handle is that characteristic's
    /// and the value fits its buffer.
    pub open spec fn written_after(self, handle: u16, value: Seq<u8>) -> Seq<u8> {
        if handle == HANDLE_WRITE_VALUE && value.len() <= WRITE_BUFFER_LEN {
            value
        } else {
            self.written
        }
    }

    /// The server after the ATT request `opcode` with `body`, and the
    /// payload it answers with, if any.
    ///
    /// A read or write too short for its handle, and an unknown opcode,
    /// change nothing and are not answered. A write request is answered
    /// whatever handle it names; a write command never is.
    pub open spec fn serve(self, opcode: u8, body: Seq<u8>) -> (GattServerView, Option<Seq<u8>>) {
        if opcode == ATT_OP_MTU_REQ {
            (self, Some(mtu_response(ATT_MTU)))
        } else if opcode == ATT_OP_READ_BY_GROUP_REQ {
            (self, Some(group_answer(body)))
        } else if opcode == ATT_OP_READ_BY_TYPE_REQ {
            (self, Some(type_answer(body)))
        } else if opcode == ATT_OP_FIND_INFO_REQ {
            (self, Some(info_answer(body)))
        } else if opcode == ATT_OP_READ_REQ && body.len() >= 2 {
            (self, read_answer(le16(body[0], body[1]), self.message, self.written))
        } else if (opcode == ATT_OP_WRITE_REQ || opcode == ATT_OP_WRITE_CMD) && body.len() >= 2 {
            (
                GattServerView {
                    written: self.written_after(le16(body[0], body[1]), body.skip(2)),
                    ..self
                },
                if opcode == ATT_OP_WRITE_REQ {
                    Some(write_response())
                } else {
                    None
                },
            )
        } else {
            (self, None)
        }
    }

    /// The server after `packet`, and its reaction.
    ///
    /// A connection-complete event with status 0 gives the server its
    /// peer. A disconnection-complete event takes the peer away and ends
    /// the server. An ATT request is served while there is a peer, and
    /// its answer is framed for that peer. Anything else is passed over.
    pub open spec fn react(self, packet: Seq<u8>) -> (GattServerView, ReactionView) {
        if reports_connection(packet) {
            (
                GattServerView { connection: Some(le16(packet[5], packet[6])), ..self },
                ReactionView::Nothing,
            )
        } else if reports_disconnection(packet) {
            (GattServerView { connection: None, ..self }, ReactionView::Hangup)
        } else if carries_att(packet) && self.connection is Some {
            let (after, answer) = self.serve(packet[9], packet.skip(10));
            (
                after,
                match answer {
                    Some(payload) => ReactionView::Respond(
                        acl_frame(self.connection.unwrap(), payload),
                    ),
                    None => ReactionView::Nothing,
                },
            )
        } else {
            (self, ReactionView::Nothing)
        }
    }
}

impl GattServer {
    /// A server without a peer whose readable characteristic holds
    /// `message` and whose writable one is empty.
    pub fn new(message: Vec<u8>) -> (server: GattServer)
        requires
            message@.len() < MAX_ATT_PAYLOAD,
        ensures
            server@ == (GattServerView { connection: None, message: message@, written: Seq::empty() }),
            server@.well_formed(),
    {
        GattServer { connection: None, message, written: Vec::new() }
    }

    /// A server without a peer whose readable characteristic holds the greeting.
    pub fn with_greeting() -> (server: GattServer)
        ensures
            server@ == (GattServerView {
                connection: None,
                message: greeting(),
                written: Seq::empty(),
            }),
            server@.well_formed(),
    {
        let message: Vec<u8> = vec![
            0x48u8, 0x65, 0x6C, 0x6C, 0x6F, 0x20, 0x66, 0x72, 0x6F, 0x6D, 0x20, 0x52, 0x75, 0x73,
            0x74, 0x43, 0x61, 0x6D, 0x21,
        ];
        assert(message@ =~= greeting());
        GattServer::new(message)
    }

    /// Serves one ATT request for the peer `connection`: updates the
    /// written value and builds the answer, if there is one.
    pub fn serve_request(&mut self, connection: u16, opcode: u8, body: &[u8]) -> (answer: Option<
        Vec<u8>,
    >)
        requires
            old(self)@.well_formed(),
        ensures
            final(self)@ == old(self)@.serve(opcode, body@).0,
            final(self)@.well_formed(),
            match old(self)@.serve(opcode, body@).1 {
                Some(payload) => answer is Some && answer.unwrap()@ == acl_frame(
                    connection,
                    payload,
                ),
                None => answer is None,
            },
    {
        if opcode == ATT_OP_MTU_REQ {
            Some(build_att_mtu_response(connection, ATT_MTU))
        } else if opcode == ATT_OP_READ_BY_GROUP_REQ {
            Some(build_read_by_group_response(connection, body))
        } else if opcode == ATT_OP_READ_BY_TYPE_REQ {
            Some(build_read_by_type_response(connection, body))
        } else if opcode == ATT_OP_FIND_INFO_REQ {
            Some(build_find_info_response(connection, body))
        } else if opcode == ATT_OP_READ_REQ && body.len() >= 2 {
            build_read_response(
                connection,
                read_le16(body, 0),
                self.message.as_slice(),
                self.written.as_slice(),
            )
        } else if (opcode == ATT_OP_WRITE_REQ || opcode == ATT_OP_WRITE_CMD) && body.len() >= 2 {
            let handle = read_le16(body, 0);
            let value = vstd::slice::slice_subrange(body, 2, body.len());
            assert(value@ =~= body@.skip(2));
            if handle == HANDLE_WRITE_VALUE && value.len() <= WRITE_BUFFER_LEN {
                self.written = vstd::slice::slice_to_vec(value);
            }
            if opcode == ATT_OP_WRITE_REQ {
                Some(build_write_response(connection))
            } else {
                None
            }
        } else {
            None
        }
    }

    /// Takes one packet from the transport and says what to do about it.
    pub fn handle_packet(&mut self, packet: &[u8]) -> (reaction: Reaction)
        requires
            old(self)@.well_formed(),
        ensures
            (final(self)@, reaction@) == old(self)@.react(packet@),
            final(self)@.well_formed(),
    {
        let len = packet.len();
        if len >= 7 && packet[0] == HCI_EVENT_PKT && packet[1] == HCI_EV_LE_META && packet[3]
            == HCI_EV_LE_CONN_COMPLETE && packet[4] == 0 {
            self.connection = Some(read_le16(packet, 5));
            return Reaction::Nothing;
        }
        if len >= 5 && packet[0] == HCI_EVENT_PKT && packet[1] == HCI_EV_DISCONN_COMPLETE {
            self.connection = None;
            return Reaction::Hangup;
        }
        if len >= 10 && packet[0] == HCI_ACL_PKT && read_le16(packet, 7) == L2CAP_CID_ATT {
            match self.connection {
                Some(connection) => {
                    let body = vstd::slice::slice_subrange(packet, 10, len);
                    assert(body@ =~= packet@.skip(10));
                    match self.serve_request(connection, packet[9], body) {
                        Some(answer) => Reaction::Respond(answer),
                        None => Reaction::Nothing,
                    }
                },
                None => Reaction::Nothing,
            }
        } else {
            Reaction::Nothing
        }
    }
}

/// Whether `packet` carries the ATT request `opcode` naming `handle`.
pub open spec fn requests(packet: Seq<u8>, opcode: u8, handle: u16) -> bool {
    &&& carries_att(packet)
    &&& packet.len() >= 12
    &&& packet[9] == opcode
    &&& le16(packet[10], packet[11]) == handle
}

/// A value written to the writable characteristic is what a read of it
/// returns afterwards, byte for byte, and the write leaves the readable
/// characteristic as it was.
pub proof fn lemma_written_value_is_read_back(
    server: GattServerView,
    write: Seq<u8>,
    read_written: Seq<u8>,
    read_message: Seq<u8>,
)
    requires
        server.connection is Some,
        requests(write, ATT_OP_WRITE_REQ, HANDLE_WRITE_VALUE) || requests(
            write,
            ATT_OP_WRITE_CMD,
            HANDLE_WRITE_VALUE,
        ),
        write.len() - 12 <= WRITE_BUFFER_LEN,
        requests(read_written, ATT_OP_READ_REQ, HANDLE_WRITE_VALUE),
        requests(read_message, ATT_OP_READ_REQ, HANDLE_READ_VALUE),
    ensures
        server.react(write).0.react(read_written).1 == ReactionView::Respond(
            acl_frame(server.connection.unwrap(), read_response(write.skip(12))),
        ),
        server.react(write).0.react(read_message).1 == ReactionView::Respond(
            acl_frame(server.connection.unwrap(), read_response(server.message)),
        ),
        server.react(write).0.message == server.message,
{
    assert(write.skip(10).skip(2) =~= write.skip(12));
    assert(write.skip(10)[0] == write[10] && write.skip(10)[1] == write[11]);
    assert(read_written.skip(10)[0] == read_written[10] && read_written.skip(10)[1]
        == read_written[11]);
    assert(read_message.skip(10)[0] == read_message[10] && read_message.skip(10)[1]
        == read_message[11]);
}

/// A write command to the writable characteristic replaces its value and
/// is not answered; a write request replaces it and is answered with
/// exactly the write response.
pub proof fn lemma_write_command_is_silent(server: GattServerView, write: Seq<u8>)
    requires
        server.connection is Some,
        write.len() - 12 <= WRITE_BUFFER_LEN,
    ensures
        requests(write, ATT_OP_WRITE_CMD, HANDLE_WRITE_VALUE) ==> server.react(write) == (
            GattServerView { written: write.skip(12), ..server },
            ReactionView::Nothing,
        ),
        requests(write, ATT_OP_WRITE_REQ, HANDLE_WRITE_VALUE) ==> server.react(write) == (
            GattServerView { written: write.skip(12), ..server },
            ReactionView::Respond(acl_frame(server.connection.unwrap(), write_response())),
        ),
{
    if write.len() >= 12 {
        assert(write.skip(10).skip(2) =~= write.skip(12));
        assert(write.skip(10)[0] == write[10] && write.skip(10)[1] == write[11]);
    }
}


/// A well-formed server stays well formed with every packet: what is
/// written to it fits its buffer.
pub proof fn lemma_server_stays_well_formed(server: GattServerView, packet: Seq<u8>)
    requires
        server.well_formed(),
    ensures
        server.react(packet).0.well_formed(),
{
}

} // verus!
