use hal::ble::att::{
    build_att_mtu_response, build_error_response, build_find_info_response,
    build_read_by_group_response, build_read_by_type_response, build_read_response,
    build_write_response, frame_att, read_start_handle, type_of_attribute,
};
use hal::ble::gatt::{GattServer, Reaction};
use hal::ble::server::{ble_run_gatt_server, Serve, ServePhase};
use hal::ble::state::BleState;
use hal::ble::transport::{Action, Event, Step};
use hal::ble::BleError;

const HELLO: &[u8] = b"Hello from RustCam!";

/// An ATT request as the ACL data packet that carries it.
fn att_request(connection: u16, payload: &[u8]) -> Vec<u8> {
    let l2cap = payload.len() as u16;
    let acl = l2cap + 4;
    let mut packet = vec![
        0x02,
        (connection & 0xFF) as u8,
        (connection >> 8) as u8,
        (acl & 0xFF) as u8,
        (acl >> 8) as u8,
        (l2cap & 0xFF) as u8,
        (l2cap >> 8) as u8,
        0x04,
        0x00,
    ];
    packet.extend_from_slice(payload);
    packet
}

fn connection_complete(status: u8, handle: u16) -> Vec<u8> {
    vec![0x04, 0x3E, 0x13, 0x01, status, (handle & 0xFF) as u8, (handle >> 8) as u8, 0x01]
}

fn disconnection_complete(handle: u16) -> Vec<u8> {
    vec![0x04, 0x05, 0x04, 0x00, (handle & 0xFF) as u8, (handle >> 8) as u8, 0x13]
}

fn command_complete_event(opcode: u16) -> Vec<u8> {
    vec![0x04, 0x0E, 0x04, 0x01, (opcode & 0xFF) as u8, (opcode >> 8) as u8, 0x00]
}

fn connected_server(handle: u16) -> GattServer {
    let mut server = GattServer::with_greeting();
    assert!(matches!(
        server.handle_packet(&connection_complete(0, handle)),
        Reaction::Nothing
    ));
    assert_eq!(server.connection, Some(handle));
    server
}

fn response_of(reaction: Reaction) -> Vec<u8> {
    match reaction {
        Reaction::Respond(packet) => packet,
        other => panic!("no response: {:?}", other),
    }
}

fn open_state() -> BleState {
    let mut state = BleState::new();
    state.channel = Some(1);
    state
}

/// Answers the four bring-up commands of a server run and the setting of
/// its read timeout, so that the run listens from `now` on.
fn listening_run(name: &str, timeout_ms: u32, now: u64) -> Serve {
    let state = open_state();
    let (mut run, first) = ble_run_gatt_server(&state, name, timeout_ms);
    assert!(matches!(first, Step::Perform(Action::Write(_))));
    for opcode in [0x2005u16, 0x2006, 0x2008, 0x200A] {
        assert!(matches!(run.step(&Event::Done, now), Step::Perform(Action::SetReadTimeout(1000))));
        assert!(matches!(run.step(&Event::Done, now), Step::Perform(Action::Read(260))));
        let step = run.step(&Event::Packet(command_complete_event(opcode)), now);
        if opcode == 0x200A {
            match step {
                Step::Perform(Action::SetReadTimeout(millis)) => {
                    assert_eq!(millis, timeout_ms as u64)
                }
                other => panic!("unexpected step {:?}", other),
            }
        } else {
            assert!(matches!(step, Step::Perform(Action::Write(_))));
        }
    }
    assert_eq!(run.phase, ServePhase::Arming);
    run
}

#[test]
fn att_frame_layout() {
    assert_eq!(
        frame_att(0x0040, &[0x13]),
        vec![0x02, 0x40, 0x00, 0x05, 0x00, 0x01, 0x00, 0x04, 0x00, 0x13]
    );
    assert_eq!(
        frame_att(0x2E41, &[0x13])[..3],
        [0x02, 0x41, 0x0E]
    );
    let long = vec![0u8; 300];
    let framed = frame_att(1, &long);
    assert_eq!(&framed[3..7], &[0x30, 0x01, 0x2C, 0x01]);
}

#[test]
fn mtu_response_is_fixed_size_frame() {
    assert_eq!(
        build_att_mtu_response(0x0040, 23),
        vec![0x02, 0x40, 0x00, 0x07, 0x00, 0x03, 0x00, 0x04, 0x00, 0x03, 0x17, 0x00]
    );
    assert_eq!(&build_att_mtu_response(1, 0x0203)[10..], &[0x03, 0x02]);
}

#[test]
fn error_response_layout() {
    assert_eq!(
        build_error_response(0x0040, 0x10, 0x0006, 0x0A),
        vec![0x02, 0x40, 0x00, 0x09, 0x00, 0x05, 0x00, 0x04, 0x00, 0x01, 0x10, 0x06, 0x00, 0x0A]
    );
}

#[test]
fn write_response_layout() {
    assert_eq!(
        build_write_response(0x0040),
        vec![0x02, 0x40, 0x00, 0x05, 0x00, 0x01, 0x00, 0x04, 0x00, 0x13]
    );
}

#[test]
fn start_handle_defaults_to_one() {
    assert_eq!(read_start_handle(&[]), 1);
    assert_eq!(read_start_handle(&[0x07]), 1);
    assert_eq!(read_start_handle(&[0x07, 0x01]), 0x0107);
}

#[test]
fn service_discovery_from_handle_1() {
    assert_eq!(
        build_read_by_group_response(0x0040, &[0x01, 0x00, 0xFF, 0xFF, 0x00, 0x28]),
        vec![
            0x02, 0x40, 0x00, 0x0C, 0x00, 0x08, 0x00, 0x04, 0x00, 0x11, 0x06, 0x01, 0x00, 0x05,
            0x00, 0x34, 0x12
        ]
    );
    assert_eq!(
        build_read_by_group_response(0x0040, &[0x05, 0x00, 0xFF, 0xFF, 0x00, 0x28])[9],
        0x11
    );
    assert_eq!(build_read_by_group_response(0x0040, &[])[9], 0x11);
}

#[test]
fn service_discovery_from_handle_6_is_not_found() {
    assert_eq!(
        build_read_by_group_response(0x0040, &[0x06, 0x00, 0xFF, 0xFF, 0x00, 0x28]),
        build_error_response(0x0040, 0x10, 6, 0x0A)
    );
}

#[test]
fn characteristic_discovery() {
    let first = vec![
        0x02, 0x40, 0x00, 0x0D, 0x00, 0x09, 0x00, 0x04, 0x00, 0x09, 0x07, 0x02, 0x00, 0x02, 0x03,
        0x00, 0x35, 0x12,
    ];
    let second = vec![
        0x02, 0x40, 0x00, 0x0D, 0x00, 0x09, 0x00, 0x04, 0x00, 0x09, 0x07, 0x04, 0x00, 0x0C, 0x05,
        0x00, 0x36, 0x12,
    ];
    assert_eq!(first[13], 0x02);
    assert_eq!(second[13], 0x08 | 0x04);
    assert_eq!(second[13] & first[13], 0);
    assert_eq!(
        build_read_by_type_response(0x0040, &[0x01, 0x00, 0xFF, 0xFF, 0x03, 0x28]),
        first
    );
    assert_eq!(
        build_read_by_type_response(0x0040, &[0x02, 0x00, 0xFF, 0xFF, 0x03, 0x28]),
        first
    );
    assert_eq!(
        build_read_by_type_response(0x0040, &[0x03, 0x00, 0xFF, 0xFF, 0x03, 0x28]),
        second
    );
    assert_eq!(
        build_read_by_type_response(0x0040, &[0x04, 0x00, 0xFF, 0xFF, 0x03, 0x28]),
        second
    );
    assert_eq!(
        build_read_by_type_response(0x0040, &[0x05, 0x00, 0xFF, 0xFF, 0x03, 0x28]),
        build_error_response(0x0040, 0x08, 5, 0x0A)
    );
}

#[test]
fn characteristic_discovery_of_other_type_is_not_found() {
    assert_eq!(
        build_read_by_type_response(0x0040, &[0x01, 0x00, 0xFF, 0xFF, 0x00, 0x28]),
        build_error_response(0x0040, 0x08, 1, 0x0A)
    );
    assert_eq!(
        build_read_by_type_response(0x0040, &[0x03, 0x00, 0xFF, 0xFF]),
        build_error_response(0x0040, 0x08, 3, 0x0A)
    );
    assert_eq!(
        build_read_by_type_response(0x0040, &[0x03]),
        build_error_response(0x0040, 0x08, 1, 0x0A)
    );
}

#[test]
fn find_information_per_handle() {
    let types = [(1u16, 0x2800u16), (2, 0x2803), (3, 0x1235), (4, 0x2803), (5, 0x1236)];
    for (handle, uuid) in types {
        assert_eq!(type_of_attribute(handle), Some(uuid));
        assert_eq!(
            build_find_info_response(0x0040, &[handle as u8, 0x00, 0xFF, 0xFF]),
            vec![
                0x02,
                0x40,
                0x00,
                0x0A,
                0x00,
                0x06,
                0x00,
                0x04,
                0x00,
                0x05,
                0x01,
                handle as u8,
                0x00,
                (uuid & 0xFF) as u8,
                (uuid >> 8) as u8
            ]
        );
    }
    assert_eq!(type_of_attribute(0), None);
    assert_eq!(type_of_attribute(6), None);
    assert_eq!(
        build_find_info_response(0x0040, &[0x06, 0x00, 0xFF, 0xFF]),
        build_error_response(0x0040, 0x04, 6, 0x0A)
    );
    assert_eq!(
        build_find_info_response(0x0040, &[0x00, 0x00, 0xFF, 0xFF]),
        build_error_response(0x0040, 0x04, 0, 0x0A)
    );
    assert_eq!(
        build_find_info_response(0x0040, &[0x03, 0x00]),
        build_error_response(0x0040, 0x04, 1, 0x0A)
    );
}

#[test]
fn read_response_per_handle() {
    let mut hello = vec![0x02, 0x40, 0x00, 0x18, 0x00, 0x14, 0x00, 0x04, 0x00, 0x0B];
    hello.extend_from_slice(HELLO);
    assert_eq!(build_read_response(0x0040, 3, HELLO, &[0x41]), Some(hello));
    assert_eq!(
        build_read_response(0x0040, 5, HELLO, &[0x41]),
        Some(vec![0x02, 0x40, 0x00, 0x06, 0x00, 0x02, 0x00, 0x04, 0x00, 0x0B, 0x41])
    );
    assert_eq!(
        build_read_response(0x0040, 5, HELLO, &[]),
        Some(vec![0x02, 0x40, 0x00, 0x05, 0x00, 0x01, 0x00, 0x04, 0x00, 0x0B])
    );
    assert_eq!(build_read_response(0x0040, 1, HELLO, &[0x41]), None);
    assert_eq!(build_read_response(0x0040, 4, HELLO, &[0x41]), None);
}

#[test]
fn server_learns_peer_from_connection_complete() {
    let mut server = GattServer::with_greeting();
    assert_eq!(server.message, HELLO.to_vec());
    assert!(server.connection.is_none());
    assert!(matches!(
        server.handle_packet(&connection_complete(0x3E, 0x0040)),
        Reaction::Nothing
    ));
    assert!(server.connection.is_none());
    assert!(matches!(
        server.handle_packet(&connection_complete(0, 0x0040)),
        Reaction::Nothing
    ));
    assert_eq!(server.connection, Some(0x0040));
    assert!(matches!(
        server.handle_packet(&[0x04, 0x3E, 0x13, 0x01, 0x00, 0x41]),
        Reaction::Nothing
    ));
    assert_eq!(server.connection, Some(0x0040));
}

#[test]
fn server_ignores_requests_without_peer() {
    let mut server = GattServer::with_greeting();
    assert!(matches!(
        server.handle_packet(&att_request(0x0040, &[0x02, 0x17, 0x00])),
        Reaction::Nothing
    ));
}

#[test]
fn server_answers_mtu_request_with_23() {
    let mut server = connected_server(0x0040);
    let answer = response_of(server.handle_packet(&att_request(0x0040, &[0x02, 0x00, 0x02])));
    assert_eq!(answer, build_att_mtu_response(0x0040, 23));
}

#[test]
fn server_answers_service_discovery() {
    let mut server = connected_server(0x0040);
    let request = att_request(0x0040, &[0x10, 0x01, 0x00, 0xFF, 0xFF, 0x00, 0x28]);
    assert_eq!(
        response_of(server.handle_packet(&request)),
        vec![
            0x02, 0x40, 0x00, 0x0C, 0x00, 0x08, 0x00, 0x04, 0x00, 0x11, 0x06, 0x01, 0x00, 0x05,
            0x00, 0x34, 0x12
        ]
    );
    let request = att_request(0x0040, &[0x10, 0x06, 0x00, 0xFF, 0xFF, 0x00, 0x28]);
    assert_eq!(
        response_of(server.handle_packet(&request)),
        build_error_response(0x0040, 0x10, 6, 0x0A)
    );
}

#[test]
fn server_answers_characteristic_discovery_and_find_info() {
    let mut server = connected_server(0x0040);
    let request = att_request(0x0040, &[0x08, 0x03, 0x00, 0xFF, 0xFF, 0x03, 0x28]);
    assert_eq!(
        response_of(server.handle_packet(&request)),
        build_read_by_type_response(0x0040, &[0x03, 0x00, 0xFF, 0xFF, 0x03, 0x28])
    );
    let request = att_request(0x0040, &[0x04, 0x05, 0x00, 0x05, 0x00]);
    assert_eq!(
        response_of(server.handle_packet(&request)),
        build_find_info_response(0x0040, &[0x05, 0x00, 0x05, 0x00])
    );
}

#[test]
fn write_request_then_reads() {
    let mut server = connected_server(0x0040);
    let write = att_request(0x0040, &[0x12, 0x05, 0x00, 0x41, 0x42]);
    assert_eq!(response_of(server.handle_packet(&write)), build_write_response(0x0040));
    assert_eq!(server.written, vec![0x41, 0x42]);
    let read_hello = att_request(0x0040, &[0x0A, 0x03, 0x00]);
    let mut hello = vec![0x02, 0x40, 0x00, 0x18, 0x00, 0x14, 0x00, 0x04, 0x00, 0x0B];
    hello.extend_from_slice(HELLO);
    assert_eq!(response_of(server.handle_packet(&read_hello)), hello);
    let read_written = att_request(0x0040, &[0x0A, 0x05, 0x00]);
    assert_eq!(
        response_of(server.handle_packet(&read_written)),
        vec![0x02, 0x40, 0x00, 0x07, 0x00, 0x03, 0x00, 0x04, 0x00, 0x0B, 0x41, 0x42]
    );
}

#[test]
fn read_of_unwritten_value_is_empty() {
    let mut server = connected_server(0x0040);
    let read_written = att_request(0x0040, &[0x0A, 0x05, 0x00]);
    assert_eq!(
        response_of(server.handle_packet(&read_written)),
        vec![0x02, 0x40, 0x00, 0x05, 0x00, 0x01, 0x00, 0x04, 0x00, 0x0B]
    );
}

#[test]
fn read_of_other_handle_is_not_answered() {
    let mut server = connected_server(0x0040);
    for handle in [0u8, 1, 2, 4, 6] {
        let read = att_request(0x0040, &[0x0A, handle, 0x00]);
        assert!(matches!(server.handle_packet(&read), Reaction::Nothing));
    }
    assert!(matches!(
        server.handle_packet(&att_request(0x0040, &[0x0A, 0x03])),
        Reaction::Nothing
    ));
}

#[test]
fn write_command_updates_without_response() {
    let mut server = connected_server(0x0040);
    let write = att_request(0x0040, &[0x52, 0x05, 0x00, 0x6F, 0x6E]);
    assert!(matches!(server.handle_packet(&write), Reaction::Nothing));
    assert_eq!(server.written, vec![0x6F, 0x6E]);
    let write = att_request(0x0040, &[0x12, 0x05, 0x00, 0x01]);
    assert_eq!(response_of(server.handle_packet(&write)), build_write_response(0x0040));
    assert_eq!(server.written, vec![0x01]);
}

#[test]
fn write_takes_at_most_32_bytes() {
    let mut server = connected_server(0x0040);
    let mut payload = vec![0x12, 0x05, 0x00];
    payload.extend_from_slice(&[0x77; 32]);
    assert_eq!(
        response_of(server.handle_packet(&att_request(0x0040, &payload))),
        build_write_response(0x0040)
    );
    assert_eq!(server.written, vec![0x77; 32]);
    let mut payload = vec![0x12, 0x05, 0x00];
    payload.extend_from_slice(&[0x11; 33]);
    assert_eq!(
        response_of(server.handle_packet(&att_request(0x0040, &payload))),
        build_write_response(0x0040)
    );
    assert_eq!(server.written, vec![0x77; 32]);
}

#[test]
fn write_to_other_handle_changes_nothing() {
    let mut server = connected_server(0x0040);
    let write = att_request(0x0040, &[0x12, 0x03, 0x00, 0x41]);
    assert_eq!(response_of(server.handle_packet(&write)), build_write_response(0x0040));
    assert!(server.written.is_empty());
    assert_eq!(server.message, HELLO.to_vec());
    let write = att_request(0x0040, &[0x52, 0x05]);
    assert!(matches!(server.handle_packet(&write), Reaction::Nothing));
}

#[test]
fn unknown_opcode_and_other_channel_are_not_answered() {
    let mut server = connected_server(0x0040);
    assert!(matches!(
        server.handle_packet(&att_request(0x0040, &[0x16, 0x05, 0x00])),
        Reaction::Nothing
    ));
    let mut signalling = att_request(0x0040, &[0x02, 0x17, 0x00]);
    signalling[7] = 0x05;
    assert!(matches!(server.handle_packet(&signalling), Reaction::Nothing));
    assert!(matches!(server.handle_packet(&[0x02, 0x40]), Reaction::Nothing));
}

#[test]
fn responses_go_to_the_learned_connection() {
    let mut server = connected_server(0x0E41);
    let answer = response_of(server.handle_packet(&att_request(0x0001, &[0x02, 0x17, 0x00])));
    assert_eq!(&answer[..3], &[0x02, 0x41, 0x0E]);
}

#[test]
fn disconnection_ends_the_server() {
    let mut server = connected_server(0x0040);
    assert!(matches!(
        server.handle_packet(&disconnection_complete(0x0040)),
        Reaction::Hangup
    ));
    assert!(server.connection.is_none());
    assert!(matches!(server.handle_packet(&[0x04, 0x05, 0x04, 0x00]), Reaction::Nothing));
}

#[test]
fn run_without_transport_is_not_initialized() {
    let state = BleState::new();
    let (run, first) = ble_run_gatt_server(&state, "RustCam", 1_000);
    assert!(matches!(first, Step::Complete(Err(BleError::NotInitialized))));
    assert_eq!(run.phase, ServePhase::Idle);
}

#[test]
fn run_advertises_at_most_20_name_bytes() {
    let state = open_state();
    let (mut run, first) = ble_run_gatt_server(&state, "RustCam", 1_000);
    match first {
        Step::Perform(Action::Write(bytes)) => assert_eq!(
            bytes,
            vec![0x01, 0x05, 0x20, 0x06, 0xC0, 0xDE, 0xCA, 0xFE, 0xBE, 0xEF]
        ),
        other => panic!("unexpected step {:?}", other),
    }
    run.step(&Event::Done, 0);
    run.step(&Event::Done, 0);
    run.step(&Event::Packet(command_complete_event(0x2005)), 0);
    run.step(&Event::Done, 0);
    run.step(&Event::Done, 0);
    let (mut long_run, _) =
        ble_run_gatt_server(&state, "ABCDEFGHIJKLMNOPQRSTUVWXYZ", 1_000);
    for opcode in [0x2005u16, 0x2006] {
        long_run.step(&Event::Done, 0);
        long_run.step(&Event::Done, 0);
        let step = long_run.step(&Event::Packet(command_complete_event(opcode)), 0);
        if opcode == 0x2006 {
            match step {
                Step::Perform(Action::Write(bytes)) => {
                    assert_eq!(bytes.len(), 36);
                    assert_eq!(&bytes[..4], &[0x01, 0x08, 0x20, 0x20]);
                    assert_eq!(&bytes[4..10], &[25, 0x02, 0x01, 0x06, 21, 0x09]);
                    assert_eq!(&bytes[10..30], b"ABCDEFGHIJKLMNOPQRST");
                    assert_eq!(&bytes[30..], &[0u8; 6]);
                }
                other => panic!("unexpected step {:?}", other),
            }
        }
    }
}

#[test]
fn run_fails_when_bring_up_fails() {
    let state = open_state();
    let (mut run, _) = ble_run_gatt_server(&state, "RustCam", 1_000);
    run.step(&Event::Done, 0);
    run.step(&Event::Done, 0);
    assert!(matches!(
        run.step(&Event::Packet(vec![0x04, 0x0E, 0x04, 0x01, 0x05, 0x20, 0x0C]), 0),
        Step::Complete(Err(BleError::SocketError))
    ));
    assert_eq!(run.phase, ServePhase::Idle);
    let (mut run, _) = ble_run_gatt_server(&state, "RustCam", 1_000);
    run.step(&Event::Done, 0);
    run.step(&Event::Done, 0);
    for _ in 0..9 {
        assert!(matches!(run.step(&Event::TimedOut, 0), Step::Perform(Action::Read(260))));
    }
    assert!(matches!(
        run.step(&Event::TimedOut, 0),
        Step::Complete(Err(BleError::Timeout))
    ));
    assert_eq!(run.phase, ServePhase::Idle);
}

#[test]
fn run_goes_on_after_a_silent_read_during_bring_up() {
    let state = open_state();
    let (mut run, _) = ble_run_gatt_server(&state, "RustCam", 1_000);
    run.step(&Event::Done, 0);
    run.step(&Event::Done, 0);
    assert!(matches!(run.step(&Event::TimedOut, 0), Step::Perform(Action::Read(260))));
    assert!(matches!(run.step(&Event::Failed, 0), Step::Perform(Action::Read(260))));
    assert!(matches!(
        run.step(&Event::Packet(command_complete_event(0x2005)), 0),
        Step::Perform(Action::Write(_))
    ));
    assert_eq!(run.phase, ServePhase::BringingUp);
}

#[test]
fn run_serves_until_disconnection() {
    let mut run = listening_run("RustCam", 60_000, 100);
    assert!(matches!(run.step(&Event::Done, 100), Step::Perform(Action::Read(512))));
    assert!(matches!(run.step(&Event::TimedOut, 200), Step::Perform(Action::Read(512))));
    assert!(matches!(
        run.step(&Event::Packet(connection_complete(0, 0x0040)), 300),
        Step::Perform(Action::Read(512))
    ));
    let write = att_request(0x0040, &[0x12, 0x05, 0x00, 0x41, 0x42]);
    match run.step(&Event::Packet(write), 400) {
        Step::Perform(Action::Write(bytes)) => assert_eq!(bytes, build_write_response(0x0040)),
        other => panic!("unexpected step {:?}", other),
    }
    assert_eq!(run.phase, ServePhase::Answering);
    assert!(matches!(run.step(&Event::Done, 410), Step::Perform(Action::Read(512))));
    let command = att_request(0x0040, &[0x52, 0x05, 0x00, 0x43]);
    assert!(matches!(run.step(&Event::Packet(command), 420), Step::Perform(Action::Read(512))));
    assert_eq!(run.server.written, vec![0x43]);
    match run.step(&Event::Packet(disconnection_complete(0x0040)), 500) {
        Step::Perform(Action::Write(bytes)) => {
            assert_eq!(bytes, vec![0x01, 0x0A, 0x20, 0x01, 0x00])
        }
        other => panic!("unexpected step {:?}", other),
    }
    assert_eq!(run.phase, ServePhase::ShuttingDown);
    assert!(matches!(run.step(&Event::Done, 510), Step::Perform(Action::SetReadTimeout(1000))));
    assert!(matches!(run.step(&Event::Done, 510), Step::Perform(Action::Read(260))));
    assert!(matches!(
        run.step(&Event::Packet(command_complete_event(0x200A)), 520),
        Step::Complete(Ok(()))
    ));
    assert_eq!(run.phase, ServePhase::Idle);
}

#[test]
fn run_stops_when_time_is_up() {
    let mut run = listening_run("RustCam", 1_000, 100);
    assert!(matches!(run.step(&Event::Done, 100), Step::Perform(Action::Read(512))));
    assert!(matches!(run.step(&Event::TimedOut, 1_099), Step::Perform(Action::Read(512))));
    assert!(matches!(run.step(&Event::Failed, 1_100), Step::Perform(Action::Write(_))));
    assert_eq!(run.phase, ServePhase::ShuttingDown);
    assert!(matches!(run.step(&Event::Failed, 1_100), Step::Complete(Ok(()))));
}

#[test]
fn run_with_zero_budget_shuts_down_at_once() {
    let mut run = listening_run("RustCam", 0, 5);
    assert!(matches!(run.step(&Event::Done, 5), Step::Perform(Action::Write(_))));
    assert_eq!(run.phase, ServePhase::ShuttingDown);
}

#[test]
fn run_fails_when_answer_cannot_be_written() {
    let mut run = listening_run("RustCam", 60_000, 0);
    run.step(&Event::Done, 0);
    run.step(&Event::Packet(connection_complete(0, 0x0040)), 1);
    let request = att_request(0x0040, &[0x02, 0x17, 0x00]);
    assert!(matches!(run.step(&Event::Packet(request), 2), Step::Perform(Action::Write(_))));
    assert!(matches!(
        run.step(&Event::Failed, 3),
        Step::Complete(Err(BleError::SocketError))
    ));
}

#[test]
fn run_fails_when_read_timeout_cannot_be_set() {
    let mut run = listening_run("RustCam", 60_000, 0);
    assert!(matches!(
        run.step(&Event::Failed, 0),
        Step::Complete(Err(BleError::SocketError))
    ));
}
