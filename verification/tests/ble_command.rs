use hal::ble::command::{
    build_command, command_status, CommandExchange, ExchangePhase, REPLY_BUFFER, REPLY_TIMEOUT_MS,
};
use hal::ble::sequence::{Command, CommandSequence};
use hal::ble::transport::{Action, Event, Step};
use hal::ble::wire::{high_byte_of, low_byte_of, read_le16};
use hal::ble::BleError;

fn command_complete(opcode: u16, status: u8) -> Vec<u8> {
    vec![0x04, 0x0E, 0x04, 0x01, (opcode & 0xFF) as u8, (opcode >> 8) as u8, status]
}

/// Hands `events` to a fresh exchange for `opcode` and returns its result
/// with the number of events it took.
fn run_exchange(opcode: u16, events: Vec<Event>) -> (Option<Result<(), BleError>>, usize) {
    let (mut exchange, first) = CommandExchange::begin(opcode, &[]);
    assert!(matches!(first, Action::Write(_)));
    let mut taken = 0;
    for event in events.iter() {
        taken += 1;
        match exchange.step(event) {
            Step::Complete(result) => return (Some(result), taken),
            Step::Perform(_) => {}
        }
    }
    (None, taken)
}

#[test]
fn wire_bytes_split_and_join() {
    assert_eq!(low_byte_of(0x200C), 0x0C);
    assert_eq!(high_byte_of(0x200C), 0x20);
    assert_eq!(read_le16(&[0xAA, 0x34, 0x12], 1), 0x1234);
}

#[test]
fn command_packet_layout() {
    assert_eq!(build_command(0x0C03, &[]), vec![0x01, 0x03, 0x0C, 0x00]);
    assert_eq!(
        build_command(0x200C, &[0x01, 0x00]),
        vec![0x01, 0x0C, 0x20, 0x02, 0x01, 0x00]
    );
}

#[test]
fn command_packet_takes_255_parameter_bytes() {
    let params = vec![0x5A; 255];
    let packet = build_command(0x2008, &params);
    assert_eq!(packet.len(), 259);
    assert_eq!(packet[3], 255);
    assert_eq!(&packet[4..], &params[..]);
}

#[test]
fn command_status_reads_matching_event_only() {
    assert_eq!(command_status(&command_complete(0x2006, 0), 0x2006), Some(0));
    assert_eq!(command_status(&command_complete(0x2006, 0x12), 0x2006), Some(0x12));
    assert_eq!(command_status(&command_complete(0x2005, 0), 0x2006), None);
    assert_eq!(command_status(&[0x04, 0x0E, 0x04, 0x01, 0x06, 0x20], 0x2006), None);
    assert_eq!(command_status(&[0x04, 0x3E, 0x04, 0x01, 0x06, 0x20, 0x00], 0x2006), None);
    assert_eq!(command_status(&[0x02, 0x0E, 0x04, 0x01, 0x06, 0x20, 0x00], 0x2006), None);
}

#[test]
fn exchange_asks_for_write_timeout_then_read() {
    let (mut exchange, first) = CommandExchange::begin(0x2005, &[1, 2, 3, 4, 5, 6]);
    match first {
        Action::Write(bytes) => {
            assert_eq!(bytes, vec![0x01, 0x05, 0x20, 0x06, 1, 2, 3, 4, 5, 6])
        }
        other => panic!("unexpected action {:?}", other),
    }
    assert_eq!(exchange.phase, ExchangePhase::Writing);
    assert!(matches!(
        exchange.step(&Event::Done),
        Step::Perform(Action::SetReadTimeout(REPLY_TIMEOUT_MS))
    ));
    assert!(matches!(
        exchange.step(&Event::Done),
        Step::Perform(Action::Read(REPLY_BUFFER))
    ));
    assert_eq!(REPLY_TIMEOUT_MS, 1000);
    assert_eq!(REPLY_BUFFER, 260);
}

#[test]
fn exchange_succeeds_on_matching_status_zero() {
    let events = vec![Event::Done, Event::Done, Event::Packet(command_complete(0x2005, 0))];
    assert_eq!(run_exchange(0x2005, events), (Some(Ok(())), 3));
}

#[test]
fn exchange_passes_over_stale_reply() {
    let events = vec![
        Event::Done,
        Event::Done,
        Event::Packet(command_complete(0x0C03, 0)),
        Event::Packet(vec![0x04, 0x3E, 0x01, 0x02]),
        Event::Packet(command_complete(0x2005, 0)),
    ];
    assert_eq!(run_exchange(0x2005, events), (Some(Ok(())), 5));
}

#[test]
fn exchange_fails_on_nonzero_status() {
    let events = vec![Event::Done, Event::Done, Event::Packet(command_complete(0x2005, 0x0C))];
    assert_eq!(run_exchange(0x2005, events), (Some(Err(BleError::SocketError)), 3));
}

#[test]
fn exchange_stale_failure_is_not_the_reply() {
    let events = vec![
        Event::Done,
        Event::Done,
        Event::Packet(command_complete(0x2006, 0x0C)),
        Event::Packet(command_complete(0x2005, 0)),
    ];
    assert_eq!(run_exchange(0x2005, events), (Some(Ok(())), 4));
}

#[test]
fn exchange_times_out_after_ten_reads() {
    let mut events = vec![Event::Done, Event::Done];
    for _ in 0..10 {
        events.push(Event::Packet(command_complete(0x0C03, 0)));
    }
    events.push(Event::Packet(command_complete(0x2005, 0)));
    assert_eq!(run_exchange(0x2005, events), (Some(Err(BleError::Timeout)), 12));
}

#[test]
fn exchange_succeeds_on_tenth_read() {
    let mut events = vec![Event::Done, Event::Done];
    for _ in 0..9 {
        events.push(Event::Packet(command_complete(0x0C03, 0)));
    }
    events.push(Event::Packet(command_complete(0x2005, 0)));
    assert_eq!(run_exchange(0x2005, events), (Some(Ok(())), 12));
}

#[test]
fn exchange_goes_on_after_a_read_that_timed_out() {
    let (mut exchange, first) = CommandExchange::begin(0x0C03, &[]);
    match first {
        Action::Write(bytes) => assert_eq!(bytes, vec![0x01, 0x03, 0x0C, 0x00]),
        other => panic!("unexpected action {:?}", other),
    }
    exchange.step(&Event::Done);
    exchange.step(&Event::Done);
    assert!(matches!(
        exchange.step(&Event::TimedOut),
        Step::Perform(Action::Read(REPLY_BUFFER))
    ));
    assert_eq!(exchange.reads_left, 9);
    assert!(matches!(
        exchange.step(&Event::Packet(vec![0x04, 0x0E, 0x04, 0x01, 0x03, 0x0C, 0x00])),
        Step::Complete(Ok(()))
    ));
}

#[test]
fn exchange_goes_on_after_a_read_that_failed() {
    let events = vec![
        Event::Done,
        Event::Done,
        Event::Failed,
        Event::TimedOut,
        Event::Denied,
        Event::Done,
        Event::Packet(command_complete(0x2005, 0)),
    ];
    assert_eq!(run_exchange(0x2005, events), (Some(Ok(())), 7));
    let events = vec![
        Event::Done,
        Event::Done,
        Event::TimedOut,
        Event::Packet(command_complete(0x2005, 0x0C)),
    ];
    assert_eq!(run_exchange(0x2005, events), (Some(Err(BleError::SocketError)), 4));
}

#[test]
fn exchange_times_out_after_ten_silent_reads() {
    let mut events = vec![Event::Done, Event::Done];
    for _ in 0..10 {
        events.push(Event::TimedOut);
    }
    events.push(Event::Packet(command_complete(0x2005, 0)));
    assert_eq!(run_exchange(0x2005, events), (Some(Err(BleError::Timeout)), 12));
    let mut events = vec![Event::Done, Event::Done];
    for n in 0..9 {
        events.push(if n % 2 == 0 { Event::TimedOut } else { Event::Failed });
    }
    assert_eq!(run_exchange(0x2005, events), (None, 11));
    let mut events = vec![Event::Done, Event::Done];
    for _ in 0..5 {
        events.push(Event::TimedOut);
        events.push(Event::Packet(command_complete(0x0C03, 0)));
    }
    assert_eq!(run_exchange(0x2005, events), (Some(Err(BleError::Timeout)), 12));
    let mut events = vec![Event::Done, Event::Done];
    for _ in 0..9 {
        events.push(Event::TimedOut);
    }
    events.push(Event::Packet(command_complete(0x2005, 0)));
    assert_eq!(run_exchange(0x2005, events), (Some(Ok(())), 12));
}

#[test]
fn exchange_failed_write_is_socket_error() {
    assert_eq!(
        run_exchange(0x2005, vec![Event::Failed]),
        (Some(Err(BleError::SocketError)), 1)
    );
}

#[test]
fn exchange_failed_timeout_setting_is_socket_error() {
    assert_eq!(
        run_exchange(0x2005, vec![Event::Done, Event::Failed]),
        (Some(Err(BleError::SocketError)), 2)
    );
}

#[test]
fn exchange_in_progress_has_no_result() {
    assert_eq!(run_exchange(0x2005, vec![Event::Done, Event::Done]), (None, 2));
}

#[test]
fn sequence_sends_commands_in_order() {
    let commands = vec![
        Command { opcode: 0x0C03, params: vec![] },
        Command { opcode: 0x0C01, params: vec![0xFF] },
    ];
    let (mut sequence, first) = CommandSequence::begin(commands);
    match first {
        Action::Write(bytes) => assert_eq!(bytes, vec![0x01, 0x03, 0x0C, 0x00]),
        other => panic!("unexpected action {:?}", other),
    }
    assert!(matches!(sequence.step(&Event::Done), Step::Perform(Action::SetReadTimeout(1000))));
    assert!(matches!(sequence.step(&Event::Done), Step::Perform(Action::Read(260))));
    match sequence.step(&Event::Packet(command_complete(0x0C03, 0))) {
        Step::Perform(Action::Write(bytes)) => {
            assert_eq!(bytes, vec![0x01, 0x01, 0x0C, 0x01, 0xFF])
        }
        other => panic!("unexpected step {:?}", other),
    }
    assert_eq!(sequence.position, 1);
    assert!(matches!(sequence.step(&Event::Done), Step::Perform(Action::SetReadTimeout(1000))));
    assert!(matches!(sequence.step(&Event::Done), Step::Perform(Action::Read(260))));
    assert!(matches!(
        sequence.step(&Event::Packet(command_complete(0x0C01, 0))),
        Step::Complete(Ok(()))
    ));
}

#[test]
fn sequence_stops_at_first_failure() {
    let commands = vec![
        Command { opcode: 0x0C03, params: vec![] },
        Command { opcode: 0x0C01, params: vec![0xFF] },
    ];
    let (mut sequence, _) = CommandSequence::begin(commands);
    sequence.step(&Event::Done);
    sequence.step(&Event::Done);
    assert!(matches!(
        sequence.step(&Event::Packet(command_complete(0x0C03, 0x01))),
        Step::Complete(Err(BleError::SocketError))
    ));
    assert_eq!(sequence.position, 0);
}
