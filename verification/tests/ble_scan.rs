use hal::ble::report::{find_local_name, parse_advertising_report, read_report, to_signed};
use hal::ble::scan::{knows_device, note_device, MAX_SCAN_RESULTS};
use hal::ble::scanner::{
    ble_get_scan_results, ble_start_scan, ble_stop_scan, elapsed_ms, ScanPhase,
};
use hal::ble::state::BleState;
use hal::ble::transport::{Action, Event, Step};
use hal::ble::{AddressType, BleAddress, BleError, ScanResult};

/// The parameters of an advertising report after the subevent code.
fn report_params(address: [u8; 6], address_type: u8, data: &[u8], rssi: u8) -> Vec<u8> {
    let mut params = vec![0x01, 0x00, address_type];
    for i in 0..6 {
        params.push(address[5 - i]);
    }
    params.push(data.len() as u8);
    params.extend_from_slice(data);
    params.push(rssi);
    params
}

fn report_packet(address: [u8; 6], data: &[u8], rssi: u8) -> Vec<u8> {
    let params = report_params(address, 0x00, data, rssi);
    let mut packet = vec![0x04, 0x3E, (params.len() + 1) as u8, 0x02];
    packet.extend_from_slice(&params);
    packet
}

fn numbered(n: u8) -> [u8; 6] {
    [0x10, 0x20, 0x30, 0x40, 0x50, n]
}

fn open_state() -> BleState {
    let mut state = BleState::new();
    state.channel = Some(1);
    state
}

/// Brings a scan to the point where it listens, with the clock at `now`.
fn listening_scan(state: &mut BleState, timeout_ms: u32, now: u64) -> hal::ble::scanner::ScanOperation {
    let (mut scan, first) = ble_start_scan(state, timeout_ms);
    assert!(matches!(first, Step::Perform(Action::Write(_))));
    assert!(matches!(scan.step(state, &Event::Done, now), Step::Perform(Action::Sleep(10))));
    assert!(matches!(scan.step(state, &Event::Done, now), Step::Perform(Action::Write(_))));
    assert!(matches!(
        scan.step(state, &Event::Done, now),
        Step::Perform(Action::SetReadTimeout(100))
    ));
    assert!(matches!(scan.step(state, &Event::Done, now), Step::Perform(Action::Read(258))));
    scan
}

#[test]
fn signed_byte_is_twos_complement() {
    assert_eq!(to_signed(0), 0);
    assert_eq!(to_signed(127), 127);
    assert_eq!(to_signed(128), -128);
    assert_eq!(to_signed(0xC4), -60);
    assert_eq!(to_signed(255), -1);
}

#[test]
fn report_address_is_reversed() {
    let params = report_params([0xAA, 0xBB, 0xCC, 0xDD, 0xEE, 0xFF], 0x00, &[], 0xC4);
    assert_eq!(&params[3..9], &[0xFF, 0xEE, 0xDD, 0xCC, 0xBB, 0xAA]);
    let found = parse_advertising_report(&params).unwrap();
    assert_eq!(found.address, BleAddress::new([0xAA, 0xBB, 0xCC, 0xDD, 0xEE, 0xFF]));
    assert_eq!(found.address_type, AddressType::Public);
    assert_eq!(found.rssi, -60);
    assert!(found.name.is_none());
    assert_eq!(found.name_len, 0);
}

#[test]
fn report_random_address_type() {
    let params = report_params(numbered(1), 0x01, &[], 0x00);
    assert_eq!(parse_advertising_report(&params).unwrap().address_type, AddressType::Random);
    let params = report_params(numbered(1), 0x02, &[], 0x00);
    assert_eq!(parse_advertising_report(&params).unwrap().address_type, AddressType::Public);
}

#[test]
fn report_too_short_or_empty_is_none() {
    assert!(parse_advertising_report(&[]).is_none());
    assert!(parse_advertising_report(&[1, 0, 0, 1, 2, 3, 4, 5, 6]).is_none());
    assert!(parse_advertising_report(&[0, 0, 0, 1, 2, 3, 4, 5, 6, 0, 0xC4]).is_none());
}

#[test]
fn report_without_rssi_byte_is_minus_127() {
    let found = parse_advertising_report(&[1, 0, 0, 1, 2, 3, 4, 5, 6, 0]).unwrap();
    assert_eq!(found.rssi, -127);
    assert_eq!(found.address.bytes, [6, 5, 4, 3, 2, 1]);
}

#[test]
fn report_complete_name_is_extracted() {
    let data = [0x02, 0x01, 0x06, 0x05, 0x09, b'T', b'e', b's', b't'];
    let found = parse_advertising_report(&report_params(numbered(1), 0, &data, 0xB0)).unwrap();
    assert_eq!(found.name_len, 4);
    let buffer = found.name.unwrap();
    assert_eq!(&buffer[..4], b"Test");
    assert!(buffer[4..].iter().all(|b| *b == 0));
    assert_eq!(found.name_str(), Some("Test"));
    assert_eq!(found.rssi, -80);
}

#[test]
fn report_short_name_is_extracted_and_first_match_wins() {
    let data = [0x03, 0x08, b'A', b'b', 0x03, 0x09, b'C', b'd'];
    let found = parse_advertising_report(&report_params(numbered(1), 0, &data, 0)).unwrap();
    assert_eq!(found.name_str(), Some("Ab"));
}

#[test]
fn report_name_is_cut_to_32_bytes() {
    let mut data = vec![41, 0x09];
    data.extend_from_slice(&[b'n'; 40]);
    let found = parse_advertising_report(&report_params(numbered(1), 0, &data, 0)).unwrap();
    assert_eq!(found.name_len, 32);
    assert_eq!(found.name.unwrap(), [b'n'; 32]);
}

#[test]
fn report_name_structure_without_value_is_skipped() {
    let data = [0x01, 0x09, 0x02, 0x08, b'Z'];
    let found = parse_advertising_report(&report_params(numbered(1), 0, &data, 0)).unwrap();
    assert_eq!(found.name_str(), Some("Z"));
}

#[test]
fn report_truncated_data_has_no_name() {
    let mut params = report_params(numbered(1), 0, &[0x03, 0x09, b'A', b'b'], 0);
    params.truncate(12);
    let found = parse_advertising_report(&params).unwrap();
    assert!(found.name.is_none());
    assert_eq!(found.rssi, -127);
}

#[test]
fn local_name_search_stops_at_bad_structure() {
    assert!(find_local_name(&[]).is_none());
    assert!(find_local_name(&[0x00, 0x09, b'A']).is_none());
    assert!(find_local_name(&[0x05, 0x09, b'A']).is_none());
    assert!(find_local_name(&[0x03, 0x09, b'A']).is_none());
    assert!(find_local_name(&[0x09]).is_none());
    let (buffer, len) = find_local_name(&[0x02, 0x09, b'A']).unwrap();
    assert_eq!((buffer[0], len), (b'A', 1));
}

#[test]
fn name_that_is_not_utf8_has_no_text() {
    let data = [0x03, 0x09, 0xFF, 0xFE];
    let found = parse_advertising_report(&report_params(numbered(1), 0, &data, 0)).unwrap();
    assert_eq!(found.name_len, 2);
    assert_eq!(found.name_str(), None);
}

#[test]
fn packet_that_is_no_report_carries_none() {
    assert!(read_report(&[0x04, 0x3E, 0x01]).is_none());
    assert!(read_report(&[0x04, 0x0E, 0x04, 0x01, 0x0C, 0x20, 0x00]).is_none());
    let mut packet = report_packet(numbered(1), &[], 0);
    packet[3] = 0x01;
    assert!(read_report(&packet).is_none());
    packet[3] = 0x02;
    packet[0] = 0x02;
    assert!(read_report(&packet).is_none());
    packet[0] = 0x04;
    assert_eq!(read_report(&packet).unwrap().address.bytes, numbered(1));
}

#[test]
fn scan_keeps_first_report_per_address() {
    let mut results: Vec<ScanResult> = Vec::new();
    let first = parse_advertising_report(&report_params(numbered(1), 0, &[], 0xC4)).unwrap();
    let other = parse_advertising_report(&report_params(numbered(2), 0, &[], 0xB0)).unwrap();
    let later = parse_advertising_report(&report_params(
        numbered(1),
        0,
        &[0x02, 0x09, b'X'],
        0xD0,
    ))
    .unwrap();
    note_device(&mut results, first);
    note_device(&mut results, other);
    note_device(&mut results, later);
    assert_eq!(results.len(), 2);
    assert_eq!(results[0].address.bytes, numbered(1));
    assert_eq!(results[0].rssi, -60);
    assert!(results[0].name.is_none());
    assert_eq!(results[1].address.bytes, numbered(2));
    assert!(knows_device(&results, &BleAddress::new(numbered(2))));
    assert!(!knows_device(&results, &BleAddress::new(numbered(3))));
}

#[test]
fn scan_keeps_first_32_addresses() {
    assert_eq!(MAX_SCAN_RESULTS, 32);
    let mut results: Vec<ScanResult> = Vec::new();
    for n in 0..40u8 {
        let found = parse_advertising_report(&report_params(numbered(n), 0, &[], n)).unwrap();
        note_device(&mut results, found);
    }
    assert_eq!(results.len(), 32);
    for n in 0..32u8 {
        assert_eq!(results[n as usize].address.bytes, numbered(n));
        assert_eq!(results[n as usize].rssi, n as i8);
    }
}

#[test]
fn elapsed_never_runs_backwards() {
    assert_eq!(elapsed_ms(100, 350), 250);
    assert_eq!(elapsed_ms(100, 100), 0);
    assert_eq!(elapsed_ms(100, 50), 0);
}

#[test]
fn start_scan_without_transport_is_not_initialized() {
    let mut state = BleState::new();
    let (scan, first) = ble_start_scan(&mut state, 500);
    assert!(matches!(first, Step::Complete(Err(BleError::NotInitialized))));
    assert_eq!(scan.phase, ScanPhase::Idle);
    assert!(!state.scanning);
}

#[test]
fn start_scan_while_scanning_does_nothing() {
    let mut state = open_state();
    state.scanning = true;
    state.scan_results.push(
        parse_advertising_report(&report_params(numbered(1), 0, &[], 0)).unwrap(),
    );
    let (scan, first) = ble_start_scan(&mut state, 500);
    assert!(matches!(first, Step::Complete(Ok(()))));
    assert_eq!(scan.phase, ScanPhase::Idle);
    assert!(state.scanning);
    assert_eq!(state.scan_results.len(), 1);
}

#[test]
fn start_scan_sends_parameters_then_enable() {
    let mut state = open_state();
    state.scan_results.push(
        parse_advertising_report(&report_params(numbered(1), 0, &[], 0)).unwrap(),
    );
    let (mut scan, first) = ble_start_scan(&mut state, 500);
    match first {
        Step::Perform(Action::Write(bytes)) => assert_eq!(
            bytes,
            vec![0x01, 0x0B, 0x20, 0x07, 0x01, 0x10, 0x00, 0x10, 0x00, 0x00, 0x00]
        ),
        other => panic!("unexpected step {:?}", other),
    }
    assert!(state.scanning);
    assert!(state.scan_results.is_empty());
    assert!(matches!(scan.step(&mut state, &Event::Done, 0), Step::Perform(Action::Sleep(10))));
    match scan.step(&mut state, &Event::Done, 0) {
        Step::Perform(Action::Write(bytes)) => {
            assert_eq!(bytes, vec![0x01, 0x0C, 0x20, 0x02, 0x01, 0x00])
        }
        other => panic!("unexpected step {:?}", other),
    }
}

#[test]
fn scan_runs_until_the_clock_says_so() {
    let mut state = open_state();
    let mut scan = listening_scan(&mut state, 500, 1_000);
    let first = report_packet(numbered(1), &[0x02, 0x09, b'A'], 0xC4);
    let second = report_packet(numbered(2), &[], 0xB0);
    let again = report_packet(numbered(1), &[0x02, 0x09, b'B'], 0xD0);
    assert!(matches!(
        scan.step(&mut state, &Event::Packet(first), 1_050),
        Step::Perform(Action::Read(258))
    ));
    assert!(matches!(
        scan.step(&mut state, &Event::TimedOut, 1_150),
        Step::Perform(Action::Read(258))
    ));
    assert!(matches!(
        scan.step(&mut state, &Event::Failed, 1_160),
        Step::Perform(Action::Read(258))
    ));
    assert!(matches!(
        scan.step(&mut state, &Event::Packet(second), 1_200),
        Step::Perform(Action::Read(258))
    ));
    assert!(matches!(
        scan.step(&mut state, &Event::Packet(vec![0x04, 0x0E, 0x01]), 1_499),
        Step::Perform(Action::Read(258))
    ));
    assert!(state.scan_results.is_empty());
    match scan.step(&mut state, &Event::Packet(again), 1_500) {
        Step::Perform(Action::Write(bytes)) => {
            assert_eq!(bytes, vec![0x01, 0x0C, 0x20, 0x02, 0x00, 0x00])
        }
        other => panic!("unexpected step {:?}", other),
    }
    assert!(state.scanning);
    assert!(matches!(scan.step(&mut state, &Event::Failed, 1_501), Step::Complete(Ok(()))));
    assert!(!state.scanning);
    let results = ble_get_scan_results(&state).unwrap();
    assert_eq!(results.len(), 2);
    assert_eq!(results[0].address.bytes, numbered(1));
    assert_eq!(results[0].rssi, -60);
    assert_eq!(results[0].name_str(), Some("A"));
    assert_eq!(results[1].address.bytes, numbered(2));
}

#[test]
fn scan_caps_results_at_32() {
    let mut state = open_state();
    let mut scan = listening_scan(&mut state, 1_000, 0);
    for n in 0..40u8 {
        let packet = report_packet(numbered(n), &[], n);
        assert!(matches!(
            scan.step(&mut state, &Event::Packet(packet), 10),
            Step::Perform(Action::Read(258))
        ));
    }
    assert!(matches!(
        scan.step(&mut state, &Event::TimedOut, 1_000),
        Step::Perform(Action::Write(_))
    ));
    assert!(matches!(scan.step(&mut state, &Event::Done, 1_001), Step::Complete(Ok(()))));
    let results = ble_get_scan_results(&state).unwrap();
    assert_eq!(results.len(), 32);
    for n in 0..32u8 {
        assert_eq!(results[n as usize].address.bytes, numbered(n));
    }
}

#[test]
fn scan_with_zero_budget_reads_nothing() {
    let mut state = open_state();
    let (mut scan, _) = ble_start_scan(&mut state, 0);
    scan.step(&mut state, &Event::Done, 7);
    scan.step(&mut state, &Event::Done, 7);
    scan.step(&mut state, &Event::Done, 7);
    assert!(matches!(scan.step(&mut state, &Event::Done, 7), Step::Perform(Action::Write(_))));
    assert!(matches!(scan.step(&mut state, &Event::Done, 7), Step::Complete(Ok(()))));
    assert!(ble_get_scan_results(&state).unwrap().is_empty());
}

#[test]
fn scan_fails_when_a_command_cannot_be_written() {
    let mut state = open_state();
    let (mut scan, _) = ble_start_scan(&mut state, 500);
    assert!(matches!(
        scan.step(&mut state, &Event::Failed, 0),
        Step::Complete(Err(BleError::SocketError))
    ));
    assert!(!state.scanning);

    let (mut scan, _) = ble_start_scan(&mut state, 500);
    scan.step(&mut state, &Event::Done, 0);
    scan.step(&mut state, &Event::Done, 0);
    assert!(matches!(
        scan.step(&mut state, &Event::Failed, 0),
        Step::Complete(Err(BleError::SocketError))
    ));

    let (mut scan, _) = ble_start_scan(&mut state, 500);
    scan.step(&mut state, &Event::Done, 0);
    scan.step(&mut state, &Event::Done, 0);
    scan.step(&mut state, &Event::Done, 0);
    assert!(matches!(
        scan.step(&mut state, &Event::Failed, 0),
        Step::Complete(Err(BleError::SocketError))
    ));
    assert!(!state.scanning);
}

#[test]
fn get_scan_results_needs_transport() {
    let state = BleState::new();
    assert_eq!(ble_get_scan_results(&state).unwrap_err(), BleError::NotInitialized);
    assert!(ble_get_scan_results(&open_state()).unwrap().is_empty());
}

#[test]
fn stop_scan_is_a_no_op_when_idle() {
    let state = BleState::new();
    assert!(matches!(ble_stop_scan(&state).1, Step::Complete(Err(BleError::NotInitialized))));
    let state = open_state();
    assert!(matches!(ble_stop_scan(&state).1, Step::Complete(Ok(()))));
}

#[test]
fn stop_scan_switches_scanning_off() {
    let mut state = open_state();
    state.scanning = true;
    let (mut stop, first) = ble_stop_scan(&state);
    match first {
        Step::Perform(Action::Write(bytes)) => {
            assert_eq!(bytes, vec![0x01, 0x0C, 0x20, 0x02, 0x00, 0x00])
        }
        other => panic!("unexpected step {:?}", other),
    }
    assert!(matches!(stop.step(&mut state, &Event::Done), Step::Complete(Ok(()))));
    assert!(!state.scanning);

    state.scanning = true;
    let (mut stop, _) = ble_stop_scan(&state);
    assert!(matches!(
        stop.step(&mut state, &Event::Failed),
        Step::Complete(Err(BleError::SocketError))
    ));
    assert!(state.scanning);
}

#[test]
fn records_from_a_scan_have_names_that_fit() {
    let mut state = open_state();
    let mut scan = listening_scan(&mut state, 500, 0);
    let mut long_name = vec![41, 0x09];
    long_name.extend_from_slice(&[b'n'; 40]);
    scan.step(&mut state, &Event::Packet(report_packet(numbered(1), &[], 0xC4)), 10);
    scan.step(&mut state, &Event::Packet(report_packet(numbered(2), &long_name, 0xC4)), 20);
    scan.step(&mut state, &Event::TimedOut, 500);
    assert!(matches!(scan.step(&mut state, &Event::Done, 501), Step::Complete(Ok(()))));
    let results = ble_get_scan_results(&state).unwrap();
    assert_eq!(results.len(), 2);
    assert!(results[0].name.is_none());
    assert_eq!(results[0].name_len, 0);
    assert_eq!(results[0].name_str(), None);
    assert_eq!(results[1].name_len, 32);
    assert_eq!(results[1].name_str().unwrap().len(), 32);
    for result in &results {
        assert!(result.name_len <= 32);
    }
}
