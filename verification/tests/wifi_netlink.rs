use hal::wifi::answer::{
    check_trigger, is_last_chunk, parse_family_id, parse_interfaces, parse_scan_results,
    read_error, until_nul,
};
use hal::wifi::bytes::{
    push_u16, push_u32, read_i32, read_u16, read_u32, to_signed16, to_signed32, to_signed8,
    ByteOrder,
};
use hal::wifi::linux::{
    keep_name, require_initialized, select_interface, take_results, wifi_connect,
    wifi_deinitialize, wifi_disconnect, wifi_get_connection_status, wifi_get_essid,
    wifi_get_ip_info, wifi_get_mac_address, wifi_get_mode, wifi_get_rssi,
    wifi_get_scan_results, wifi_initialize, wifi_is_initialized, wifi_scan_is_complete,
    wifi_set_mode, wifi_start_scan, WifiState,
};
use hal::wifi::netlink::{align4, build_nl_msg, freq_to_channel, parse_attrs, NlAttribute};
use hal::wifi::nl80211::{lookup, parse_bss, parse_ies, signal_to_rssi};
use hal::wifi::{AuthMode, ConnectionStatus, ScanResult, StationConfig, WifiError, WifiMode};

const LE: ByteOrder = ByteOrder::Little;
const BE: ByteOrder = ByteOrder::Big;

/// One attribute in little-endian order, padded to four bytes.
fn attribute(kind: u16, value: &[u8]) -> Vec<u8> {
    let len = (4 + value.len()) as u16;
    let mut bytes = vec![len as u8, (len >> 8) as u8, kind as u8, (kind >> 8) as u8];
    bytes.extend_from_slice(value);
    while bytes.len() % 4 != 0 {
        bytes.push(0);
    }
    bytes
}

/// One message in little-endian order with a generic netlink header.
fn message(kind: u16, flags: u16, attrs: &[u8]) -> Vec<u8> {
    let len = (20 + attrs.len()) as u32;
    let mut bytes = len.to_le_bytes().to_vec();
    bytes.extend_from_slice(&kind.to_le_bytes());
    bytes.extend_from_slice(&flags.to_le_bytes());
    bytes.extend_from_slice(&[0; 8]);
    bytes.extend_from_slice(&[34, 1, 0, 0]);
    bytes.extend_from_slice(attrs);
    while bytes.len() % 4 != 0 {
        bytes.push(0);
    }
    bytes
}

fn bss_attributes(bssid: [u8; 6], freq: u32, signal: i32, ies: &[u8], capability: u16) -> Vec<u8> {
    let mut bss = attribute(1, &bssid);
    bss.extend_from_slice(&attribute(2, &freq.to_le_bytes()));
    bss.extend_from_slice(&attribute(7, &signal.to_le_bytes()));
    bss.extend_from_slice(&attribute(6, ies));
    bss.extend_from_slice(&attribute(5, &capability.to_le_bytes()));
    bss
}

fn bss_message(bssid: [u8; 6], ssid: &[u8]) -> Vec<u8> {
    let mut ies = vec![0, ssid.len() as u8];
    ies.extend_from_slice(ssid);
    let bss = bss_attributes(bssid, 2437, -5500, &ies, 0);
    let mut attrs = attribute(3, &5i32.to_le_bytes());
    attrs.extend_from_slice(&attribute(47 | 0x8000, &bss));
    message(0x1C, 2, &attrs)
}

fn interface_message(index: i32, name: &[u8], iftype: u32) -> Vec<u8> {
    let mut attrs = attribute(3, &index.to_le_bytes());
    attrs.extend_from_slice(&attribute(4, name));
    attrs.extend_from_slice(&attribute(6, &[2, 4, 6, 8, 10, 12]));
    attrs.extend_from_slice(&attribute(5, &iftype.to_le_bytes()));
    message(0x1C, 2, &attrs)
}

fn done_message() -> Vec<u8> {
    let mut bytes = 20u32.to_le_bytes().to_vec();
    bytes.extend_from_slice(&3u16.to_le_bytes());
    bytes.extend_from_slice(&[0; 14]);
    bytes
}

fn error_message(error: i32) -> Vec<u8> {
    let mut bytes = 36u32.to_le_bytes().to_vec();
    bytes.extend_from_slice(&2u16.to_le_bytes());
    bytes.extend_from_slice(&[0; 10]);
    bytes.extend_from_slice(&error.to_le_bytes());
    bytes.extend_from_slice(&[0; 16]);
    bytes
}

fn interface(index: i32, name: &str, iftype: u32) -> hal::wifi::answer::WifiInterface {
    hal::wifi::answer::WifiInterface {
        ifindex: index,
        ifname: name.to_string(),
        mac: [1, 2, 3, 4, 5, index as u8],
        iftype,
    }
}

#[test]
fn integers_in_both_orders() {
    let data = [0x12, 0x34, 0x56, 0x78, 0x9A];
    assert_eq!(read_u16(&data, 0, LE), 0x3412);
    assert_eq!(read_u16(&data, 0, BE), 0x1234);
    assert_eq!(read_u16(&data, 3, LE), 0x9A78);
    assert_eq!(read_u32(&data, 1, LE), 0x9A785634);
    assert_eq!(read_u32(&data, 1, BE), 0x3456789A);
    assert_eq!(read_i32(&[0xFF, 0xFF, 0xFF, 0xFF], 0, LE), -1);
    assert_eq!(read_i32(&[0x84, 0xEA, 0xFF, 0xFF], 0, LE), -5500);
    assert_eq!(read_i32(&[0xFF, 0xFF, 0xEA, 0x84], 0, BE), -5500);
    assert_eq!(to_signed32(0x7FFF_FFFF), i32::MAX);
    assert_eq!(to_signed32(0x8000_0000), i32::MIN);
    assert_eq!(to_signed16(0xFFFE), -2);
    assert_eq!(to_signed16(0x7FFF), i16::MAX);
    assert_eq!(to_signed8(0x80), i8::MIN);
    assert_eq!(to_signed8(0x7F), i8::MAX);
    let mut buffer = vec![0xEE];
    push_u16(&mut buffer, 0x1234, LE);
    push_u16(&mut buffer, 0x1234, BE);
    push_u32(&mut buffer, 0xA1B2C3D4, LE);
    push_u32(&mut buffer, 0xA1B2C3D4, BE);
    assert_eq!(
        buffer,
        vec![0xEE, 0x34, 0x12, 0x12, 0x34, 0xD4, 0xC3, 0xB2, 0xA1, 0xA1, 0xB2, 0xC3, 0xD4]
    );
}

#[test]
fn align4_rounds_up() {
    assert_eq!(align4(0), 0);
    assert_eq!(align4(1), 4);
    assert_eq!(align4(4), 4);
    assert_eq!(align4(5), 8);
    assert_eq!(align4(7), 8);
    assert_eq!(align4(8), 8);
    assert_eq!(align4(65535), 65536);
}

#[test]
fn frequencies_to_channels() {
    assert_eq!(freq_to_channel(2412), 1);
    assert_eq!(freq_to_channel(2437), 6);
    assert_eq!(freq_to_channel(2472), 13);
    assert_eq!(freq_to_channel(2484), 14);
    assert_eq!(freq_to_channel(2411), 0);
    assert_eq!(freq_to_channel(2485), 0);
    assert_eq!(freq_to_channel(5180), 36);
    assert_eq!(freq_to_channel(5500), 100);
    assert_eq!(freq_to_channel(5825), 165);
    assert_eq!(freq_to_channel(5826), 0);
    assert_eq!(freq_to_channel(5179), 0);
    assert_eq!(freq_to_channel(0), 0);
    assert_eq!(freq_to_channel(2414), 1);
}

#[test]
fn attributes_are_read_by_type() {
    let mut data = attribute(1, &[0xAA, 0xBB]);
    data.extend_from_slice(&attribute(3, &[1, 2, 3, 4, 5]));
    data.extend_from_slice(&attribute(0x8000 | 47, &[9]));
    data.extend_from_slice(&attribute(1, &[0xCC]));
    let attrs = parse_attrs(&data, LE);
    assert_eq!(attrs.len(), 3);
    assert_eq!(lookup(&attrs, 1), Some(&vec![0xCC]));
    assert_eq!(lookup(&attrs, 3), Some(&vec![1, 2, 3, 4, 5]));
    assert_eq!(lookup(&attrs, 47), Some(&vec![9]));
    assert_eq!(lookup(&attrs, 2), None);
}

#[test]
fn attributes_stop_at_bad_length() {
    assert!(parse_attrs(&[], LE).is_empty());
    assert!(parse_attrs(&[4, 0, 1], LE).is_empty());
    assert!(parse_attrs(&[3, 0, 1, 0], LE).is_empty());
    assert!(parse_attrs(&[9, 0, 1, 0, 1, 2, 3, 4], LE).is_empty());
    let mut data = attribute(1, &[7]);
    data.extend_from_slice(&[2, 0, 5, 0]);
    data.extend_from_slice(&attribute(6, &[8]));
    let attrs = parse_attrs(&data, LE);
    assert_eq!(attrs.len(), 1);
    assert_eq!(lookup(&attrs, 1), Some(&vec![7]));
    let attrs = parse_attrs(&[5, 0, 2, 0, 0x77], LE);
    assert_eq!(lookup(&attrs, 2), Some(&vec![0x77]));
    let attrs = parse_attrs(&[0, 4, 0, 2], BE);
    assert_eq!(lookup(&attrs, 2), Some(&vec![]));
}

#[test]
fn request_layout() {
    let attrs = vec![
        NlAttribute { kind: 2, value: b"nl80211\0".to_vec() },
        NlAttribute { kind: 3, value: vec![9] },
    ];
    let message = build_nl_msg(0x10, 3, 1, 7, 0x0102_0304, &attrs, LE);
    let mut expected = vec![
        40, 0, 0, 0, 0x10, 0, 1, 0, 7, 0, 0, 0, 4, 3, 2, 1, 3, 1, 0, 0, 12, 0, 2, 0,
    ];
    expected.extend_from_slice(b"nl80211\0");
    expected.extend_from_slice(&[5, 0, 3, 0, 9, 0, 0, 0]);
    assert_eq!(message, expected);
    let empty = build_nl_msg(0x1C, 5, 0x301, 2, 0, &Vec::new(), BE);
    assert_eq!(
        empty,
        vec![0, 0, 0, 20, 0, 0x1C, 3, 1, 0, 0, 0, 2, 0, 0, 0, 0, 5, 1, 0, 0]
    );
}

#[test]
fn request_is_read_back() {
    let attrs = vec![NlAttribute { kind: 3, value: 5i32.to_le_bytes().to_vec() }];
    let message = build_nl_msg(0x1C, 33, 5, 3, 99, &attrs, LE);
    let read = parse_attrs(&message[20..], LE);
    assert_eq!(lookup(&read, 3), Some(&vec![5, 0, 0, 0]));
}

#[test]
fn information_elements() {
    let mut result = ScanResult::default();
    result.ssid = [0xEE; 32];
    parse_ies(&[0, 3, b'a', b'b', b'c', 1, 2, 0x82, 0x84, 48, 2, 1, 0], &mut result);
    assert_eq!(result.ssid_len, 3);
    assert_eq!(&result.ssid[..3], b"abc");
    assert!(result.ssid[3..].iter().all(|b| *b == 0xEE));
    assert_eq!(result.auth_mode, AuthMode::Wpa2Psk);

    let mut result = ScanResult::default();
    let mut long = vec![0, 40];
    long.extend_from_slice(&[b'x'; 40]);
    long.extend_from_slice(&[0, 2, b'y', b'z']);
    parse_ies(&long, &mut result);
    assert_eq!(result.ssid_len, 2);
    assert_eq!(&result.ssid[..3], b"yzx");

    let mut result = ScanResult::default();
    parse_ies(&[0, 5, b'a', b'b'], &mut result);
    assert_eq!(result.ssid_len, 0);
    parse_ies(&[48], &mut result);
    assert_eq!(result.auth_mode, AuthMode::Open);
    parse_ies(&[48, 0], &mut result);
    assert_eq!(result.auth_mode, AuthMode::Wpa2Psk);
}

#[test]
fn signal_in_whole_dbm() {
    assert_eq!(signal_to_rssi(-5500), -55);
    assert_eq!(signal_to_rssi(-5599), -55);
    assert_eq!(signal_to_rssi(-99), 0);
    assert_eq!(signal_to_rssi(0), 0);
    assert_eq!(signal_to_rssi(1299), 12);
    assert_eq!(signal_to_rssi(-12800), -128);
    assert_eq!(signal_to_rssi(-12900), 127);
    assert_eq!(signal_to_rssi(12800), -128);
    assert_eq!(signal_to_rssi(i32::MIN), (i32::MIN / 100) as i8);
    assert_eq!(signal_to_rssi(i32::MAX), (i32::MAX / 100) as i8);
}

#[test]
fn bss_is_read_from_attributes() {
    let bss = bss_attributes(
        [1, 2, 3, 4, 5, 6],
        5180,
        -4200,
        &[0, 4, b'H', b'o', b'm', b'e'],
        0x0411,
    );
    let result = parse_bss(&bss, LE).unwrap();
    assert_eq!(result.bssid, [1, 2, 3, 4, 5, 6]);
    assert_eq!(result.channel, 36);
    assert_eq!(result.rssi, -42);
    assert_eq!(result.ssid_str(), Some("Home"));
    assert_eq!(result.auth_mode, AuthMode::Wep);

    let bss = bss_attributes([1, 2, 3, 4, 5, 6], 2412, -7000, &[48, 0], 0x0010);
    let result = parse_bss(&bss, LE).unwrap();
    assert_eq!(result.auth_mode, AuthMode::Wpa2Psk);
    assert_eq!((result.channel, result.rssi, result.ssid_len), (1, -70, 0));

    let bss = bss_attributes([1, 2, 3, 4, 5, 6], 2412, -7000, &[], 0x0401);
    assert_eq!(parse_bss(&bss, LE).unwrap().auth_mode, AuthMode::Open);
}

#[test]
fn bss_without_address_is_none() {
    assert!(parse_bss(&[], LE).is_none());
    let bss = bss_attributes([0; 6], 2412, -7000, &[], 0);
    assert!(parse_bss(&bss, LE).is_none());
    assert!(parse_bss(&attribute(1, &[1, 2, 3, 4, 5]), LE).is_none());
    let only = parse_bss(&attribute(1, &[0, 0, 0, 0, 0, 1, 9]), LE).unwrap();
    assert_eq!(only.bssid, [0, 0, 0, 0, 0, 1]);
    assert_eq!((only.channel, only.rssi, only.auth_mode), (0, -100, AuthMode::Open));
}

#[test]
fn scan_results_are_read_until_done() {
    let mut response = bss_message([1, 1, 1, 1, 1, 1], b"one");
    response.extend_from_slice(&message(0x1C, 2, &attribute(3, &[5, 0, 0, 0])));
    response.extend_from_slice(&bss_message([2, 2, 2, 2, 2, 2], b"three"));
    response.extend_from_slice(&done_message());
    response.extend_from_slice(&bss_message([3, 3, 3, 3, 3, 3], b"late"));
    let results = parse_scan_results(&response, LE);
    assert_eq!(results.len(), 2);
    assert_eq!(results[0].bssid, [1; 6]);
    assert_eq!(results[0].ssid_str(), Some("one"));
    assert_eq!((results[0].channel, results[0].rssi), (6, -55));
    assert_eq!(results[1].ssid_str(), Some("three"));
}

#[test]
fn scan_results_stop_at_error_or_bad_length() {
    assert!(parse_scan_results(&[], LE).is_empty());
    assert!(parse_scan_results(&error_message(-16), LE).is_empty());
    let mut response = bss_message([1; 6], b"one");
    response.truncate(response.len() - 1);
    assert!(parse_scan_results(&response, LE).is_empty());
    let mut response = bss_message([1; 6], b"one");
    response.extend_from_slice(&[15, 0, 0, 0, 0x1C, 0, 0, 0, 0, 0, 0, 0, 0, 0, 0, 0]);
    response.extend_from_slice(&bss_message([2; 6], b"two"));
    assert_eq!(parse_scan_results(&response, LE).len(), 1);
    let mut short = vec![16, 0, 0, 0, 0x1C, 0, 0, 0, 0, 0, 0, 0, 0, 0, 0, 0];
    short.extend_from_slice(&bss_message([2; 6], b"two"));
    assert_eq!(parse_scan_results(&short, LE).len(), 1);
}

#[test]
fn interfaces_are_read() {
    let mut response = interface_message(3, b"wlan0\0", 2);
    response.extend_from_slice(&interface_message(0, b"ghost\0", 2));
    response.extend_from_slice(&interface_message(4, b"\0", 2));
    response.extend_from_slice(&interface_message(5, b"mon0", 6));
    response.extend_from_slice(&done_message());
    let found = parse_interfaces(&response, LE);
    assert_eq!(found.len(), 2);
    assert_eq!(found[0].ifindex, 3);
    assert_eq!(found[0].ifname, "wlan0");
    assert_eq!(found[0].mac, [2, 4, 6, 8, 10, 12]);
    assert_eq!(found[0].iftype, 2);
    assert_eq!(found[1].ifname, "mon0");
    assert_eq!(found[1].iftype, 6);
}

#[test]
fn interface_name_ends_at_first_nul() {
    assert_eq!(until_nul(b"wlan0\0junk"), b"wlan0");
    assert_eq!(until_nul(b"wlan0"), b"wlan0");
    assert_eq!(until_nul(b"\0wlan0"), b"");
    assert_eq!(until_nul(b""), b"");
    let response = interface_message(3, &[b'w', 0xFF, b'l', 0, b'x'], 0);
    let found = parse_interfaces(&response, LE);
    assert_eq!(found[0].ifname, "w\u{FFFD}l");
}

#[test]
fn family_id_is_read_from_answer() {
    let mut attrs = attribute(2, b"nl80211\0");
    attrs.extend_from_slice(&attribute(1, &[0x1C, 0x00]));
    assert_eq!(parse_family_id(&message(0x10, 0, &attrs), LE), Ok(0x1C));
    assert_eq!(
        parse_family_id(&message(0x10, 0, &attribute(2, b"nl80211\0")), LE),
        Err(WifiError::SystemError(-1))
    );
    assert_eq!(
        parse_family_id(&message(0x10, 0, &attribute(1, &[0x1C])), LE),
        Err(WifiError::SystemError(-1))
    );
    assert_eq!(parse_family_id(&[], LE), Err(WifiError::SystemError(-1)));
    assert_eq!(parse_family_id(&[0; 19], LE), Err(WifiError::SystemError(-1)));
    assert_eq!(parse_family_id(&error_message(-2), LE), Err(WifiError::SystemError(-2)));
}

#[test]
fn trigger_answer() {
    assert_eq!(check_trigger(&[], LE), Ok(()));
    assert_eq!(check_trigger(&error_message(0), LE), Ok(()));
    assert_eq!(check_trigger(&error_message(-16), LE), Ok(()));
    assert_eq!(check_trigger(&error_message(-1), LE), Err(WifiError::SystemError(-1)));
    assert_eq!(check_trigger(&error_message(-19), LE), Err(WifiError::SystemError(-19)));
    assert_eq!(check_trigger(&error_message(5), LE), Ok(()));
    assert_eq!(check_trigger(&done_message(), LE), Ok(()));
    assert_eq!(read_error(&error_message(-7), LE), Some(-7));
    assert_eq!(read_error(&error_message(-7)[..19], LE), None);
}

#[test]
fn last_chunk_of_an_answer() {
    assert!(is_last_chunk(&[], LE));
    assert!(is_last_chunk(&done_message(), LE));
    assert!(!is_last_chunk(&bss_message([1; 6], b"one"), LE));
    assert!(is_last_chunk(&message(0x1C, 0, &[]), LE));
    assert!(is_last_chunk(&message(0x1C, 5, &[]), LE));
    assert!(!is_last_chunk(&message(0x1C, 7, &[]), LE));
}

#[test]
fn first_usable_interface_is_selected() {
    let interfaces = vec![interface(1, "mon0", 6), interface(2, "wlan0", 2), interface(3, "w1", 0)];
    assert_eq!(select_interface(&interfaces), Some(1));
    let interfaces = vec![interface(1, "ap0", 3), interface(3, "w1", 0)];
    assert_eq!(select_interface(&interfaces), Some(1));
    assert_eq!(select_interface(&vec![interface(1, "ap0", 3)]), None);
    assert_eq!(select_interface(&Vec::new()), None);
}

#[test]
fn interface_name_is_kept_in_16_bytes() {
    let mut expected = [0u8; 16];
    expected[..5].copy_from_slice(b"wlan0");
    assert_eq!(keep_name(b"wlan0"), expected);
    assert_eq!(&keep_name(b"a-very-long-interface-name")[..15], b"a-very-long-int");
    assert_eq!(keep_name(b"a-very-long-interface-name")[15], 0);
    assert_eq!(keep_name(b""), [0u8; 16]);
}

#[test]
fn results_are_handed_out_sixteen_at_a_time() {
    let mut results = Vec::new();
    for n in 0..20u8 {
        let mut result = ScanResult::default();
        result.channel = n + 1;
        results.push(result);
    }
    let (taken, count) = take_results(&results);
    assert_eq!(count, 16);
    for n in 0..16 {
        assert_eq!(taken[n].channel, n as u8 + 1);
    }
    results.truncate(3);
    let (taken, count) = take_results(&results);
    assert_eq!(count, 3);
    assert_eq!(taken[2].channel, 3);
    assert_eq!(taken[3].channel, 0);
    assert_eq!(take_results(&Vec::new()).1, 0);
}

#[test]
fn linux_driver_adopts_an_interface() {
    let mut state = WifiState::new();
    assert!(!wifi_is_initialized(&state));
    assert_eq!(require_initialized(&state), Err(WifiError::NotInitialized));
    assert_eq!(wifi_get_mac_address(&state), Err(WifiError::NotInitialized));
    assert_eq!(
        wifi_initialize(&mut state, 0x1C, &vec![interface(1, "ap0", 3)]),
        Err(WifiError::InterfaceNotFound)
    );
    assert!(!state.initialized);
    assert_eq!(state.family_id, 0x1C);
    let interfaces = vec![interface(1, "ap0", 3), interface(7, "wlan0", 2)];
    assert_eq!(wifi_initialize(&mut state, 0x1D, &interfaces), Ok(()));
    assert!(wifi_is_initialized(&state));
    assert_eq!(require_initialized(&state), Ok(()));
    assert_eq!((state.family_id, state.ifindex), (0x1D, 7));
    assert_eq!(&state.ifname[..6], b"wlan0\0");
    assert_eq!(wifi_get_mac_address(&state), Ok([1, 2, 3, 4, 5, 7]));
    assert_eq!(wifi_initialize(&mut state, 0x99, &Vec::new()), Ok(()));
    assert_eq!(state.family_id, 0x1D);
    assert_eq!(wifi_deinitialize(&mut state), Ok(()));
    assert!(!state.initialized);
    assert_eq!((state.ifindex, state.ifname, state.mac), (0, [0; 16], [0; 6]));
}

#[test]
fn linux_driver_tracks_scans() {
    let mut state = WifiState::new();
    state.initialized = true;
    state.cached = Some(vec![ScanResult::default()]);
    assert_eq!(
        wifi_start_scan(&mut state, Err(WifiError::SystemError(-1))),
        Err(WifiError::SystemError(-1))
    );
    assert!(!state.scan_in_progress);
    assert!(state.cached.is_some());
    assert_eq!(wifi_start_scan(&mut state, Ok(())), Ok(()));
    assert!(state.scan_in_progress);
    assert!(state.cached.is_none());
    assert!(wifi_get_scan_results(&state).is_none());
    assert!(!wifi_scan_is_complete(&mut state, Ok(Vec::new())));
    assert!(!wifi_scan_is_complete(&mut state, Err(WifiError::SocketError)));
    let mut found = ScanResult::default();
    found.channel = 11;
    assert!(wifi_scan_is_complete(&mut state, Ok(vec![found])));
    assert!(!state.scan_in_progress);
    let (results, count) = wifi_get_scan_results(&state).unwrap();
    assert_eq!(count, 1);
    assert_eq!(results[0].channel, 11);
    assert!(wifi_scan_is_complete(&mut state, Ok(Vec::new())));
    assert_eq!(state.cached.as_ref().unwrap().len(), 1);
}

#[test]
fn linux_driver_fixed_answers() {
    let mut state = WifiState::new();
    assert_eq!(wifi_set_mode(WifiMode::Monitor), Ok(()));
    assert_eq!(wifi_get_mode(), Ok(WifiMode::Station));
    assert_eq!(wifi_connect(&StationConfig::new("a", "b")), Err(WifiError::NotSupported));
    assert_eq!(wifi_disconnect(), Err(WifiError::NotSupported));
    assert_eq!(wifi_get_essid().unwrap_err(), WifiError::NotSupported);
    assert_eq!(wifi_get_ip_info().unwrap_err(), WifiError::NotSupported);
    assert_eq!(wifi_get_rssi(), Err(WifiError::NotSupported));
    assert_eq!(wifi_get_connection_status(&state, true), Err(WifiError::NotInitialized));
    state.initialized = true;
    assert_eq!(wifi_get_connection_status(&state, true), Ok(ConnectionStatus::Connected));
    assert_eq!(wifi_get_connection_status(&state, false), Ok(ConnectionStatus::Disconnected));
}
