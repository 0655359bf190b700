use linux_airpods_cli::aap::{
    ingest_packet, parse_battery_packet, parse_conversational_awareness, parse_magic_keys_packet,
    parse_metadata_packet, parse_noise_control_mode, safe_decode, AAPSession, BatteryComponent,
    SessionState,
};

fn bytes(text: &str) -> Vec<u8> {
    hex::decode(text).unwrap()
}

fn battery_packet(entries: &[[u8; 5]]) -> Vec<u8> {
    let mut packet = bytes("040004000400");
    packet.push(entries.len() as u8);
    for entry in entries {
        packet.extend_from_slice(entry);
    }
    packet
}

#[test]
fn battery_packets_of_every_size() {
    let empty = parse_battery_packet(&battery_packet(&[])).unwrap();
    assert_eq!(empty.left, BatteryComponent::default());
    assert_eq!(empty.primary, None);
    let full = battery_packet(&[
        [0x01, 1, 10, 2, 1],
        [0x02, 1, 20, 1, 1],
        [0x04, 1, 30, 0, 1],
        [0x08, 1, 40, 2, 1],
    ]);
    let battery = parse_battery_packet(&full).unwrap();
    assert_eq!(battery.headset.level, Some(10));
    assert_eq!(
        battery.right,
        BatteryComponent { level: Some(20), charging: true, available: true, status_code: Some(1) }
    );
    assert!(!battery.left.charging);
    assert_eq!(battery.case_unit.level, Some(40));
    assert_eq!(battery.primary.as_deref(), Some("headset"));
    assert_eq!(battery.secondary.as_deref(), Some("right"));
}

#[test]
fn battery_packets_that_are_none() {
    assert_eq!(parse_battery_packet(&[]), None);
    assert_eq!(parse_battery_packet(&bytes("040004000400")), None);
    assert_eq!(parse_battery_packet(&bytes("050004000400")), None);
    let mut packet = battery_packet(&[[0x02, 1, 20, 1, 1]]);
    packet.push(0);
    assert_eq!(parse_battery_packet(&packet), None);
    let five = [[0x02, 1, 20, 1, 1]; 5];
    assert_eq!(parse_battery_packet(&battery_packet(&five)), None);
    assert_eq!(parse_battery_packet(&battery_packet(&[[0x02, 2, 20, 1, 1]])), None);
    assert_eq!(parse_battery_packet(&battery_packet(&[[0x02, 1, 20, 1, 0]])), None);
}

#[test]
fn battery_components() {
    let battery = parse_battery_packet(&battery_packet(&[
        [0x04, 1, 50, 4, 1],
        [0x10, 1, 60, 1, 1],
        [0x04, 1, 70, 1, 1],
    ]))
    .unwrap();
    assert_eq!(
        battery.left,
        BatteryComponent { level: Some(70), charging: true, available: true, status_code: Some(1) }
    );
    assert_eq!(battery.primary.as_deref(), Some("left"));
    assert_eq!(battery.secondary.as_deref(), Some("left"));
    let gone = parse_battery_packet(&battery_packet(&[[0x08, 1, 50, 4, 1]])).unwrap();
    assert_eq!(
        gone.case_unit,
        BatteryComponent { level: None, charging: false, available: false, status_code: Some(4) }
    );
    assert_eq!(gone.primary, None);
}

fn metadata_packet(payload: &[u8]) -> Vec<u8> {
    let mut packet = bytes("040004001d0002ed000400");
    packet.extend_from_slice(payload);
    packet
}

#[test]
fn metadata_packets() {
    let metadata = parse_metadata_packet(&metadata_packet(b"a\0b\0c")).unwrap();
    assert_eq!(metadata.device_name.as_deref(), Some("a"));
    assert_eq!(metadata.model_number.as_deref(), Some("b"));
    assert_eq!(metadata.manufacturer.as_deref(), Some("c"));
    let metadata = parse_metadata_packet(&metadata_packet(b"\0\0\0rest")).unwrap();
    assert_eq!(metadata.manufacturer.as_deref(), Some(""));
    assert_eq!(parse_metadata_packet(&metadata_packet(b"")), None);
    assert_eq!(parse_metadata_packet(&metadata_packet(b"a\0b")), None);
    assert_eq!(parse_metadata_packet(&bytes("040004001e0002ed000400610062")), None);
}

#[test]
fn bytes_that_are_no_text_are_replaced() {
    assert_eq!(safe_decode("Größe ✓".as_bytes()), "Größe ✓");
    assert_eq!(safe_decode(b"a\xffb"), "a\u{fffd}b");
    assert_eq!(safe_decode(b"\xe2\x9c"), "\u{fffd}");
    let metadata = parse_metadata_packet(&metadata_packet(b"\xff\0b\0c")).unwrap();
    assert_eq!(metadata.device_name.as_deref(), Some("\u{fffd}"));
}

#[test]
fn key_packets() {
    let keys = parse_magic_keys_packet(&bytes("04000400310002040002000aff01000100b0")).unwrap();
    assert_eq!(keys.irk, "b0");
    assert_eq!(keys.enc_key, "0aff");
    let keys = parse_magic_keys_packet(&bytes("040004003100020100000004000000ee")).unwrap();
    assert_eq!(keys.irk, "");
    assert_eq!(keys.enc_key, "");
    assert_eq!(parse_magic_keys_packet(&bytes("04000400310002")), None);
    assert_eq!(parse_magic_keys_packet(&bytes("0400040031000201000100")), None);
    assert_eq!(parse_magic_keys_packet(&bytes("0400040031000201000100010100010002")), None);
    assert_eq!(parse_magic_keys_packet(&bytes("0400040031000201000100010200010002")), None);
    assert_eq!(parse_magic_keys_packet(&bytes("0400040031000101000100010400010002")), None);
}

#[test]
fn settings_packets() {
    for mode in 0u8..=6 {
        let mut packet = bytes("0400040009000d");
        packet.push(mode);
        let expected = if (1..=4).contains(&mode) { Some(mode) } else { None };
        assert_eq!(parse_noise_control_mode(&packet), expected);
        packet.extend_from_slice(&[0, 0, 0]);
        assert_eq!(parse_noise_control_mode(&packet), expected);
    }
    assert_eq!(parse_noise_control_mode(&bytes("0400040009000d")), None);
    assert_eq!(parse_conversational_awareness(&bytes("0400040009002801")), Some(true));
    assert_eq!(parse_conversational_awareness(&bytes("0400040009002802")), Some(false));
    assert_eq!(parse_conversational_awareness(&bytes("0400040009002803")), None);
    assert_eq!(parse_conversational_awareness(&bytes("04000400090028")), None);
}

#[test]
fn sessions_learn_and_do_not_forget() {
    let mut state = SessionState::default();
    ingest_packet(&battery_packet(&[[0x02, 1, 20, 1, 1]]), &mut state, false);
    ingest_packet(&metadata_packet(b"a\0b\0c"), &mut state, false);
    ingest_packet(&bytes("0400040009000d02"), &mut state, false);
    ingest_packet(&bytes("0400040009002801"), &mut state, false);
    ingest_packet(&bytes("04000400310002040000000100010077"), &mut state, false);
    ingest_packet(&bytes("ffff"), &mut state, false);
    assert_eq!(state.battery.as_ref().unwrap().right.level, Some(20));
    assert_eq!(state.metadata.as_ref().unwrap().device_name.as_deref(), Some("a"));
    assert_eq!(state.noise_control_mode, Some(2));
    assert_eq!(state.conversational_awareness_enabled, Some(true));
    assert_eq!(state.magic_keys.as_ref().unwrap().irk, "77");
    assert!(state.raw_packets.is_empty());
    ingest_packet(&battery_packet(&[[0x02, 1, 21, 1, 1]]), &mut state, false);
    assert_eq!(state.battery.as_ref().unwrap().right.level, Some(21));
}

#[test]
fn the_last_packet_of_every_kind_counts() {
    let mut state = SessionState::default();
    for packet in [
        metadata_packet(b"a\0b\0c"),
        bytes("04000400310002040000000100010077"),
        bytes("0400040009000d02"),
        bytes("0400040009002801"),
        metadata_packet(b"d\0e\0f"),
        bytes("04000400310002040100020103010488"),
        bytes("0400040009000d04"),
        bytes("0400040009002802"),
        bytes("ffff"),
    ] {
        ingest_packet(&packet, &mut state, false);
    }
    assert_eq!(state.metadata.unwrap().device_name.as_deref(), Some("d"));
    assert_eq!(state.magic_keys.unwrap().irk, "88");
    assert_eq!(state.noise_control_mode, Some(4));
    assert_eq!(state.conversational_awareness_enabled, Some(false));
}

#[test]
fn sessions_capture_every_packet_on_request() {
    let mut state = SessionState::default();
    ingest_packet(&bytes("01000400"), &mut state, true);
    ingest_packet(&bytes("040004002b00ff"), &mut state, true);
    ingest_packet(&[0x00, 0x0a, 0xff], &mut state, true);
    ingest_packet(&[], &mut state, true);
    assert_eq!(state.raw_packets, vec!["01000400", "040004002b00ff", "000aff", ""]);
    assert_eq!(state.battery, None);
}

#[test]
fn reads_of_a_session() {
    let session = AAPSession::open("01:02:03:04:05:06", 0).unwrap();
    let mut state = SessionState::default();
    assert!(!session.read_next(None, &mut state, true));
    assert_eq!(state, SessionState::default());
    assert!(session.read_next(Some(&bytes("0400040009000d02")), &mut state, true));
    assert_eq!(state.noise_control_mode, Some(2));
    assert_eq!(state.raw_packets, vec!["0400040009000d02"]);
}

#[test]
fn a_packet_reports_one_thing() {
    for packet in [
        battery_packet(&[[0x02, 1, 20, 1, 1]]),
        metadata_packet(b"a\0b\0c"),
        bytes("04000400310002040000000100010077"),
        bytes("0400040009000d02"),
        bytes("0400040009002801"),
    ] {
        let mut state = SessionState::default();
        ingest_packet(&packet, &mut state, false);
        let reports = [
            state.battery.is_some(),
            state.metadata.is_some(),
            state.magic_keys.is_some(),
            state.noise_control_mode.is_some(),
            state.conversational_awareness_enabled.is_some(),
        ];
        assert_eq!(reports.iter().filter(|report| **report).count(), 1);
    }
}

#[test]
fn captured_packets_can_be_told_apart() {
    let mut state = SessionState::default();
    for packet in [&[0x01, 0x23][..], &[0x12, 0x03], &[0x01], &[0x01, 0x23, 0x00]] {
        ingest_packet(packet, &mut state, true);
    }
    for (i, packet) in state.raw_packets.iter().enumerate() {
        assert!(!state.raw_packets[..i].contains(packet));
    }
}
