use linux_airpods_cli::aap::{
    parse_battery_packet, parse_magic_keys_packet, parse_metadata_packet,
};
use linux_airpods_cli::{
    airpods_like_name, parse_bluetooth_devices, parse_bluetooth_info, parse_short_cards,
    parse_short_sinks, Device,
};

#[test]
fn parses_bluetooth_devices() {
    let output = "Device 74:77:86:57:67:2A AirPods Pro 3\nDevice 28:34:FF:27:A6:B2 iPhone\n";
    let devices = parse_bluetooth_devices(output);
    assert_eq!(
        devices,
        vec![
            Device {
                mac: "74:77:86:57:67:2A".into(),
                name: "AirPods Pro 3".into(),
            },
            Device {
                mac: "28:34:FF:27:A6:B2".into(),
                name: "iPhone".into(),
            },
        ]
    );
}

#[test]
fn parses_bluetooth_info() {
    let output =
        "Name: AirPods Pro 3\nConnected: yes\nPaired: yes\nTrusted: no\nBREDR.Connected: yes\n";
    let info = parse_bluetooth_info(output);
    assert_eq!(info.get("Name"), Some(&"AirPods Pro 3".to_owned()));
    assert_eq!(info.get("Connected"), Some(&"yes".to_owned()));
    assert_eq!(info.get("BREDR.Connected"), Some(&"yes".to_owned()));
}

#[test]
fn parses_short_sinks() {
    let output = "63 alsa_output.pci-0000_00_1f.3-platform-sof_sdw.HiFi__Speaker__sink PipeWire s32le 2ch 48000Hz SUSPENDED\n105 bluez_output.74:77:86:57:67:2A PipeWire float32le 2ch 48000Hz RUNNING\n";
    let sinks = parse_short_sinks(output);
    assert_eq!(sinks[1].name, "bluez_output.74:77:86:57:67:2A");
    assert_eq!(sinks[1].state, "RUNNING");
}

#[test]
fn parses_short_cards() {
    let output = "52 alsa_card.pci-0000_00_1f.3-platform-sof_sdw alsa\n94 bluez_card.74_77_86_57_67_2A module-bluez5-device.c\n";
    let cards = parse_short_cards(output);
    assert_eq!(cards[1].name, "bluez_card.74_77_86_57_67_2A");
}

#[test]
fn detects_airpods_names() {
    assert!(airpods_like_name("AirPods Pro 3"));
    assert!(airpods_like_name("Beats Studio Buds"));
    assert!(!airpods_like_name("iPhone"));
}

#[test]
fn parses_aap_battery_packet() {
    let packet = hex::decode("04000400040003020160020104016202010801000401").unwrap();
    let battery = parse_battery_packet(&packet).unwrap();
    assert_eq!(battery.right.level, Some(96));
    assert_eq!(battery.left.level, Some(98));
    assert!(battery.left.available);
    assert!(!battery.case_unit.available);
    assert_eq!(battery.primary.as_deref(), Some("right"));
    assert_eq!(battery.secondary.as_deref(), Some("left"));
}

#[test]
fn parses_aap_metadata_packet() {
    let packet = hex::decode(
        "040004001d0002ed000400416972506f64732050726f2033004133303633004170706c6520496e632e00",
    )
    .unwrap();
    let metadata = parse_metadata_packet(&packet).unwrap();
    assert_eq!(metadata.device_name.as_deref(), Some("AirPods Pro 3"));
    assert_eq!(metadata.model_number.as_deref(), Some("A3063"));
    assert_eq!(metadata.manufacturer.as_deref(), Some("Apple Inc."));
}

#[test]
fn parses_magic_keys_packet() {
    let packet = hex::decode(
        "0400040031000201001000b0b6db71ab06f97626b7715fad2622040400100030f3071127b81b2cb42a809fafe9d1f8",
    )
    .unwrap();
    let keys = parse_magic_keys_packet(&packet).unwrap();
    assert_eq!(keys.irk, "b0b6db71ab06f97626b7715fad262204");
    assert_eq!(keys.enc_key, "30f3071127b81b2cb42a809fafe9d1f8");
}
