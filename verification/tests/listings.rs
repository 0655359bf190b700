use linux_airpods_cli::bluez::{
    bluetooth_info, bluetooth_info_via_busctl, bluez_device_property, bluez_properties, connected,
    find_device_path, info_missing, info_says_yes, strip_tree_prefix, PathCache,
};
use linux_airpods_cli::command::CommandResult;
use linux_airpods_cli::pulse::{
    current_default_sink, find_airpods_card, find_airpods_sink, find_fallback_sink,
    list_sink_inputs, move_stream_commands,
};
use linux_airpods_cli::text::is_whitespace;
use linux_airpods_cli::{
    airpods_like_name, normalize_mac_colon, normalize_mac_underscore, parse_bluetooth_devices,
    parse_bluetooth_info, parse_short_cards, parse_short_sinks, Card, Device, Sink,
};

fn device(mac: &str, name: &str) -> Device {
    Device { mac: mac.into(), name: name.into() }
}

fn result(code: i32, stdout: &str) -> CommandResult {
    CommandResult { code, stdout: stdout.into(), stderr: String::new() }
}

#[test]
fn white_space_is_that_of_unicode() {
    for c in '\0'..=char::MAX {
        assert_eq!(is_whitespace(c), c.is_whitespace(), "{c:?}");
    }
}

#[test]
fn device_lines_need_an_address_and_a_name() {
    assert_eq!(parse_bluetooth_devices(""), vec![]);
    assert_eq!(parse_bluetooth_devices("Device"), vec![]);
    assert_eq!(parse_bluetooth_devices("Device AA"), vec![]);
    assert_eq!(parse_bluetooth_devices("Device  AA Pods"), vec![]);
    assert_eq!(parse_bluetooth_devices("Controller AA Pods"), vec![]);
    assert_eq!(parse_bluetooth_devices("Device\tAA Pods"), vec![]);
    assert_eq!(parse_bluetooth_devices("  Device AA   Pods  "), vec![device("AA", "Pods")]);
    assert_eq!(parse_bluetooth_devices("Device AA\tMy Pods\r\n"), vec![device("AA", "My Pods")]);
}

#[test]
fn colours_in_listings_make_no_difference() {
    let plain = "Device AA My Pods\n";
    let coloured = "\u{1b}[0;94mDevice AA \u{1b}[1mMy\u{1b}[m Pods\u{1b}[0m\n";
    assert_eq!(parse_bluetooth_devices(coloured), parse_bluetooth_devices(plain));
    let info = parse_bluetooth_info("\u{1b}[32mConnected\u{1b}[0m: yes");
    assert_eq!(info.get("Connected"), Some(&"yes".to_owned()));
}

#[test]
fn broken_colours_stay() {
    let devices = parse_bluetooth_devices("Device AA \u{1b}[31x \u{1b}[3\u{1b}[1mm");
    assert_eq!(devices, vec![device("AA", "\u{1b}[31x \u{1b}[3m")]);
}

#[test]
fn listings_are_read_line_by_line() {
    let first = "Device AA One\n";
    let second = "noise\nDevice BB Two\n";
    let mut both = parse_bluetooth_devices(first);
    both.extend(parse_bluetooth_devices(second));
    assert_eq!(parse_bluetooth_devices(&format!("{first}{second}")), both);
    assert_eq!(both, vec![device("AA", "One"), device("BB", "Two")]);
}

#[test]
fn device_listings_read_back() {
    let devices = vec![device("AA:BB", "Pods"), device("CC:DD", "Other  Pods (2)")];
    let listing: String = devices
        .iter()
        .map(|device| format!("Device {} {}\n", device.mac, device.name))
        .collect();
    assert_eq!(parse_bluetooth_devices(&listing), devices);
}

#[test]
fn description_lines() {
    let info = parse_bluetooth_info(
        "Device AA (public)\n\tName: Pods: the second\n\tEmpty:\n\tno colon\n\n\tName: Last\n",
    );
    assert_eq!(info.get("Name"), Some(&"Last".to_owned()));
    assert_eq!(info.get("Empty"), Some(&"".to_owned()));
    assert_eq!(info.get("no colon"), None);
    assert_eq!(info.len(), 2);
    let info = parse_bluetooth_info("Name: Pods: the second");
    assert_eq!(info.get("Name"), Some(&"Pods: the second".to_owned()));
}

#[test]
fn description_lines_read_back() {
    let info = parse_bluetooth_info("Icon: audio headset\nAlias: ");
    assert_eq!(info.get("Icon"), Some(&"audio headset".to_owned()));
    assert_eq!(info.get("Alias"), Some(&"".to_owned()));
}

#[test]
fn descriptions_of_failed_commands_are_empty() {
    let nothing = || bluetooth_info_via_busctl(&vec![]);
    assert!(info_missing(&bluetooth_info(nothing(), None)));
    assert!(info_missing(&bluetooth_info(nothing(), Some(result(1, "Connected: yes")))));
    let info = bluetooth_info(nothing(), Some(result(0, "Connected: yes")));
    assert!(!info_missing(&info));
    assert!(connected(&info));
    assert!(!info_says_yes(&info, "Paired"));
    assert!(!connected(&bluetooth_info(nothing(), Some(result(0, "Connected: YES")))));
}

#[test]
fn the_bus_goes_before_the_command() {
    let bus = bluetooth_info_via_busctl(&vec![Some("Bus".to_owned())]);
    let info = bluetooth_info(bus, Some(result(0, "Name: Command\nConnected: yes")));
    assert_eq!(info.get("Name"), Some(&"Bus".to_owned()));
    assert!(!connected(&info));
}

#[test]
fn sink_lines() {
    assert_eq!(
        parse_short_sinks("7\tname\tdriver\ts16le 2ch\tIDLE\n"),
        vec![Sink { sink_id: 7, name: "name".into(), state: "IDLE".into() }]
    );
    assert_eq!(parse_short_sinks("7 name driver IDLE"), vec![]);
    assert_eq!(parse_short_sinks("x name driver format IDLE"), vec![]);
    assert_eq!(parse_short_sinks("2147483648 name driver format IDLE"), vec![]);
    assert_eq!(parse_short_sinks("-2147483648 a b c d")[0].sink_id, i32::MIN);
    assert_eq!(parse_short_sinks("+5 a b c d")[0].sink_id, 5);
    assert_eq!(parse_short_sinks("- a b c d"), vec![]);
    assert_eq!(parse_short_sinks("0000000000000000000000000009 a b c d")[0].sink_id, 9);
    assert_eq!(parse_short_sinks("99999999999999999999999999 a b c d"), vec![]);
}

#[test]
fn card_and_stream_lines() {
    assert_eq!(
        parse_short_cards("52\tcard\tdriver\n\n1\n3 other"),
        vec![
            Card { card_id: 52, name: "card".into() },
            Card { card_id: 3, name: "other".into() },
        ]
    );
    assert_eq!(list_sink_inputs(Some(result(0, "12\ta\tb\nx\n  -3\n"))), vec![12, -3]);
    assert_eq!(list_sink_inputs(Some(result(1, "12\n"))), Vec::<i32>::new());
    assert_eq!(list_sink_inputs(None), Vec::<i32>::new());
}

#[test]
fn every_stream_is_moved() {
    let commands = move_stream_commands(Some(result(0, "12\ta\nx\n-3\n")), "sink");
    let args: Vec<String> = commands.iter().map(|command| command.args.join(" ")).collect();
    assert_eq!(args, vec!["pactl move-sink-input 12 sink", "pactl move-sink-input -3 sink"]);
    assert!(commands.iter().all(|command| !command.check && command.timeout_seconds == 10));
    assert!(move_stream_commands(Some(result(1, "12")), "sink").is_empty());
    assert!(move_stream_commands(None, "sink").is_empty());
}

#[test]
fn default_sink_is_trimmed() {
    assert_eq!(current_default_sink(Some(result(0, " alsa \n"))), Some("alsa".to_owned()));
    assert_eq!(current_default_sink(Some(result(0, " \n"))), None);
    assert_eq!(current_default_sink(Some(result(2, "alsa"))), None);
    assert_eq!(current_default_sink(None), None);
}

#[test]
fn address_forms() {
    assert_eq!(normalize_mac_colon("aa_bb:0c"), "AA:BB:0C");
    assert_eq!(normalize_mac_underscore("aa_bb:0c"), "AA_BB_0C");
    for mac in ["aa:bb", "AA_BB", "Aa:bB_c"] {
        let colon = normalize_mac_colon(mac);
        let underscore = normalize_mac_underscore(mac);
        assert_eq!(normalize_mac_colon(&colon), colon);
        assert_eq!(normalize_mac_colon(&underscore), colon);
        assert_eq!(normalize_mac_underscore(&colon), underscore);
        assert_eq!(normalize_mac_underscore(&underscore), underscore);
        assert_eq!(normalize_mac_colon(&mac.to_ascii_lowercase()), colon);
    }
    assert_eq!(normalize_mac_colon("ä_"), "ä:");
}

#[test]
fn names_ignore_case() {
    for name in ["AIRPODS", "my bEaTs", "airpods"] {
        assert!(airpods_like_name(name));
    }
    for name in ["", "air pods", "beat"] {
        assert!(!airpods_like_name(name));
    }
}

#[test]
fn sinks_and_cards_of_a_device() {
    let sinks = parse_short_sinks(
        "1 alsa_output a b RUNNING\n2 bluez_output.AA_BB.1 a b IDLE\n3 bluez_output.AA:BB a b IDLE\n",
    );
    assert_eq!(find_airpods_sink(&sinks, "aa:bb").unwrap().sink_id, 2);
    assert_eq!(find_airpods_sink(&sinks, "aa_bb").unwrap().sink_id, 2);
    assert_eq!(find_airpods_sink(&sinks, "cc:dd"), None);
    let cards = parse_short_cards("1 bluez_card.AA:BB x\n2 bluez_card.AA_BB x\n");
    for mac in ["aa:bb", "aa_bb", "AA:BB", "AA_BB"] {
        assert_eq!(find_airpods_card(&cards, mac).unwrap().card_id, 2);
        assert_eq!(find_airpods_sink(&sinks, mac).unwrap().sink_id, 2);
    }
    assert_eq!(find_airpods_card(&cards, "cc:dd"), None);
    assert_eq!(find_fallback_sink(&sinks, Some("x")).unwrap().sink_id, 1);
    assert_eq!(find_fallback_sink(&sinks, Some("alsa_output")), None);
    assert_eq!(find_fallback_sink(&sinks, None).unwrap().sink_id, 1);
}

#[test]
fn tree_listings() {
    assert_eq!(strip_tree_prefix("    ├─ /org/bluez/hci0 "), "/org/bluez/hci0");
    assert_eq!(strip_tree_prefix("\u{a0}└─/a ─ b"), "/a ─ b");
    assert_eq!(strip_tree_prefix("/a├"), "/a├");
    let tree = "└─ /org/bluez\n  └─ /org/bluez/hci0\n    ├─ /org/bluez/hci0/dev_AA_BB\n    └─ /org/bluez/hci0/dev_AA_BB/sep1\n";
    assert_eq!(
        find_device_path(tree, "aa:bb"),
        Some("/org/bluez/hci0/dev_AA_BB".to_owned())
    );
    assert_eq!(find_device_path(tree, "cc:dd"), None);
}

#[test]
fn paths_are_remembered_once_listed() {
    let mut cache = PathCache::new();
    assert_eq!(cache.lookup("aa:bb"), None);
    assert_eq!(cache.bluez_device_path("aa:bb", &result(1, "/dev_AA_BB")), None);
    assert_eq!(cache.lookup("aa:bb"), None);
    assert_eq!(
        cache.bluez_device_path("aa:bb", &result(0, "- x\n/dev_AA_BB")),
        Some("/dev_AA_BB".to_owned())
    );
    assert_eq!(cache.lookup("AA_BB"), Some(Some("/dev_AA_BB".to_owned())));
    assert_eq!(cache.bluez_device_path("cc:dd", &result(0, "")), None);
    assert_eq!(cache.lookup("cc:dd"), Some(None));
}

#[test]
fn properties_of_the_bus() {
    let property = |stdout: &str| bluez_device_property(&result(0, stdout));
    assert_eq!(property(r#"{"type":"s","data":"AirPods"}"#), Some("AirPods".to_owned()));
    assert_eq!(property(r#"{"data":true}"#), Some("yes".to_owned()));
    assert_eq!(property(r#"{"data":false}"#), Some("no".to_owned()));
    assert_eq!(property(r#"{"data":[true,"a",[1,false]]}"#), Some("yes a 1 no".to_owned()));
    assert_eq!(property(r#"{"data":[]}"#), Some(String::new()));
    assert_eq!(property(r#"{"data":null}"#), Some("null".to_owned()));
    assert_eq!(property(r#"{"data":-7}"#), Some("-7".to_owned()));
    assert_eq!(property(r#"{"data":{"a":1}}"#), Some(r#"{"a":1}"#.to_owned()));
    assert_eq!(property(r#"{"type":"s"}"#), None);
    assert_eq!(property(r#"["data"]"#), None);
    assert_eq!(property("no json"), None);
    assert_eq!(bluez_device_property(&result(1, r#"{"data":true}"#)), None);
}

#[test]
fn the_classic_bearer_follows_the_device() {
    let names = bluez_properties();
    assert_eq!(names.len(), 14);
    let mut values: Vec<Option<String>> = vec![None; names.len()];
    assert!(info_missing(&bluetooth_info_via_busctl(&values)));
    values[0] = Some("Pods".to_owned());
    values[8] = Some("yes".to_owned());
    let info = bluetooth_info_via_busctl(&values);
    assert_eq!(names[8], "Connected");
    assert_eq!(info.get("Name"), Some(&"Pods".to_owned()));
    assert_eq!(info.get("Connected"), Some(&"yes".to_owned()));
    assert_eq!(info.get("BREDR.Connected"), Some(&"yes".to_owned()));
    assert_eq!(info.get("BREDR.Bonded"), None);
    assert_eq!(info.len(), 3);
}

#[test]
fn every_listing_is_read_line_by_line() {
    let (first, second) = ("1 a b c IDLE\nnoise\n", "2 x y z RUNNING\r\n3");
    let both = format!("{first}{second}");
    let mut sinks = parse_short_sinks(first);
    sinks.extend(parse_short_sinks(second));
    assert_eq!(parse_short_sinks(&both), sinks);
    assert_eq!(sinks[1].state, "RUNNING");
    let mut cards = parse_short_cards(first);
    cards.extend(parse_short_cards(second));
    assert_eq!(parse_short_cards(&both), cards);
    let streams = |text: &str| list_sink_inputs(Some(result(0, text)));
    assert_eq!(streams(&both), vec![1, 2, 3]);
    assert_eq!(streams(&both), [streams(first), streams(second)].concat());
    let info = parse_bluetooth_info("A: 1\nB: 2\nA: 3");
    assert_eq!(info.get("A"), Some(&"3".to_owned()));
    assert_eq!(info.get("B"), Some(&"2".to_owned()));
}
