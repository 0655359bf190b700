use linux_airpods_cli::aap::{
    parse_battery_packet, BatteryStatus, MagicKeys, Metadata, SessionState,
};
use linux_airpods_cli::cache::{
    base_variable, default_cache_file, state_base, state_dir, temporary_extension, StateBase,
};
use linux_airpods_cli::command::{
    cards_command, command_display, command_result, default_sink_command, devices_command,
    disconnect_command, info_command, missing_command, move_stream_command, property_command,
    reset_command, restart_audio_command, set_default_sink_command, set_profile_command,
    sink_inputs_command, sinks_command, tree_command, CommandAttempt, CommandLine,
};
use linux_airpods_cli::property::{stringify_bluez_value, yes_no, PropertyValue};
use linux_airpods_cli::record::{
    absent_record, battery_payload, error_record, keys_payload, update_record,
};
use linux_airpods_cli::report::{
    battery_report, capitalize, connect_report, devices_report, disconnect_report, fix_report,
    human_status, keys_report, ListedDevice,
};
use linux_airpods_cli::status::{
    build_status, require_battery, require_connected, require_disconnected, require_keys,
    require_sink, Purpose, StatusPayload,
};
use linux_airpods_cli::wav::build_silence_wav;
use linux_airpods_cli::{parse_bluetooth_info, Card, Device, Sink};

fn device() -> Device {
    Device { mac: "AA:BB".into(), name: "Pods".into() }
}

fn status(info: &str, with_sink: bool, default_sink: Option<&str>) -> StatusPayload {
    let info = parse_bluetooth_info(info);
    let sink = Sink { sink_id: 1, name: "bluez_output".into(), state: "IDLE".into() };
    let card = Card { card_id: 2, name: "bluez_card".into() };
    build_status(
        &device(),
        &info,
        if with_sink { Some(&sink) } else { None },
        if with_sink { Some(&card) } else { None },
        default_sink.map(str::to_owned),
    )
}

fn battery() -> BatteryStatus {
    parse_battery_packet(
        &hex::decode("04000400040003020160020104016201010801000401").unwrap(),
    )
    .unwrap()
}

#[test]
fn statuses() {
    let full = status(
        "Name: Mine\nAlias: Alias\nPaired: yes\nTrusted: no\nConnected: yes\nBREDR.Connected: yes",
        true,
        Some("bluez_output"),
    );
    assert_eq!(full.name, "Mine");
    assert_eq!(full.alias, "Alias");
    assert_eq!(full.mac, "AA:BB");
    assert!(full.paired && !full.trusted && full.connected && full.breder_connected);
    assert_eq!(full.sink.as_deref(), Some("bluez_output"));
    assert_eq!(full.sink_state.as_deref(), Some("IDLE"));
    assert_eq!(full.card.as_deref(), Some("bluez_card"));
    assert!(full.default_is_airpods);
    assert_eq!(full.raw_packets, None);
    let bare = status("", false, Some("bluez_output"));
    assert_eq!((bare.name.as_str(), bare.alias.as_str()), ("Pods", "Pods"));
    assert!(!bare.default_is_airpods);
    assert!(!status("", true, Some("alsa")).default_is_airpods);
    assert!(!status("", true, None).default_is_airpods);
}

#[test]
fn sessions_fill_in_a_status() {
    let mut filled = status("Connected: yes", true, None);
    let before = filled.clone();
    let state = SessionState {
        battery: Some(battery()),
        metadata: Some(Metadata::default()),
        magic_keys: None,
        noise_control_mode: Some(3),
        conversational_awareness_enabled: Some(false),
        raw_packets: vec!["ff".into()],
    };
    filled.apply_session_state(state);
    assert_eq!(filled.battery, Some(battery()));
    assert_eq!(filled.noise_control_mode, Some(3));
    assert_eq!(filled.raw_packets, Some(vec!["ff".to_owned()]));
    assert_eq!(filled.name, before.name);
    assert_eq!(filled.sink, before.sink);
}

#[test]
fn a_status_as_text() {
    assert_eq!(
        human_status(&status("Connected: yes", false, None)),
        vec![
            "Name:            Pods",
            "MAC:             AA:BB",
            "Paired:          no",
            "Trusted:         no",
            "Connected:       yes",
            "BR/EDR:          no",
            "Card:            -",
            "Sink:            -",
            "Sink state:      -",
            "Default sink:    -",
            "Default AirPods: no",
        ]
    );
    let mut full = status("", true, Some("bluez_output"));
    full.battery = Some(battery());
    full.metadata = Some(Metadata {
        device_name: Some("x".into()),
        model_number: Some("A3063".into()),
        manufacturer: None,
    });
    full.noise_control_mode = Some(2);
    full.conversational_awareness_enabled = Some(true);
    assert_eq!(
        human_status(&full)[6..],
        [
            "Card:            bluez_card",
            "Sink:            bluez_output",
            "Sink state:      IDLE",
            "Default sink:    bluez_output",
            "Default AirPods: yes",
            "Battery:",
            "  left    98% charging",
            "  right   96%",
            "  case    unavailable",
            "  headset unavailable",
            "Metadata:",
            "  Model number:  A3063",
            "  Manufacturer:  -",
            "Noise control:   2",
            "CA enabled:      yes",
        ]
    );
}

#[test]
fn a_battery_as_text() {
    let mut report = battery();
    assert_eq!(
        battery_report(&device(), &report),
        vec![
            "Name: Pods",
            "MAC:  AA:BB",
            "Left    98% charging",
            "Right   96%",
            "Case    unavailable",
            "Headset unavailable",
        ]
    );
    report.headset.available = true;
    assert_eq!(battery_report(&device(), &report)[5], "Headset -%");
}

#[test]
fn other_reports() {
    let keys = MagicKeys { irk: "01".into(), enc_key: "02".into() };
    assert_eq!(
        keys_report(&device(), &keys),
        vec!["Name:    Pods", "MAC:     AA:BB", "IRK:     01", "Enc key: 02"]
    );
    assert_eq!(devices_report(&vec![]), vec!["No AirPods-like devices found."]);
    assert_eq!(
        devices_report(&vec![
            ListedDevice { device: device(), connected: true },
            ListedDevice { device: device(), connected: false },
        ]),
        vec!["AA:BB  Pods (connected)", "AA:BB  Pods"]
    );
    let shown = status("", true, Some("alsa"));
    assert_eq!(
        connect_report(&shown, true),
        vec![
            "Connected to Pods",
            "Sink: bluez_output",
            "Default sink set to: bluez_output",
        ]
    );
    assert_eq!(connect_report(&status("", false, None), false), vec!["Connected to Pods", "Sink: -"]);
    assert_eq!(
        fix_report(&shown),
        vec!["Recovered Pods", "Sink: bluez_output", "Default sink: alsa"]
    );
    assert_eq!(disconnect_report(&device()), "Disconnected Pods");
}

#[test]
fn records() {
    let device = device();
    let absent = absent_record(&device);
    assert_eq!((absent.name, absent.mac, absent.connected), ("Pods", "AA:BB", false));
    let failed = error_record(&device, true, "broken");
    assert_eq!(
        (failed.name, failed.mac, failed.connected, failed.error),
        ("Pods", "AA:BB", true, "broken")
    );
    let state = SessionState {
        battery: Some(battery()),
        metadata: None,
        magic_keys: Some(MagicKeys { irk: "01".into(), enc_key: "02".into() }),
        noise_control_mode: Some(3),
        conversational_awareness_enabled: Some(false),
        raw_packets: vec!["ff".into()],
    };
    let update = update_record(&device, &state);
    assert!(update.connected);
    assert_eq!(update.told, battery_payload(&device, &state));
    assert_eq!((update.told.name, update.told.mac), ("Pods", "AA:BB"));
    assert_eq!(update.told.battery, &Some(battery()));
    assert_eq!(update.told.metadata, &None);
    assert_eq!(update.told.magic_keys, &state.magic_keys);
    assert_eq!(update.told.noise_control_mode, Some(3));
    assert_eq!(update.told.conversational_awareness_enabled, Some(false));
    assert_eq!(update.told.raw_packets, &vec!["ff".to_owned()]);
    let keys = state.magic_keys.as_ref().unwrap();
    let payload = keys_payload(&device, keys, &state.raw_packets, true);
    assert_eq!((payload.name, payload.mac), ("Pods", "AA:BB"));
    assert_eq!((payload.irk, payload.enc_key), ("01", "02"));
    assert_eq!(payload.raw_packets, Some(&state.raw_packets));
    assert_eq!(keys_payload(&device, keys, &state.raw_packets, false).raw_packets, None);
}

#[test]
fn capital_letters() {
    assert_eq!(capitalize(""), "");
    assert_eq!(capitalize("left"), "Left");
    assert_eq!(capitalize("LEFT"), "LEFT");
    assert_eq!(capitalize("ärger"), "Ärger");
    assert_eq!(capitalize("ßa"), "SSa");
    assert_eq!(capitalize("1a"), "1a");
}

#[test]
fn what_has_to_be_there() {
    assert_eq!(require_connected(Purpose::Status, true), Ok(()));
    assert_eq!(
        require_connected(Purpose::Status, false),
        Err("AirPods are not connected, so AAP status is unavailable.")
    );
    assert_eq!(
        require_connected(Purpose::Battery, false),
        Err("AirPods must be connected before querying AAP battery.")
    );
    assert_eq!(
        require_connected(Purpose::Keys, false),
        Err("AirPods must be connected before requesting AAP keys.")
    );
    assert_eq!(
        require_connected(Purpose::Monitor, false),
        Err("AirPods must be connected before starting monitor.")
    );
    let mut state = SessionState::default();
    assert_eq!(
        require_battery(&state),
        Err("No battery packet received from the AirPods.")
    );
    assert_eq!(
        require_keys(&state),
        Err("No Magic Cloud Keys packet received from the AirPods.")
    );
    state.battery = Some(battery());
    state.magic_keys = Some(MagicKeys { irk: "01".into(), enc_key: "02".into() });
    assert_eq!(require_battery(&state), Ok(&battery()));
    assert_eq!(require_keys(&state).unwrap().irk, "01");
    assert_eq!(require_sink(None), Err("No AirPods sink exists yet. Connect first."));
    let sink = Sink { sink_id: 1, name: "a".into(), state: "b".into() };
    assert_eq!(require_sink(Some(sink.clone())), Ok(sink));
    assert_eq!(require_disconnected(true), Ok(()));
    assert_eq!(require_disconnected(false), Err("Failed to disconnect device"));
}

#[test]
fn property_values() {
    assert_eq!(yes_no(true), "yes");
    assert_eq!(yes_no(false), "no");
    let nested = PropertyValue::Array(vec![
        PropertyValue::Text("a b".into()),
        PropertyValue::Array(vec![]),
        PropertyValue::Other("7".into()),
        PropertyValue::Bool(true),
    ]);
    assert_eq!(stringify_bluez_value(&nested), "a b  7 yes");
}

fn shown(command: CommandLine) -> (String, u64, bool) {
    (command_display(&command.args), command.timeout_seconds, command.check)
}

#[test]
fn commands() {
    for (command, display, seconds, check) in [
        (devices_command(), "bluetoothctl devices", 10, true),
        (info_command("AA"), "bluetoothctl info AA", 10, false),
        (tree_command(), "busctl --system tree org.bluez", 10, false),
        (
            property_command("/p", "Name"),
            "busctl --json=short --system get-property org.bluez /p org.bluez.Device1 Name",
            10,
            false,
        ),
        (default_sink_command(), "pactl get-default-sink", 10, false),
        (sinks_command(), "pactl list short sinks", 10, true),
        (cards_command(), "pactl list short cards", 10, true),
        (sink_inputs_command(), "pactl list short sink-inputs", 10, false),
        (set_default_sink_command("s"), "pactl set-default-sink s", 10, true),
        (set_profile_command("c"), "pactl set-card-profile c a2dp-sink", 10, false),
        (
            restart_audio_command(),
            "systemctl --user restart wireplumber pipewire pipewire-pulse",
            20,
            true,
        ),
        (disconnect_command("AA"), "bluetoothctl disconnect AA", 12, false),
        (reset_command("AA"), "bluetoothctl disconnect AA", 10, false),
        (move_stream_command(-4, "s"), "pactl move-sink-input -4 s", 10, false),
    ] {
        assert_eq!(shown(command), (display.to_owned(), seconds, check));
    }
    assert_eq!(missing_command("pactl"), "Required command not found in PATH: pactl");
}

fn exited(code: Option<i32>, stdout: &str, stderr: &str) -> CommandAttempt {
    CommandAttempt::Exited { code, stdout: stdout.into(), stderr: stderr.into() }
}

#[test]
fn results_of_commands() {
    let args = vec!["pactl".to_owned(), "info".to_owned()];
    let failure = |attempt| command_result(&args, true, attempt).unwrap_err();
    let ok = command_result(&args, true, exited(Some(0), "out", "err")).unwrap();
    assert_eq!((ok.code, ok.stdout.as_str(), ok.stderr.as_str()), (0, "out", "err"));
    assert_eq!(command_result(&args, false, exited(None, "", "")).unwrap().code, 1);
    assert_eq!(command_result(&args, false, exited(Some(3), "", "")).unwrap().code, 3);
    assert_eq!(
        failure(exited(Some(1), "out", " error: no such thing \n")),
        "Command failed: pactl info\nno such thing"
    );
    assert_eq!(failure(exited(Some(1), "", "plain")), "Command failed: pactl info\nplain");
    assert_eq!(failure(exited(Some(1), " out ", " ")), "Command failed: pactl info\nout");
    assert_eq!(failure(exited(Some(-9), "", "error: ")), "Command failed: pactl info\nerror:");
    assert_eq!(failure(exited(Some(-9), "", "")), "Command failed: pactl info\nexit code -9");
    assert_eq!(failure(exited(None, "", "")), "Command failed: pactl info\nexit code 1");
    assert_eq!(failure(CommandAttempt::NotStarted), "Failed to execute command: pactl info");
    assert_eq!(failure(CommandAttempt::NotAwaited), "Failed waiting for command: pactl info");
    assert_eq!(failure(CommandAttempt::TimedOut), "Command timed out: pactl info");
    assert_eq!(failure(CommandAttempt::StdoutUnread), "Failed reading stdout: pactl info");
    assert_eq!(failure(CommandAttempt::StderrUnread), "Failed reading stderr: pactl info");
    assert_eq!(
        command_result(&vec![], false, CommandAttempt::TimedOut),
        Err("No command provided".to_owned())
    );
}

#[test]
fn places_of_records() {
    assert_eq!(state_base(true, false), Ok(StateBase::XdgStateHome));
    assert_eq!(state_base(true, true), Ok(StateBase::XdgStateHome));
    assert_eq!(state_base(false, true), Ok(StateBase::Home));
    assert_eq!(state_base(false, false), Err("HOME is not set"));
    assert_eq!(base_variable(StateBase::XdgStateHome), "XDG_STATE_HOME");
    assert_eq!(base_variable(StateBase::Home), "HOME");
    assert_eq!(state_dir(StateBase::XdgStateHome), vec!["linux-airpods-cli"]);
    assert_eq!(state_dir(StateBase::Home), vec![".local", "state", "linux-airpods-cli"]);
    assert_eq!(default_cache_file("aa:bb"), "linux-airpods-cli-AA_BB.json");
    assert_eq!(temporary_extension(Some("json")), "json.tmp");
    assert_eq!(temporary_extension(None), "tmp");
}

#[test]
fn silence() {
    let wav = build_silence_wav(9600);
    assert_eq!(wav.len(), 44 + 38_400);
    assert_eq!(&wav[0..4], b"RIFF");
    assert_eq!(wav[4..8], 38_436u32.to_le_bytes());
    assert_eq!(&wav[8..16], b"WAVEfmt ");
    assert_eq!(wav[16..20], 16u32.to_le_bytes());
    assert_eq!(wav[20..22], 1u16.to_le_bytes());
    assert_eq!(wav[22..24], 2u16.to_le_bytes());
    assert_eq!(wav[24..28], 48_000u32.to_le_bytes());
    assert_eq!(wav[28..32], 192_000u32.to_le_bytes());
    assert_eq!(wav[32..34], 4u16.to_le_bytes());
    assert_eq!(wav[34..36], 16u16.to_le_bytes());
    assert_eq!(&wav[36..40], b"data");
    assert_eq!(wav[40..44], 38_400u32.to_le_bytes());
    assert!(wav[44..].iter().all(|byte| *byte == 0));
    assert_eq!(build_silence_wav(0).len(), 44);
}
