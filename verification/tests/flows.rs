use linux_airpods_cli::bluez::{bluetooth_info, bluetooth_info_via_busctl, BluetoothInfo};
use linux_airpods_cli::command::{CommandAttempt, CommandResult};
use linux_airpods_cli::connect::{
    connect_error, connect_next, connect_start, connect_succeeded, do_disconnect,
    leaves_connected, non_empty_or, step_command, ConnectEvent, ConnectOutcome, ConnectStep,
};
use linux_airpods_cli::discover::{
    after_connected, after_devices, after_environment, airpods_like_devices, device_of_info, start,
    Discovery,
};
use linux_airpods_cli::inquiry::{
    inquiry_next, inquiry_start, Inquiry, InquiryEvent, InquiryStep,
};
use linux_airpods_cli::link::{
    after_restart, connect_plan, fix_plan, is_default_sink, link_next, link_start, may_pair,
    no_sink_message, LinkEvent, LinkFailure, LinkPlan, LinkStep,
};
use linux_airpods_cli::monitor::{
    monitor_next, monitor_start, MonitorEvent, MonitorPlan, MonitorStep,
};
use linux_airpods_cli::route::{
    route_command, route_next, route_start, RouteEvent, RouteStep,
};
use linux_airpods_cli::sink_wait::{wait_for_sink, wait_next, WaitEvent, WaitStep};
use linux_airpods_cli::status::Purpose;
use linux_airpods_cli::unlink::{
    default_event, unlink_next, unlink_start, UnlinkEvent, UnlinkPlan, UnlinkStep,
};
use linux_airpods_cli::wake::{
    player_command, player_variable, wake_next, wake_start, Player, WakeEvent, WakeStep,
};
use linux_airpods_cli::{Device, Sink};

const SECOND: u128 = 1_000_000_000;

fn device(mac: &str, name: &str) -> Device {
    Device { mac: mac.into(), name: name.into() }
}

fn result(code: i32, stdout: &str, stderr: &str) -> CommandResult {
    CommandResult { code, stdout: stdout.into(), stderr: stderr.into() }
}

fn info(text: &str) -> BluetoothInfo {
    bluetooth_info(bluetooth_info_via_busctl(&vec![]), Some(result(0, text, "")))
}

fn message(discovery: Discovery) -> String {
    match discovery {
        Discovery::Failed { message } => message,
        other => panic!("{other:?}"),
    }
}

fn chosen(discovery: Discovery) -> Device {
    match discovery {
        Discovery::Chosen { device } => device,
        other => panic!("{other:?}"),
    }
}

#[test]
fn a_requested_address_needs_no_listing() {
    match start(Some("aa_bb")) {
        Discovery::QueryInfo { mac } => {
            assert_eq!(mac, "AA:BB");
            assert_eq!(
                device_of_info(mac.clone(), &info("Name: Pods\nAlias: Mine")),
                device("AA:BB", "Pods")
            );
            assert_eq!(
                device_of_info(mac.clone(), &info("Alias: Mine")),
                device("AA:BB", "Mine")
            );
            assert_eq!(device_of_info(mac, &info("")), device("AA:BB", "AA:BB"));
        }
        other => panic!("{other:?}"),
    }
    assert!(matches!(start(None), Discovery::ListDevices));
}

#[test]
fn a_requested_name_picks_a_device() {
    let devices =
        || vec![device("A", "My Pods"), device("B", "Your PODS"), device("C", "Speaker")];
    assert_eq!(chosen(after_devices(devices(), Some("SPEAK"))), device("C", "Speaker"));
    assert_eq!(
        message(after_devices(devices(), Some("Phone"))),
        "No Bluetooth device matched name: Phone"
    );
    match after_devices(devices(), Some("pods")) {
        Discovery::QueryConnected { matches, by_name } => {
            assert!(by_name);
            assert_eq!(matches, vec![device("A", "My Pods"), device("B", "Your PODS")]);
            assert_eq!(
                chosen(after_connected(&matches, &vec![false, true], true)),
                device("B", "Your PODS")
            );
            let several =
                "Multiple devices matched the requested name. Use --mac to choose one explicitly.";
            assert_eq!(message(after_connected(&matches, &vec![true, true], true)), several);
            assert_eq!(message(after_connected(&matches, &vec![false, false], true)), several);
        }
        other => panic!("{other:?}"),
    }
}

#[test]
fn the_environment_is_the_default() {
    let devices = vec![device("A", "Phone")];
    match after_devices(devices.clone(), None) {
        Discovery::ReadEnvironment { devices: listed } => assert_eq!(listed, devices),
        other => panic!("{other:?}"),
    }
    match after_environment(&devices, Some("aa_bb")) {
        Discovery::QueryInfo { mac } => assert_eq!(mac, "AA:BB"),
        other => panic!("{other:?}"),
    }
    assert_eq!(
        message(after_environment(&devices, None)),
        "No AirPods-like devices found. Pair first or pass --mac / AIRPODS_MAC."
    );
}

#[test]
fn airpods_are_chosen_by_themselves() {
    let devices = vec![device("A", "Phone"), device("B", "AirPods")];
    assert_eq!(airpods_like_devices(&devices), vec![device("B", "AirPods")]);
    assert_eq!(chosen(after_environment(&devices, None)), device("B", "AirPods"));
    let devices = vec![device("A", "Beats"), device("B", "AirPods")];
    match after_environment(&devices, None) {
        Discovery::QueryConnected { matches, by_name } => {
            assert!(!by_name);
            assert_eq!(
                chosen(after_connected(&matches, &vec![true, false], false)),
                device("A", "Beats")
            );
            assert_eq!(
                message(after_connected(&matches, &vec![false, false], false)),
                "Multiple AirPods-like devices found. Use --mac to choose one explicitly."
            );
        }
        other => panic!("{other:?}"),
    }
}

fn connect_steps(pair: bool, connected: bool, attempts: [bool; 2]) -> Vec<ConnectStep> {
    let mut steps = vec![connect_start()];
    loop {
        let step = *steps.last().unwrap();
        let event = match step {
            ConnectStep::AskConnected => ConnectEvent::Connected { connected },
            ConnectStep::Connect => ConnectEvent::Attempt { succeeded: attempts[0] },
            ConnectStep::Reconnect => ConnectEvent::Attempt { succeeded: attempts[1] },
            ConnectStep::Finished { .. } => return steps,
            _ => ConnectEvent::Done,
        };
        steps.push(connect_next(pair, step, event));
    }
}

#[test]
fn connecting() {
    let finished = |outcome| ConnectStep::Finished { outcome };
    assert_eq!(
        connect_steps(true, true, [true, true]),
        vec![
            ConnectStep::ScanOff,
            ConnectStep::AskConnected,
            finished(ConnectOutcome::AlreadyConnected),
        ]
    );
    assert_eq!(
        connect_steps(true, false, [true, true]).last(),
        Some(&finished(ConnectOutcome::Connected))
    );
    assert_eq!(
        connect_steps(false, false, [false, true]),
        vec![
            ConnectStep::ScanOff,
            ConnectStep::AskConnected,
            ConnectStep::Connect,
            finished(ConnectOutcome::Failed),
        ]
    );
    assert_eq!(
        connect_steps(true, false, [false, true]),
        vec![
            ConnectStep::ScanOff,
            ConnectStep::AskConnected,
            ConnectStep::Connect,
            ConnectStep::Pair,
            ConnectStep::Trust,
            ConnectStep::Reconnect,
            finished(ConnectOutcome::PairedDuringConnect),
        ]
    );
    assert_eq!(
        connect_steps(true, false, [false, false]).last(),
        Some(&finished(ConnectOutcome::FailedAfterPairing))
    );
    assert!(leaves_connected(ConnectOutcome::AlreadyConnected));
    assert!(leaves_connected(ConnectOutcome::Connected));
    assert!(leaves_connected(ConnectOutcome::PairedDuringConnect));
    assert!(!leaves_connected(ConnectOutcome::Failed));
    assert!(!leaves_connected(ConnectOutcome::FailedAfterPairing));
    assert_eq!(
        connect_next(true, ConnectStep::Connect, ConnectEvent::Done),
        ConnectStep::Connect
    );
}

#[test]
fn commands_of_connecting() {
    let args = |step| {
        step_command(step, "AA").map(|command| (command.args.join(" "), command.timeout_seconds))
    };
    assert_eq!(args(ConnectStep::ScanOff), Some(("bluetoothctl scan off".to_owned(), 8)));
    assert_eq!(args(ConnectStep::AskConnected), None);
    assert_eq!(args(ConnectStep::Connect), Some(("bluetoothctl connect AA".to_owned(), 20)));
    assert_eq!(args(ConnectStep::Pair), Some(("bluetoothctl pair AA".to_owned(), 25)));
    assert_eq!(args(ConnectStep::Trust), Some(("bluetoothctl trust AA".to_owned(), 10)));
    assert_eq!(args(ConnectStep::Reconnect), Some(("bluetoothctl connect AA".to_owned(), 20)));
}

#[test]
fn outcomes_of_attempts() {
    assert!(connect_succeeded(&result(0, "", "")));
    assert!(connect_succeeded(&result(1, "Connection SUCCESSFUL", "")));
    assert!(connect_succeeded(&result(1, "", "connection successful")));
    assert!(!connect_succeeded(&result(1, "connection", "successful")));
    let error = |outcome, stdout: &str, stderr: &str| {
        connect_error(outcome, &result(1, stdout, stderr))
    };
    assert_eq!(
        error(ConnectOutcome::Failed, " Failed ", "Why ").as_deref(),
        Some("failed \nwhy")
    );
    assert_eq!(error(ConnectOutcome::Failed, " ", "").as_deref(), Some("connect failed"));
    assert_eq!(
        error(ConnectOutcome::FailedAfterPairing, "Out", "").as_deref(),
        Some("out")
    );
    assert_eq!(
        error(ConnectOutcome::FailedAfterPairing, "", "\n").as_deref(),
        Some("connect failed after pair")
    );
    assert_eq!(error(ConnectOutcome::Connected, "out", ""), None);
    assert_eq!(error(ConnectOutcome::AlreadyConnected, "out", ""), None);
    assert_eq!(error(ConnectOutcome::PairedDuringConnect, "out", ""), None);
    assert_eq!(non_empty_or("a", "b"), "a");
    assert_eq!(non_empty_or("", "b"), "b");
    assert!(do_disconnect(&result(0, "", "")));
    assert!(do_disconnect(&result(1, "Successful disconnected", "")));
    assert!(do_disconnect(&result(1, "", "Device is NOT CONNECTED")));
    assert!(!do_disconnect(&result(1, "not", "connected")));
}

fn link_steps(plan: LinkPlan, connects: bool, sink: bool) -> Vec<LinkStep> {
    link_steps_with(plan, LinkEvent::Done, connects, sink)
}

fn link_steps_with(
    plan: LinkPlan,
    restart: LinkEvent,
    connects: bool,
    sink: bool,
) -> Vec<LinkStep> {
    let mut steps = vec![link_start(plan)];
    loop {
        let step = *steps.last().unwrap();
        let event = match step {
            LinkStep::RestartAudio => restart,
            LinkStep::Connect => LinkEvent::Connected { succeeded: connects },
            LinkStep::AwaitSink => LinkEvent::Sink { found: sink },
            LinkStep::Report | LinkStep::Failed { .. } => return steps,
            _ => LinkEvent::Done,
        };
        steps.push(link_next(plan, step, event));
    }
}

#[test]
fn recovery_takes_its_steps_in_order() {
    assert_eq!(
        link_steps(fix_plan(true, true), true, true),
        vec![
            LinkStep::ScanOff,
            LinkStep::Disconnect,
            LinkStep::RestartAudio,
            LinkStep::PauseAfterRestart,
            LinkStep::Connect,
            LinkStep::SelectProfile,
            LinkStep::AwaitSink,
            LinkStep::SetDefault,
            LinkStep::MoveStreams,
            LinkStep::Report,
        ]
    );
    let short = link_steps(fix_plan(false, false), true, true);
    assert!(!short.contains(&LinkStep::RestartAudio));
    assert!(!short.contains(&LinkStep::MoveStreams));
    assert!(short.contains(&LinkStep::SetDefault));
}

#[test]
fn recovery_goes_on_without_a_restart() {
    let skipped = after_restart(CommandAttempt::NotStarted).unwrap();
    assert_eq!(skipped, LinkEvent::RestartSkipped);
    assert_eq!(
        link_steps_with(fix_plan(true, true), skipped, true, true),
        vec![
            LinkStep::ScanOff,
            LinkStep::Disconnect,
            LinkStep::RestartAudio,
            LinkStep::Connect,
            LinkStep::SelectProfile,
            LinkStep::AwaitSink,
            LinkStep::SetDefault,
            LinkStep::MoveStreams,
            LinkStep::Report,
        ]
    );
    assert_eq!(
        link_next(fix_plan(true, true), LinkStep::Connect, LinkEvent::RestartSkipped),
        LinkStep::Connect
    );
}

#[test]
fn a_restart_that_was_started_has_to_succeed() {
    let display = "systemctl --user restart wireplumber pipewire pipewire-pulse";
    let exited = |code| CommandAttempt::Exited {
        code,
        stdout: String::new(),
        stderr: "Unit not found".into(),
    };
    assert_eq!(after_restart(exited(Some(0))), Ok(LinkEvent::Done));
    assert_eq!(
        after_restart(exited(Some(5))),
        Err(format!("Command failed: {display}\nUnit not found"))
    );
    assert_eq!(
        after_restart(exited(None)),
        Err(format!("Command failed: {display}\nUnit not found"))
    );
    assert_eq!(
        after_restart(CommandAttempt::TimedOut),
        Err(format!("Command timed out: {display}"))
    );
}

#[test]
fn recovery_never_pairs() {
    for requested in [false, true] {
        assert!(!may_pair(fix_plan(true, true), requested));
        assert_eq!(may_pair(connect_plan(true, true), requested), requested);
    }
    let steps = connect_steps(may_pair(fix_plan(true, true), true), false, [false, true]);
    assert!(!steps.contains(&ConnectStep::Pair));
}

fn route_steps(move_streams: bool, found: bool) -> Vec<RouteStep> {
    let mut steps = vec![route_start()];
    loop {
        let step = *steps.last().unwrap();
        let event = match step {
            RouteStep::FindSink => RouteEvent::Sink { found },
            RouteStep::Report | RouteStep::NoSink => return steps,
            _ => RouteEvent::Done,
        };
        steps.push(route_next(move_streams, step, event));
    }
}

#[test]
fn setting_the_default_sink() {
    assert_eq!(route_steps(true, false), vec![RouteStep::FindSink, RouteStep::NoSink]);
    assert_eq!(
        route_steps(true, true),
        vec![
            RouteStep::FindSink,
            RouteStep::SetDefault,
            RouteStep::MoveStreams,
            RouteStep::Report,
        ]
    );
    assert_eq!(
        route_steps(false, true),
        vec![RouteStep::FindSink, RouteStep::SetDefault, RouteStep::Report]
    );
    let command = route_command(RouteStep::SetDefault, "sink").unwrap();
    assert_eq!(command.args, vec!["pactl", "set-default-sink", "sink"]);
    assert!(command.check);
    assert_eq!(route_command(RouteStep::MoveStreams, "sink"), None);
}

#[test]
fn connections_leave_the_default_alone_on_request() {
    assert_eq!(
        link_steps(connect_plan(false, true), true, true),
        vec![
            LinkStep::Connect,
            LinkStep::SelectProfile,
            LinkStep::AwaitSink,
            LinkStep::Report,
        ]
    );
    assert_eq!(
        link_steps(connect_plan(true, true), false, true),
        vec![
            LinkStep::Connect,
            LinkStep::Failed { failure: LinkFailure::NotConnected },
        ]
    );
    assert_eq!(
        link_steps(connect_plan(true, true), true, false).last(),
        Some(&LinkStep::Failed { failure: LinkFailure::NoSink })
    );
    assert_eq!(
        no_sink_message(connect_plan(true, true)),
        "Bluetooth connected, but no PipeWire sink appeared."
    );
    assert_eq!(
        no_sink_message(fix_plan(true, true)),
        "Reconnect succeeded, but no AirPods sink appeared."
    );
}

#[test]
fn fallback_after_disconnecting() {
    let sink = Sink { sink_id: 1, name: "bluez".into(), state: "IDLE".into() };
    assert!(is_default_sink(Some(&sink), Some("bluez")));
    assert!(!is_default_sink(Some(&sink), Some("alsa")));
    assert!(!is_default_sink(None, Some("bluez")));
    assert!(!is_default_sink(Some(&sink), None));
    assert_eq!(
        default_event(Some(&sink), Some("bluez")),
        UnlinkEvent::Default { is_device: true }
    );
    assert_eq!(default_event(None, Some("bluez")), UnlinkEvent::Default { is_device: false });
}

fn unlink_steps(
    plan: UnlinkPlan,
    is_device: bool,
    succeeded: bool,
    found: bool,
) -> Vec<UnlinkStep> {
    let mut steps = vec![unlink_start()];
    loop {
        let step = *steps.last().unwrap();
        let event = match step {
            UnlinkStep::AskDefault => UnlinkEvent::Default { is_device },
            UnlinkStep::Disconnect { .. } => UnlinkEvent::Disconnected { succeeded },
            UnlinkStep::FindFallback => UnlinkEvent::Fallback { found },
            UnlinkStep::Report | UnlinkStep::Failed => return steps,
            _ => UnlinkEvent::Done,
        };
        steps.push(unlink_next(plan, step, event));
    }
}

#[test]
fn disconnecting() {
    let all = UnlinkPlan { fallback: true, move_streams: true };
    let stay = UnlinkPlan { fallback: false, move_streams: true };
    let still = UnlinkPlan { fallback: true, move_streams: false };
    assert_eq!(
        unlink_steps(all, true, true, true),
        vec![
            UnlinkStep::AskDefault,
            UnlinkStep::Disconnect { was_default: true },
            UnlinkStep::FindFallback,
            UnlinkStep::SetDefault,
            UnlinkStep::MoveStreams,
            UnlinkStep::Report,
        ]
    );
    assert_eq!(unlink_steps(all, true, false, true).last(), Some(&UnlinkStep::Failed));
    assert_eq!(unlink_steps(all, true, true, false).len(), 4);
    assert_eq!(
        unlink_steps(all, false, true, true),
        vec![
            UnlinkStep::AskDefault,
            UnlinkStep::Disconnect { was_default: false },
            UnlinkStep::Report,
        ]
    );
    assert_eq!(unlink_steps(stay, true, true, true).len(), 3);
    assert!(!unlink_steps(still, true, true, true).contains(&UnlinkStep::MoveStreams));
}

#[test]
fn waiting_for_a_sink() {
    let wait = wait_for_sink(5, 0, 0);
    assert_eq!(wait.deadline, 100_000_005);
    assert_eq!(wait.step, WaitStep::Look);
    let paused = wait_next(wait, WaitEvent::Seen { found: false });
    assert_eq!(paused.step, WaitStep::Pause { length: 50_000_000 });
    let again = wait_next(paused, WaitEvent::Woken { now: 100_000_004 });
    assert_eq!(again.step, WaitStep::Look);
    assert_eq!(wait_next(again, WaitEvent::Seen { found: true }).step, WaitStep::Found);
    let late = wait_next(paused, WaitEvent::Woken { now: 100_000_005 });
    assert_eq!(late.step, WaitStep::GivenUp);
    assert_eq!(wait_next(late, WaitEvent::Seen { found: true }), late);
    let wait = wait_for_sink(0, 12 * SECOND, SECOND / 2);
    assert_eq!((wait.deadline, wait.pause), (12 * SECOND, SECOND / 2));
    assert_eq!(wait_for_sink(u128::MAX, SECOND, 0).step, WaitStep::GivenUp);
}

fn monitor_plan(once: bool, wake: bool) -> MonitorPlan {
    MonitorPlan { once, wake, refresh_interval: 20 * SECOND, retry_interval: 3 * SECOND }
}

#[test]
fn monitoring_once() {
    let plan = monitor_plan(true, true);
    let done = MonitorEvent::Done { now: 1 };
    let connected = |connected| MonitorEvent::Connected { connected };
    let mut step = monitor_start();
    for (event, expected) in [
        (connected(true), MonitorStep::Wake),
        (done, MonitorStep::Open),
        (done, MonitorStep::Query),
        (done, MonitorStep::RecordFirst),
        (done, MonitorStep::Print),
        (done, MonitorStep::Finished),
        (done, MonitorStep::Finished),
    ] {
        step = monitor_next(plan, step, event);
        assert_eq!(step, expected);
    }
    let mut step = monitor_next(plan, monitor_start(), connected(false));
    assert_eq!(step, MonitorStep::RecordAbsent);
    step = monitor_next(plan, step, done);
    assert_eq!(step, MonitorStep::Absent);
    let mut step = monitor_next(plan, MonitorStep::Query, MonitorEvent::Error);
    assert_eq!(step, MonitorStep::AskAfterError);
    step = monitor_next(plan, step, connected(true));
    assert_eq!(step, MonitorStep::RecordError { connected: true });
    step = monitor_next(plan, step, done);
    assert_eq!(step, MonitorStep::Failed);
}

#[test]
fn monitoring_on_and_on() {
    let plan = monitor_plan(false, false);
    let done = MonitorEvent::Done { now: 7 };
    let pause = MonitorStep::Pause { length: 3 * SECOND };
    assert_eq!(
        monitor_next(plan, monitor_start(), MonitorEvent::Connected { connected: true }),
        MonitorStep::Open
    );
    assert_eq!(monitor_next(plan, MonitorStep::RecordAbsent, done), pause);
    assert_eq!(monitor_next(plan, pause, done), MonitorStep::AskConnected);
    let reading = monitor_next(plan, MonitorStep::RecordFirst, done);
    assert_eq!(reading, MonitorStep::Read { last: 7 });
    let update = monitor_next(plan, reading, MonitorEvent::Packet { now: 99 * SECOND });
    assert_eq!(update, MonitorStep::RecordUpdate { last: 7 });
    assert_eq!(monitor_next(plan, update, done), MonitorStep::AskStillConnected { last: 7 });
    assert_eq!(
        monitor_next(plan, reading, MonitorEvent::Silence { now: 20 * SECOND + 6 }),
        MonitorStep::AskStillConnected { last: 7 }
    );
    let refresh = monitor_next(plan, reading, MonitorEvent::Silence { now: 20 * SECOND + 7 });
    assert_eq!(refresh, MonitorStep::Refresh { now: 20 * SECOND + 7 });
    let asked = monitor_next(plan, refresh, done);
    assert_eq!(asked, MonitorStep::AskStillConnected { last: 20 * SECOND + 7 });
    assert_eq!(
        monitor_next(plan, asked, MonitorEvent::Connected { connected: true }),
        MonitorStep::Read { last: 20 * SECOND + 7 }
    );
    assert_eq!(
        monitor_next(plan, asked, MonitorEvent::Connected { connected: false }),
        pause
    );
    assert_eq!(
        monitor_next(plan, reading, MonitorEvent::Error),
        MonitorStep::AskAfterError
    );
    assert_eq!(
        monitor_next(plan, MonitorStep::RecordError { connected: false }, done),
        pause
    );
}

#[test]
fn intervals_of_a_monitor_have_a_least_length() {
    let plan = MonitorPlan { once: false, wake: false, refresh_interval: 0, retry_interval: 0 };
    let done = MonitorEvent::Done { now: 0 };
    assert_eq!(
        monitor_next(plan, MonitorStep::RecordAbsent, done),
        MonitorStep::Pause { length: 100_000_000 }
    );
    let reading = MonitorStep::Read { last: 0 };
    assert_eq!(
        monitor_next(plan, reading, MonitorEvent::Silence { now: 99_999_999 }),
        MonitorStep::AskStillConnected { last: 0 }
    );
    assert_eq!(
        monitor_next(plan, reading, MonitorEvent::Silence { now: 100_000_000 }),
        MonitorStep::Refresh { now: 100_000_000 }
    );
}

#[test]
fn waking_a_sink() {
    let start = wake_start();
    assert_eq!(start, WakeStep::FindSink);
    let lost = WakeStep::Finished { woken: false };
    assert_eq!(wake_next(start, WakeEvent::Sink { found: false }), lost);
    let write = wake_next(start, WakeEvent::Sink { found: true });
    assert_eq!(write, WakeStep::WriteFile);
    assert_eq!(wake_next(write, WakeEvent::File { written: false }), lost);
    let ask = wake_next(write, WakeEvent::File { written: true });
    let players = |paplay, pw_play| wake_next(ask, WakeEvent::Players { paplay, pw_play });
    assert_eq!(players(false, false), lost);
    assert_eq!(players(true, true), WakeStep::Play { player: Player::Paplay });
    let play = players(false, true);
    assert_eq!(play, WakeStep::Play { player: Player::PwPlay });
    assert_eq!(wake_next(play, WakeEvent::Played { code: None }), lost);
    assert_eq!(wake_next(play, WakeEvent::Played { code: Some(1) }), lost);
    assert_eq!(
        wake_next(play, WakeEvent::Played { code: Some(0) }),
        WakeStep::Finished { woken: true }
    );
}

#[test]
fn players() {
    let command = player_command(Player::Paplay, "sink");
    assert_eq!(command.args, vec!["paplay"]);
    assert_eq!((command.timeout_seconds, command.check), (5, false));
    assert_eq!(player_command(Player::PwPlay, "sink").args, vec!["pw-play", "--target", "sink"]);
    assert_eq!(player_variable(Player::Paplay), Some("PULSE_SINK"));
    assert_eq!(player_variable(Player::PwPlay), None);
}

fn inquiry_steps(purpose: Purpose, wake: bool, connected: bool, found: bool) -> Vec<InquiryStep> {
    let inquiry = Inquiry { purpose, wake };
    let mut steps = vec![inquiry_start()];
    loop {
        let step = *steps.last().unwrap();
        let event = match step {
            InquiryStep::AskConnected => InquiryEvent::Connected { connected },
            InquiryStep::Wake => InquiryEvent::Done,
            InquiryStep::Query { .. } => InquiryEvent::Learned { battery: found, keys: found },
            _ => return steps,
        };
        steps.push(inquiry_next(inquiry, step, event));
    }
}

#[test]
fn inquiries() {
    let ask = InquiryStep::AskConnected;
    let query = |request_keys| InquiryStep::Query { request_keys };
    assert_eq!(
        inquiry_steps(Purpose::Battery, true, false, true),
        vec![ask, InquiryStep::NotConnected]
    );
    assert_eq!(
        inquiry_steps(Purpose::Battery, true, true, true),
        vec![ask, InquiryStep::Wake, query(false), InquiryStep::Report]
    );
    assert_eq!(
        inquiry_steps(Purpose::Battery, false, true, false),
        vec![ask, query(false), InquiryStep::NothingReceived]
    );
    assert_eq!(
        inquiry_steps(Purpose::Keys, false, true, true),
        vec![ask, query(true), InquiryStep::Report]
    );
    assert_eq!(
        inquiry_steps(Purpose::Keys, false, true, false).last(),
        Some(&InquiryStep::NothingReceived)
    );
    assert_eq!(
        inquiry_steps(Purpose::Status, false, true, false),
        vec![ask, query(false), InquiryStep::Report]
    );
}
