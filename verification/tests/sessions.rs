use linux_airpods_cli::aap::AAPSession;
use linux_airpods_cli::opening::{
    open_error, open_next, open_start, OpenFailure, OpenStep,
};
use linux_airpods_cli::session::{
    phase_payload, read_timeout, socket_timeout, Query, QueryEvent, QueryPhase, SocketTimeout,
    Stage,
};
use linux_airpods_cli::socket::{
    after_poll, after_recv, htobs, parse_bdaddr, poll_millis, Reading, Waiting, AAP_PSM, LINK_MODE,
};

const SECOND: u128 = 1_000_000_000;
const MILLI: u128 = 1_000_000;

fn hexed(payload: Option<Vec<u8>>) -> Option<String> {
    payload.map(hex::encode)
}

#[test]
fn addresses() {
    assert_eq!(parse_bdaddr("74:77:86:57:67:2A"), Ok([0x2a, 0x67, 0x57, 0x86, 0x77, 0x74]));
    assert_eq!(parse_bdaddr("74:77:86:57:67:2a"), Ok([0x2a, 0x67, 0x57, 0x86, 0x77, 0x74]));
    assert_eq!(parse_bdaddr("0:1:+2:03:f:ff"), Ok([0xff, 0x0f, 3, 2, 1, 0]));
    for bad in [
        "",
        "74:77:86:57:67",
        "74:77:86:57:67:2A:00",
        "74:77:86:57:67:",
        "74:77:86:57:67:100",
        "74:77:86:57:67:-1",
        "74:77:86:57:67:+",
        "74_77_86_57_67_2A",
        "7g:77:86:57:67:2A",
    ] {
        assert_eq!(parse_bdaddr(bad), Err(format!("Invalid Bluetooth MAC address: {bad}")));
    }
}

#[test]
fn the_channel_number_is_sent_low_byte_first() {
    assert_eq!(htobs(AAP_PSM), [0x01, 0x10]);
    assert_eq!(LINK_MODE, 0x0002 | 0x0004);
    assert_eq!(htobs(0xabcd), 0xabcdu16.to_le_bytes());
}

#[test]
fn waiting_and_reading() {
    assert_eq!(poll_millis(1_999_999), 1);
    assert_eq!(poll_millis(SECOND), 1000);
    assert_eq!(poll_millis(u128::MAX), i32::MAX);
    assert_eq!(poll_millis(i32::MAX as u128 * MILLI), i32::MAX);
    assert_eq!(after_poll(-1), Waiting::Failed);
    assert_eq!(after_poll(0), Waiting::TimedOut);
    assert_eq!(after_poll(1), Waiting::Ready);
    assert_eq!(after_recv(0, false), Reading::Packet { length: 0 });
    assert_eq!(after_recv(12, true), Reading::Packet { length: 12 });
    assert_eq!(after_recv(-1, true), Reading::Nothing);
    assert_eq!(after_recv(-1, false), Reading::Failed);
}

fn open_steps(failing: Option<OpenStep>) -> Vec<OpenStep> {
    let mut steps = vec![open_start()];
    loop {
        let step = *steps.last().unwrap();
        if matches!(step, OpenStep::Opened | OpenStep::Failed { .. }) {
            return steps;
        }
        steps.push(open_next(step, Some(step) != failing));
    }
}

#[test]
fn opening_a_channel() {
    let course = [
        (OpenStep::CreateSocket, OpenFailure::Socket),
        (OpenStep::SetLinkMode, OpenFailure::LinkMode),
        (OpenStep::SetReceiveTimeout, OpenFailure::Timeout),
        (OpenStep::SetSendTimeout, OpenFailure::Timeout),
        (OpenStep::ReadAddress, OpenFailure::Address),
        (OpenStep::Connect, OpenFailure::Connect),
    ];
    let mut expected: Vec<OpenStep> = course.iter().map(|(step, _)| *step).collect();
    expected.push(OpenStep::Opened);
    assert_eq!(open_steps(None), expected);
    for (i, (step, failure)) in course.iter().enumerate() {
        let mut expected: Vec<OpenStep> = course[..=i].iter().map(|(step, _)| *step).collect();
        if i > 0 {
            expected.push(OpenStep::Close { failure: *failure });
        }
        expected.push(OpenStep::Failed { failure: *failure });
        assert_eq!(open_steps(Some(*step)), expected);
    }
    assert_eq!(open_next(OpenStep::Opened, false), OpenStep::Opened);
}

#[test]
fn channels_that_cannot_be_opened() {
    let message = |failure| open_error(failure, "AA", "no route");
    assert_eq!(message(OpenFailure::Socket), "Failed to open AAP socket");
    assert_eq!(message(OpenFailure::LinkMode), "Failed configuring AAP socket security");
    assert_eq!(message(OpenFailure::Timeout), "Failed configuring AAP socket timeout");
    assert_eq!(message(OpenFailure::Address), "Invalid Bluetooth MAC address: AA");
    assert_eq!(message(OpenFailure::Connect), "Failed to open AAP session to AA: no route");
}

#[test]
fn timeouts_of_a_session() {
    let session = AAPSession::open("01:02:03:04:05:06", 0).unwrap();
    assert_eq!(session.timeout, 100 * MILLI);
    assert_eq!(session.address, [6, 5, 4, 3, 2, 1]);
    assert_eq!(AAPSession::open("01:02:03:04:05:06", 12 * SECOND).unwrap().timeout, 12 * SECOND);
    assert_eq!(
        AAPSession::open("x", SECOND),
        Err("Invalid Bluetooth MAC address: x".to_owned())
    );
    assert_eq!(read_timeout(0), 50 * MILLI);
    assert_eq!(read_timeout(SECOND), SECOND);
    assert_eq!(
        socket_timeout(2_500_000_999),
        SocketTimeout { seconds: 2, micros: 500_000 }
    );
    assert_eq!(socket_timeout(0), SocketTimeout { seconds: 0, micros: 100_000 });
    assert_eq!(hex::encode(session.request_notifications()), "040004000f00ffffffffff");
    assert_eq!(hex::encode(session.request_magic_keys()), "0400040030000500");
}

fn started(request_keys: bool, timeout: u128) -> Query {
    AAPSession::open("01:02:03:04:05:06", timeout).unwrap().query(request_keys, true)
}

/// Takes the query to its collection at the time `now`, over a silent channel.
fn collecting(request_keys: bool, timeout: u128, now: u128) -> (Query, Vec<String>) {
    let mut query = started(request_keys, timeout);
    let mut sent = Vec::new();
    while !matches!(query.phase, QueryPhase::Collect { .. }) {
        match hexed(phase_payload(query.phase)) {
            Some(payload) => {
                sent.push(payload);
                query.advance(QueryEvent::Done { now });
            }
            None => {
                if matches!(query.phase, QueryPhase::Drain { .. }) {
                    query.advance(QueryEvent::Silence { now });
                } else {
                    query.advance(QueryEvent::Done { now });
                }
            }
        }
    }
    (query, sent)
}

#[test]
fn queries_open_in_order() {
    let (_, sent) = collecting(false, SECOND, 5);
    assert_eq!(
        sent,
        vec![
            "00000400010002000000000000000000",
            "040004004d00d700000000000000",
            "040004000f00ffffffffff",
            "040004000f00ffffffffff",
        ]
    );
    let (_, sent) = collecting(true, SECOND, 5);
    assert_eq!(sent.len(), 5);
    assert_eq!(sent[4], "0400040030000500");
}

#[test]
fn queries_drain_after_their_payloads() {
    let mut query = started(false, SECOND);
    query.advance(QueryEvent::Silence { now: 3 });
    assert_eq!(query.phase, QueryPhase::SendHandshake);
    query.advance(QueryEvent::Done { now: 10 });
    assert_eq!(
        query.phase,
        QueryPhase::Drain { stage: Stage::Handshake, deadline: SECOND + 10, timeout: SECOND }
    );
    query.advance(QueryEvent::Packet { bytes: &[1, 0, 4, 0], now: SECOND });
    assert_eq!(
        query.phase,
        QueryPhase::Drain { stage: Stage::Handshake, deadline: SECOND + 10, timeout: 50 * MILLI }
    );
    query.advance(QueryEvent::Packet { bytes: &[2], now: SECOND + 10 });
    assert_eq!(query.phase, QueryPhase::SendFeatures);
    assert_eq!(query.state.raw_packets, vec!["01000400", "02"]);
    query.advance(QueryEvent::Done { now: 2 * SECOND });
    assert_eq!(
        query.phase,
        QueryPhase::Drain {
            stage: Stage::Features,
            deadline: 3_500 * MILLI,
            timeout: 1_500 * MILLI,
        }
    );
    query.advance(QueryEvent::Silence { now: 2 * SECOND });
    assert_eq!(query.phase, QueryPhase::SendNotifications);
}

#[test]
fn queries_end_when_everything_came() {
    let (mut query, _) = collecting(false, 12 * SECOND, 0);
    assert!(!query.is_complete());
    let battery = hex::decode("040004000400010201600201").unwrap();
    query.advance(QueryEvent::Packet { bytes: &battery, now: 1 });
    assert!(matches!(query.phase, QueryPhase::Collect { .. }));
    let metadata = hex::decode("040004001d0002ed000400610062006300").unwrap();
    query.advance(QueryEvent::Packet { bytes: &metadata, now: 2 });
    assert_eq!(query.phase, QueryPhase::Finished);
    assert!(query.is_complete());
    let before = query.clone();
    query.advance(QueryEvent::Packet { bytes: &battery, now: 3 });
    query.advance(QueryEvent::Done { now: 4 });
    assert_eq!(query, before);
}

#[test]
fn queries_for_keys_wait_for_them() {
    let (mut query, _) = collecting(true, 12 * SECOND, 0);
    for packet in [
        "040004000400010201600201",
        "040004001d0002ed000400610062006300",
        "0400040031000201000100010400010002",
    ] {
        assert!(matches!(query.phase, QueryPhase::Collect { .. }));
        let bytes = hex::decode(packet).unwrap();
        query.advance(QueryEvent::Packet { bytes: &bytes, now: 1 });
    }
    assert_eq!(query.phase, QueryPhase::Finished);
    assert_eq!(query.state.magic_keys.as_ref().unwrap().enc_key, "02");
}

#[test]
fn queries_end_at_their_deadline() {
    let (mut query, _) = collecting(false, SECOND, 7);
    query.advance(QueryEvent::Silence { now: SECOND + 6 });
    assert!(matches!(query.phase, QueryPhase::Collect { timeout, .. } if timeout == 100 * MILLI));
    query.advance(QueryEvent::Silence { now: SECOND + 7 });
    assert_eq!(query.phase, QueryPhase::Finished);
}

#[test]
fn requests_are_repeated_in_time() {
    let (mut query, _) = collecting(true, 12 * SECOND, 0);
    assert!(matches!(query.phase, QueryPhase::Collect { timeout, .. } if timeout == SECOND));
    query.advance(QueryEvent::Silence { now: 2 * SECOND - 1 });
    assert!(matches!(query.phase, QueryPhase::Collect { .. }));
    query.advance(QueryEvent::Silence { now: 2 * SECOND });
    assert_eq!(
        query.phase,
        QueryPhase::Renotify { deadline: 12 * SECOND, last_key: 0, now: 2 * SECOND }
    );
    query.advance(QueryEvent::Done { now: 2 * SECOND + 5 });
    assert_eq!(
        query.phase,
        QueryPhase::Collect {
            deadline: 12 * SECOND,
            last_notification: 2 * SECOND,
            last_key: 0,
            timeout: SECOND,
        }
    );
    query.advance(QueryEvent::Silence { now: 4 * SECOND });
    assert!(matches!(query.phase, QueryPhase::Renotify { .. }));
    query.advance(QueryEvent::Done { now: 4 * SECOND });
    assert_eq!(
        query.phase,
        QueryPhase::Rekey {
            deadline: 12 * SECOND,
            last_notification: 4 * SECOND,
            now: 4 * SECOND,
        }
    );
    assert_eq!(hexed(phase_payload(query.phase)).as_deref(), Some("0400040030000500"));
    query.advance(QueryEvent::Done { now: 4 * SECOND });
    assert!(matches!(
        query.phase,
        QueryPhase::Collect { last_key, .. } if last_key == 4 * SECOND
    ));
}

#[test]
fn queries_without_keys_never_ask_for_them() {
    let (mut query, sent) = collecting(false, 12 * SECOND, 0);
    assert!(!sent.contains(&"0400040030000500".to_owned()));
    for step in 1..12u128 {
        query.advance(QueryEvent::Silence { now: step * SECOND });
        if let Some(payload) = hexed(phase_payload(query.phase)) {
            assert_eq!(payload, "040004000f00ffffffffff");
            query.advance(QueryEvent::Done { now: step * SECOND });
        }
    }
    query.advance(QueryEvent::Silence { now: 12 * SECOND });
    assert_eq!(query.phase, QueryPhase::Finished);
}
