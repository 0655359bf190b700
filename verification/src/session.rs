//! A session on the control channel of a device.
//!
//! A [`Query`] says in its phase what is to be done on the channel next: send a
//! payload, wait for a packet, or pause.  [`Query::advance`] takes what came of it.

use vstd::prelude::*;

use crate::aap::{
    fresh_session, ingest_packet, ingested, SessionModel, SessionState, AAPP_HANDSHAKE,
    AAPP_REQUEST_MAGIC_KEYS, AAPP_REQUEST_NOTIFICATIONS, AAPP_SET_SPECIFIC_FEATURES,
};
use crate::socket::{bdaddr_of, invalid_mac_message, parse_bdaddr};
use crate::timing::{
    after, at_least, at_most, elapsed, later_by, longer, shorter, span, SECOND,
};

verus! {

/// The least time that a session waits for a reply.
pub const SESSION_LEAST: u128 = 100_000_000;

/// The least time that a single read waits for a packet.
pub const READ_LEAST: u128 = 50_000_000;

/// How long packets are read after the handshake.
pub const HANDSHAKE_DRAIN: u128 = 1_000_000_000;

/// How long packets are read after the features were set.
pub const FEATURES_DRAIN: u128 = 1_500_000_000;

/// The pause between two requests in a row.
pub const REQUEST_PAUSE: u128 = 100_000_000;

/// How long notifications may be missing before they are requested again.
pub const NOTIFICATION_PATIENCE: u128 = 2_000_000_000;

/// How long keys may be missing before they are requested again.
pub const KEY_PATIENCE: u128 = 3_000_000_000;

/// A session with one device: its address on the channel, and how long the session
/// waits for what it asks for.
#[derive(Debug, Clone, Copy, PartialEq, Eq)]
pub struct AAPSession {
    pub address: [u8; 6],
    pub timeout: u128,
}

/// The reads that follow the first two payloads.
#[derive(Debug, Clone, Copy, PartialEq, Eq, Structural)]
pub enum Stage {
    Handshake,
    Features,
}

/// What a query is to do next.
#[derive(Debug, Clone, Copy, PartialEq, Eq, Structural)]
pub enum QueryPhase {
    SendHandshake,
    /// Read what the device says to the payload before.
    Drain { stage: Stage, deadline: u128, timeout: u128 },
    SendFeatures,
    SendNotifications,
    PauseNotifications,
    RepeatNotifications,
    PauseKeys,
    SendKeys,
    /// Read until everything asked for has come.
    Collect { deadline: u128, last_notification: u128, last_key: u128, timeout: u128 },
    /// Ask once more for notifications, at the time `now`.
    Renotify { deadline: u128, last_key: u128, now: u128 },
    /// Ask once more for the keys, at the time `now`.
    Rekey { deadline: u128, last_notification: u128, now: u128 },
    Finished,
}

/// What came of a phase, and the time at which it was over.
#[derive(Debug, Clone, Copy, PartialEq, Eq)]
pub enum QueryEvent<'a> {
    /// The payload was sent, or the pause is over.
    Done { now: u128 },
    /// No packet came in time.
    Silence { now: u128 },
    Packet { bytes: &'a [u8], now: u128 },
}

pub enum QueryEventModel {
    Done { now: u128 },
    Silence { now: u128 },
    Packet { bytes: Seq<u8>, now: u128 },
}

impl<'a> View for QueryEvent<'a> {
    type V = QueryEventModel;

    open spec fn view(&self) -> QueryEventModel {
        match *self {
            QueryEvent::Done { now } => QueryEventModel::Done { now },
            QueryEvent::Silence { now } => QueryEventModel::Silence { now },
            QueryEvent::Packet { bytes, now } => QueryEventModel::Packet { bytes: bytes@, now },
        }
    }
}

/// A conversation that asks a device for what it knows.
#[derive(Debug, Clone, PartialEq, Eq)]
pub struct Query {
    pub request_keys: bool,
    pub capture_packets: bool,
    pub timeout: u128,
    pub state: SessionState,
    pub phase: QueryPhase,
}

#[verifier::ext_equal]
pub struct QueryModel {
    pub request_keys: bool,
    pub capture_packets: bool,
    pub timeout: u128,
    pub state: SessionModel,
    pub phase: QueryPhase,
}

impl View for Query {
    type V = QueryModel;

    open spec fn view(&self) -> QueryModel {
        QueryModel {
            request_keys: self.request_keys,
            capture_packets: self.capture_packets,
            timeout: self.timeout,
            state: self.state@,
            phase: self.phase,
        }
    }
}

/// A query that has not sent anything yet.
pub open spec fn fresh_query(
    request_keys: bool,
    capture_packets: bool,
    timeout: u128,
) -> QueryModel {
    QueryModel {
        request_keys,
        capture_packets,
        timeout,
        state: fresh_session(),
        phase: QueryPhase::SendHandshake,
    }
}

impl AAPSession {
    /// Starts a session with the device at `mac`.
    pub fn open(mac: &str, timeout: u128) -> (r: Result<AAPSession, String>)
        ensures
            match r {
                Ok(session) => bdaddr_of(mac@) == Some(session.address@) && session.timeout
                    == longer(timeout, 100_000_000),
                Err(message) => bdaddr_of(mac@) is None && message@ == invalid_mac_message(mac@),
            },
    {
        match parse_bdaddr(mac) {
            Ok(address) => Ok(AAPSession { address, timeout: at_least(timeout, SESSION_LEAST) }),
            Err(message) => Err(message),
        }
    }

    pub fn query(&self, request_keys: bool, capture_packets: bool) -> (r: Query)
        ensures
            r@ == fresh_query(request_keys, capture_packets, self.timeout),
    {
        Query {
            request_keys,
            capture_packets,
            timeout: self.timeout,
            state: SessionState::default(),
            phase: QueryPhase::SendHandshake,
        }
    }

    /// The payload that asks for notifications.
    pub fn request_notifications(&self) -> (r: Vec<u8>)
        ensures
            r@ == AAPP_REQUEST_NOTIFICATIONS@,
    {
        bytes_of(AAPP_REQUEST_NOTIFICATIONS.as_slice())
    }

    /// The payload that asks for the keys.
    pub fn request_magic_keys(&self) -> (r: Vec<u8>)
        ensures
            r@ == AAPP_REQUEST_MAGIC_KEYS@,
    {
        bytes_of(AAPP_REQUEST_MAGIC_KEYS.as_slice())
    }

    /// Takes what a read came to, and tells whether it was a packet.
    pub fn read_next(
        &self,
        packet: Option<&[u8]>,
        state: &mut SessionState,
        capture_packets: bool,
    ) -> (r: bool)
        ensures
            r == packet is Some,
            final(state)@ == match packet {
                Some(bytes) => ingested(old(state)@, bytes@, capture_packets),
                None => old(state)@,
            },
    {
        match packet {
            Some(bytes) => {
                ingest_packet(bytes, state, capture_packets);
                true
            },
            None => false,
        }
    }
}

/// How long a read waits for a packet.
pub fn read_timeout(timeout: u128) -> (r: u128)
    ensures
        r == longer(timeout, 50_000_000),
{
    at_least(timeout, READ_LEAST)
}

/// How long sending and receiving may take at most, in the parts that a socket takes it.
#[derive(Debug, Clone, Copy, PartialEq, Eq, Structural)]
pub struct SocketTimeout {
    pub seconds: u128,
    pub micros: u128,
}

/// Splits the timeout of a session into whole seconds and whole microseconds.
pub fn socket_timeout(timeout: u128) -> (r: SocketTimeout)
    ensures
        r.micros < 1_000_000,
        r.seconds * 1_000_000_000 + r.micros * 1000 <= longer(timeout, 100_000_000),
        longer(timeout, 100_000_000) < r.seconds * 1_000_000_000 + r.micros * 1000 + 1000,
{
    let length: u128 = at_least(timeout, SESSION_LEAST);
    SocketTimeout { seconds: length / SECOND, micros: (length % SECOND) / 1000 }
}

fn bytes_of(bytes: &[u8]) -> (r: Vec<u8>)
    ensures
        r@ == bytes@,
{
    let mut r: Vec<u8> = Vec::new();
    let mut i: usize = 0;
    while i < bytes.len()
        invariant
            i <= bytes@.len(),
            r@ == bytes@.take(i as int),
        decreases bytes@.len() - i,
    {
        r.push(bytes[i]);
        assert(bytes@.take(i + 1) == bytes@.take(i as int).push(bytes@[i as int]));
        i += 1;
    }
    assert(bytes@.take(bytes@.len() as int) == bytes@);
    r
}

// ---------------------------------------------------------------------------
// The course of a query
// ---------------------------------------------------------------------------

/// Everything asked for has come.
pub open spec fn complete(state: SessionModel, request_keys: bool) -> bool {
    state.battery is Some && state.metadata is Some && (state.magic_keys is Some || !request_keys)
}

/// Reading goes on until the deadline.
pub open spec fn draining(stage: Stage, deadline: u128, now: u128) -> QueryPhase {
    if now < deadline {
        QueryPhase::Drain { stage, deadline, timeout: longer(span(now, deadline), READ_LEAST) }
    } else {
        drained(stage)
    }
}

/// What follows the reads after a payload.
pub open spec fn drained(stage: Stage) -> QueryPhase {
    match stage {
        Stage::Handshake => QueryPhase::SendFeatures,
        Stage::Features => QueryPhase::SendNotifications,
    }
}

/// Waiting for the next packet, for a second at most.
pub open spec fn waiting(
    deadline: u128,
    last_notification: u128,
    last_key: u128,
    now: u128,
) -> QueryPhase {
    QueryPhase::Collect {
        deadline,
        last_notification,
        last_key,
        timeout: longer(shorter(span(now, deadline), SECOND), SESSION_LEAST),
    }
}

/// Asking for keys that were wanted and have been missing for too long.
pub open spec fn keys_checked(
    query: QueryModel,
    deadline: u128,
    last_notification: u128,
    last_key: u128,
    now: u128,
) -> QueryPhase {
    if query.request_keys && query.state.magic_keys is None && span(last_key, now)
        >= KEY_PATIENCE {
        QueryPhase::Rekey { deadline, last_notification, now }
    } else {
        waiting(deadline, last_notification, last_key, now)
    }
}

/// The collection at the time `now`.
pub open spec fn collecting(
    query: QueryModel,
    deadline: u128,
    last_notification: u128,
    last_key: u128,
    now: u128,
) -> QueryPhase {
    if now >= deadline {
        QueryPhase::Finished
    } else if query.state.battery is None && span(last_notification, now)
        >= NOTIFICATION_PATIENCE {
        QueryPhase::Renotify { deadline, last_key, now }
    } else {
        keys_checked(query, deadline, last_notification, last_key, now)
    }
}

/// The start of the collection.
pub open spec fn collection_started(query: QueryModel, now: u128) -> QueryPhase {
    collecting(query, after(now, query.timeout), now, now, now)
}

/// The query after something came of its phase.  An event that does not belong to
/// the phase changes nothing.
pub open spec fn advanced(query: QueryModel, event: QueryEventModel) -> QueryModel {
    match (query.phase, event) {
        (QueryPhase::SendHandshake, QueryEventModel::Done { now }) => QueryModel {
            phase: draining(Stage::Handshake, after(now, HANDSHAKE_DRAIN), now),
            ..query
        },
        (QueryPhase::Drain { stage, .. }, QueryEventModel::Silence { now }) => QueryModel {
            phase: drained(stage),
            ..query
        },
        (
            QueryPhase::Drain { stage, deadline, .. },
            QueryEventModel::Packet { bytes, now },
        ) => QueryModel {
            state: ingested(query.state, bytes, query.capture_packets),
            phase: draining(stage, deadline, now),
            ..query
        },
        (QueryPhase::SendFeatures, QueryEventModel::Done { now }) => QueryModel {
            phase: draining(Stage::Features, after(now, FEATURES_DRAIN), now),
            ..query
        },
        (QueryPhase::SendNotifications, QueryEventModel::Done { now }) => QueryModel {
            phase: QueryPhase::PauseNotifications,
            ..query
        },
        (QueryPhase::PauseNotifications, QueryEventModel::Done { now }) => QueryModel {
            phase: QueryPhase::RepeatNotifications,
            ..query
        },
        (QueryPhase::RepeatNotifications, QueryEventModel::Done { now }) => QueryModel {
            phase: if query.request_keys {
                QueryPhase::PauseKeys
            } else {
                collection_started(query, now)
            },
            ..query
        },
        (QueryPhase::PauseKeys, QueryEventModel::Done { now }) => QueryModel {
            phase: QueryPhase::SendKeys,
            ..query
        },
        (QueryPhase::SendKeys, QueryEventModel::Done { now }) => QueryModel {
            phase: collection_started(query, now),
            ..query
        },
        (
            QueryPhase::Collect { deadline, last_notification, last_key, .. },
            QueryEventModel::Silence { now },
        ) => QueryModel {
            phase: collecting(query, deadline, last_notification, last_key, now),
            ..query
        },
        (
            QueryPhase::Collect { deadline, last_notification, last_key, .. },
            QueryEventModel::Packet { bytes, now },
        ) => {
            let state = ingested(query.state, bytes, query.capture_packets);
            QueryModel {
                state,
                phase: if complete(state, query.request_keys) {
                    QueryPhase::Finished
                } else {
                    collecting(
                        QueryModel { state, ..query },
                        deadline,
                        last_notification,
                        last_key,
                        now,
                    )
                },
                ..query
            }
        },
        (
            QueryPhase::Renotify { deadline, last_key, now },
            QueryEventModel::Done { now: later },
        ) => QueryModel { phase: keys_checked(query, deadline, now, last_key, now), ..query },
        (
            QueryPhase::Rekey { deadline, last_notification, now },
            QueryEventModel::Done { now: later },
        ) => QueryModel { phase: waiting(deadline, last_notification, now, now), ..query },
        _ => query,
    }
}

fn drain(stage: Stage, deadline: u128, now: u128) -> (r: QueryPhase)
    ensures
        r == draining(stage, deadline, now),
{
    if now < deadline {
        QueryPhase::Drain { stage, deadline, timeout: at_least(elapsed(now, deadline), READ_LEAST) }
    } else {
        drain_over(stage)
    }
}

fn drain_over(stage: Stage) -> (r: QueryPhase)
    ensures
        r == drained(stage),
{
    match stage {
        Stage::Handshake => QueryPhase::SendFeatures,
        Stage::Features => QueryPhase::SendNotifications,
    }
}

fn wait(deadline: u128, last_notification: u128, last_key: u128, now: u128) -> (r: QueryPhase)
    ensures
        r == waiting(deadline, last_notification, last_key, now),
{
    QueryPhase::Collect {
        deadline,
        last_notification,
        last_key,
        timeout: at_least(at_most(elapsed(now, deadline), SECOND), SESSION_LEAST),
    }
}

impl Query {
    /// Everything asked for has come.
    pub fn is_complete(&self) -> (r: bool)
        ensures
            r == complete(self@.state, self@.request_keys),
    {
        self.state.battery.is_some() && self.state.metadata.is_some() && (
        self.state.magic_keys.is_some() || !self.request_keys)
    }

    fn check_keys(
        &self,
        deadline: u128,
        last_notification: u128,
        last_key: u128,
        now: u128,
    ) -> (r: QueryPhase)
        ensures
            r == keys_checked(self@, deadline, last_notification, last_key, now),
    {
        if self.request_keys && self.state.magic_keys.is_none() && elapsed(last_key, now)
            >= KEY_PATIENCE {
            QueryPhase::Rekey { deadline, last_notification, now }
        } else {
            wait(deadline, last_notification, last_key, now)
        }
    }

    fn collect(
        &self,
        deadline: u128,
        last_notification: u128,
        last_key: u128,
        now: u128,
    ) -> (r: QueryPhase)
        ensures
            r == collecting(self@, deadline, last_notification, last_key, now),
    {
        if now >= deadline {
            QueryPhase::Finished
        } else if self.state.battery.is_none() && elapsed(last_notification, now)
            >= NOTIFICATION_PATIENCE {
            QueryPhase::Renotify { deadline, last_key, now }
        } else {
            self.check_keys(deadline, last_notification, last_key, now)
        }
    }

    fn start_collection(&self, now: u128) -> (r: QueryPhase)
        ensures
            r == collection_started(self@, now),
    {
        self.collect(later_by(now, self.timeout), now, now, now)
    }

    /// Takes what came of the phase.
    pub fn advance(&mut self, event: QueryEvent)
        ensures
            final(self)@ == advanced(old(self)@, event@),
    {
        match (self.phase, event) {
            (QueryPhase::SendHandshake, QueryEvent::Done { now }) => {
                self.phase = drain(Stage::Handshake, later_by(now, HANDSHAKE_DRAIN), now);
            },
            (QueryPhase::Drain { stage, .. }, QueryEvent::Silence { .. }) => {
                self.phase = drain_over(stage);
            },
            (QueryPhase::Drain { stage, deadline, .. }, QueryEvent::Packet { bytes, now }) => {
                ingest_packet(bytes, &mut self.state, self.capture_packets);
                self.phase = drain(stage, deadline, now);
            },
            (QueryPhase::SendFeatures, QueryEvent::Done { now }) => {
                self.phase = drain(Stage::Features, later_by(now, FEATURES_DRAIN), now);
            },
            (QueryPhase::SendNotifications, QueryEvent::Done { .. }) => {
                self.phase = QueryPhase::PauseNotifications;
            },
            (QueryPhase::PauseNotifications, QueryEvent::Done { .. }) => {
                self.phase = QueryPhase::RepeatNotifications;
            },
            (QueryPhase::RepeatNotifications, QueryEvent::Done { now }) => {
                self.phase = if self.request_keys {
                    QueryPhase::PauseKeys
                } else {
                    self.start_collection(now)
                };
            },
            (QueryPhase::PauseKeys, QueryEvent::Done { .. }) => {
                self.phase = QueryPhase::SendKeys;
            },
            (QueryPhase::SendKeys, QueryEvent::Done { now }) => {
                self.phase = self.start_collection(now);
            },
            (
                QueryPhase::Collect { deadline, last_notification, last_key, .. },
                QueryEvent::Silence { now },
            ) => {
                self.phase = self.collect(deadline, last_notification, last_key, now);
            },
            (
                QueryPhase::Collect { deadline, last_notification, last_key, .. },
                QueryEvent::Packet { bytes, now },
            ) => {
                ingest_packet(bytes, &mut self.state, self.capture_packets);
                self.phase = if self.is_complete() {
                    QueryPhase::Finished
                } else {
                    self.collect(deadline, last_notification, last_key, now)
                };
            },
            (QueryPhase::Renotify { deadline, last_key, now }, QueryEvent::Done { .. }) => {
                self.phase = self.check_keys(deadline, now, last_key, now);
            },
            (QueryPhase::Rekey { deadline, last_notification, now }, QueryEvent::Done { .. }) => {
                self.phase = wait(deadline, last_notification, now, now);
            },
            _ => {},
        }
    }
}

/// The payload that a phase sends, if it sends one.
pub open spec fn payload_of(phase: QueryPhase) -> Option<Seq<u8>> {
    match phase {
        QueryPhase::SendHandshake => Some(AAPP_HANDSHAKE@),
        QueryPhase::SendFeatures => Some(AAPP_SET_SPECIFIC_FEATURES@),
        QueryPhase::SendNotifications
        | QueryPhase::RepeatNotifications
        | QueryPhase::Renotify { .. } => Some(AAPP_REQUEST_NOTIFICATIONS@),
        QueryPhase::SendKeys | QueryPhase::Rekey { .. } => Some(AAPP_REQUEST_MAGIC_KEYS@),
        _ => None,
    }
}

pub fn phase_payload(phase: QueryPhase) -> (r: Option<Vec<u8>>)
    ensures
        match r {
            Some(payload) => payload_of(phase) == Some(payload@),
            None => payload_of(phase) is None,
        },
{
    match phase {
        QueryPhase::SendHandshake => Some(bytes_of(AAPP_HANDSHAKE.as_slice())),
        QueryPhase::SendFeatures => Some(bytes_of(AAPP_SET_SPECIFIC_FEATURES.as_slice())),
        QueryPhase::SendNotifications
        | QueryPhase::RepeatNotifications
        | QueryPhase::Renotify { .. } => Some(bytes_of(AAPP_REQUEST_NOTIFICATIONS.as_slice())),
        QueryPhase::SendKeys
        | QueryPhase::Rekey { .. } => Some(bytes_of(AAPP_REQUEST_MAGIC_KEYS.as_slice())),
        _ => None,
    }
}

} // verus!
