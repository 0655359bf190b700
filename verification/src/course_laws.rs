//! The course of a query, step by step, and the times that it keeps.

use vstd::prelude::*;

use crate::aap::ingested;
use crate::session::{
    advanced, fresh_query, payload_of, QueryEventModel, QueryModel, QueryPhase, Stage,
};
use crate::session_laws::run;
use crate::timing::{after, longer, shorter, span};

verus! {

// ---------------------------------------------------------------------------
// Spans of time
// ---------------------------------------------------------------------------

/// The longer of two spans is one of them and no shorter than either; the shorter one
/// likewise.
pub proof fn law_longer_and_shorter(a: u128, b: u128)
    ensures
        longer(a, b) >= a && longer(a, b) >= b,
        longer(a, b) == a || longer(a, b) == b,
        shorter(a, b) <= a && shorter(a, b) <= b,
        shorter(a, b) == a || shorter(a, b) == b,
{
}

/// The span up to a later time, added to the earlier one, gives the later one; there is
/// none up to an earlier time.  A span counted from a time ends that much later, but never
/// later than the last time that can be written.
pub proof fn law_spans(a: u128, b: u128)
    ensures
        a <= b ==> a + span(a, b) == b,
        b <= a ==> span(a, b) == 0,
        a + b <= 0xffff_ffff_ffff_ffff_ffff_ffff_ffff_ffff ==> after(a, b) == a + b,
        a + b > 0xffff_ffff_ffff_ffff_ffff_ffff_ffff_ffff ==> after(a, b)
            == 0xffff_ffff_ffff_ffff_ffff_ffff_ffff_ffff,
{
}

// ---------------------------------------------------------------------------
// The collection
// ---------------------------------------------------------------------------

/// The device reported its battery and its metadata, and handed over its keys where they
/// were wanted.
pub open spec fn has_everything(query: QueryModel) -> bool {
    &&& query.state.battery is Some
    &&& query.state.metadata is Some
    &&& query.request_keys ==> query.state.magic_keys is Some
}

/// Before its deadline a query never finishes without a battery report, the metadata and,
/// where they were wanted, the keys.
pub proof fn law_no_early_end(query: QueryModel, event: QueryEventModel, deadline: u128)
    requires
        query.phase matches QueryPhase::Collect { deadline: d, .. } && d == deadline,
        match event {
            QueryEventModel::Done { now } => now < deadline,
            QueryEventModel::Silence { now } => now < deadline,
            QueryEventModel::Packet { now, .. } => now < deadline,
        },
        advanced(query, event).phase is Finished,
    ensures
        advanced(query, event).state.battery is Some,
        advanced(query, event).state.metadata is Some,
        query.request_keys ==> advanced(query, event).state.magic_keys is Some,
{
}

/// A packet with which everything asked for is there ends the query at once, however much
/// time is left.  Silence ends it if and only if the deadline has come, and tells nothing.
pub proof fn law_whole_answer_ends(
    query: QueryModel,
    bytes: Seq<u8>,
    now: u128,
    deadline: u128,
)
    requires
        query.phase matches QueryPhase::Collect { deadline: d, .. } && d == deadline,
    ensures
        ({
            let told = advanced(query, QueryEventModel::Packet { bytes, now });
            let untold = advanced(query, QueryEventModel::Silence { now });
            &&& told.state == ingested(query.state, bytes, query.capture_packets)
            &&& told.phase is Finished <==> now >= deadline || told.state.battery is Some
                && told.state.metadata is Some && (told.state.magic_keys is Some
                || !query.request_keys)
            &&& untold.state == query.state
            &&& untold.phase is Finished <==> now >= deadline
        }),
{
}

/// A query that has gone all the way from its start and finished has a battery report, the
/// metadata and, where they were wanted, the keys, or else its last event came at its
/// deadline or later.
pub proof fn law_whole_run_ends(
    request_keys: bool,
    capture_packets: bool,
    timeout: u128,
    events: Seq<QueryEventModel>,
    event: QueryEventModel,
)
    requires
        match run(fresh_query(request_keys, capture_packets, timeout), events).phase {
            QueryPhase::Collect { deadline, .. } => match event {
                QueryEventModel::Done { now } => now < deadline,
                QueryEventModel::Silence { now } => now < deadline,
                QueryEventModel::Packet { now, .. } => now < deadline,
            },
            _ => false,
        },
        run(fresh_query(request_keys, capture_packets, timeout), events.push(event)).phase
            is Finished,
    ensures
        has_everything(
            run(fresh_query(request_keys, capture_packets, timeout), events.push(event)),
        ),
{
    let start = fresh_query(request_keys, capture_packets, timeout);
    assert(events.push(event).drop_last() =~= events);
    assert(events.push(event).last() == event);
    match run(start, events).phase {
        QueryPhase::Collect { deadline, .. } => {
            law_no_early_end(run(start, events), event, deadline);
        },
        _ => {},
    }
}

/// While a query collects, it asks for notifications again if and only if no battery report
/// has come and two seconds have passed since it asked for them; else it asks for the keys
/// again if and only if they are wanted, have not come, and three seconds have passed since
/// it asked for them; else it waits on.
pub proof fn law_requests_are_repeated(
    query: QueryModel,
    bytes: Seq<u8>,
    now: u128,
    packet: bool,
)
    requires
        query.phase matches QueryPhase::Collect { deadline, last_notification, last_key, .. }
            && now < deadline && last_notification <= now && last_key <= now,
    ensures
        ({
            let next = advanced(
                query,
                if packet {
                    QueryEventModel::Packet { bytes, now }
                } else {
                    QueryEventModel::Silence { now }
                },
            );
            let deadline = query.phase->Collect_deadline;
            let last_notification = query.phase->Collect_last_notification;
            let last_key = query.phase->Collect_last_key;
            let for_battery = next.state.battery is None && now - last_notification
                >= 2_000_000_000;
            let for_keys = query.request_keys && next.state.magic_keys is None && now - last_key
                >= 3_000_000_000;
            !(next.phase is Finished) ==> {
                &&& next.phase is Renotify <==> for_battery
                &&& next.phase is Renotify ==> next.phase == QueryPhase::Renotify {
                    deadline,
                    last_key,
                    now,
                }
                &&& next.phase is Rekey <==> !for_battery && for_keys
                &&& next.phase is Rekey ==> next.phase == QueryPhase::Rekey {
                    deadline,
                    last_notification,
                    now,
                }
                &&& next.phase is Collect <==> !for_battery && !for_keys
                &&& next.phase is Collect ==> next.phase->Collect_deadline == deadline
                    && next.phase->Collect_last_notification == last_notification
                    && next.phase->Collect_last_key == last_key && waits_on(next.phase, now)
            }
        }),
{
}

/// The phase waits until its deadline, but for a tenth of a second at least and for a
/// second at most.
pub open spec fn waits_on(phase: QueryPhase, now: u128) -> bool {
    match phase {
        QueryPhase::Collect { deadline, timeout, .. } => {
            &&& now + 100_000_000 <= deadline <= now + 1_000_000_000 ==> timeout == deadline - now
            &&& deadline < now + 100_000_000 ==> timeout == 100_000_000
            &&& deadline > now + 1_000_000_000 ==> timeout == 1_000_000_000
        },
        _ => false,
    }
}

/// After a repeated request for notifications a query asks for the keys at once if they
/// are due, and otherwise waits on, counting from the time at which it asked; after one
/// for the keys it waits on.
pub proof fn law_after_repeats(query: QueryModel, later: u128)
    ensures
        ({
            let next = advanced(query, QueryEventModel::Done { now: later });
            match query.phase {
                QueryPhase::Renotify { deadline, last_key, now } => {
                    let for_keys = query.request_keys && query.state.magic_keys is None && now
                        - last_key >= 3_000_000_000;
                    &&& for_keys ==> next.phase == QueryPhase::Rekey {
                        deadline,
                        last_notification: now,
                        now,
                    }
                    &&& !for_keys ==> next.phase is Collect && next.phase->Collect_deadline
                        == deadline && next.phase->Collect_last_notification == now
                        && next.phase->Collect_last_key == last_key && waits_on(next.phase, now)
                },
                QueryPhase::Rekey { deadline, last_notification, now } => {
                    &&& next.phase is Collect
                    &&& next.phase->Collect_deadline == deadline
                    &&& next.phase->Collect_last_notification == last_notification
                    &&& next.phase->Collect_last_key == now
                    &&& waits_on(next.phase, now)
                },
                _ => true,
            }
        }),
        query.phase is Renotify || query.phase is Rekey ==> advanced(
            query,
            QueryEventModel::Done { now: later },
        ).state == query.state,
{
}

// ---------------------------------------------------------------------------
// The opening
// ---------------------------------------------------------------------------

/// After the handshake a query reads for a second, and after the features for a second and
/// a half; each read waits for the rest of that time, but for a twentieth of a second at
/// least.  Packets that come meanwhile are taken, and silence or the end of that time leads
/// on to the features and to the notifications.
pub proof fn law_opening_reads(query: QueryModel, bytes: Seq<u8>, now: u128)
    requires
        now <= 0xffff_ffff_ffff_ffff,
    ensures
        ({
            let done = advanced(query, QueryEventModel::Done { now });
            let silent = advanced(query, QueryEventModel::Silence { now });
            let told = advanced(query, QueryEventModel::Packet { bytes, now });
            match query.phase {
                QueryPhase::SendHandshake => {
                    &&& done.phase == QueryPhase::Drain {
                        stage: Stage::Handshake,
                        deadline: (now + 1_000_000_000) as u128,
                        timeout: 1_000_000_000,
                    }
                    &&& done.state == query.state
                },
                QueryPhase::SendFeatures => {
                    &&& done.phase == QueryPhase::Drain {
                        stage: Stage::Features,
                        deadline: (now + 1_500_000_000) as u128,
                        timeout: 1_500_000_000,
                    }
                    &&& done.state == query.state
                },
                QueryPhase::Drain { stage, deadline, .. } => {
                    &&& silent.state == query.state
                    &&& told.state == ingested(query.state, bytes, query.capture_packets)
                    &&& now + 50_000_000 <= deadline ==> told.phase == QueryPhase::Drain {
                        stage,
                        deadline,
                        timeout: (deadline - now) as u128,
                    }
                    &&& now < deadline < now + 50_000_000 ==> told.phase == QueryPhase::Drain {
                        stage,
                        deadline,
                        timeout: 50_000_000,
                    }
                    &&& stage == Stage::Handshake ==> silent.phase is SendFeatures && (deadline
                        <= now ==> told.phase is SendFeatures)
                    &&& stage == Stage::Features ==> silent.phase is SendNotifications && (
                    deadline <= now ==> told.phase is SendNotifications)
                },
                _ => true,
            }
        }),
{
}

/// Notifications are asked for twice with a pause between, then the keys after another
/// pause if they are wanted.  Then the collection starts: it lasts as long as the timeout
/// of the query says, and both requests count as made just now.
pub proof fn law_opening_requests(query: QueryModel, now: u128)
    requires
        now + query.timeout <= 0xffff_ffff_ffff_ffff_ffff_ffff_ffff_ffff,
        query.timeout > 0,
    ensures
        ({
            let next = advanced(query, QueryEventModel::Done { now });
            let starts = {
                &&& next.phase is Collect
                &&& next.phase->Collect_deadline == now + query.timeout
                &&& next.phase->Collect_last_notification == now
                &&& next.phase->Collect_last_key == now
                &&& waits_on(next.phase, now)
            };
            match query.phase {
                QueryPhase::SendNotifications => next.phase is PauseNotifications,
                QueryPhase::PauseNotifications => next.phase is RepeatNotifications,
                QueryPhase::RepeatNotifications => if query.request_keys {
                    next.phase is PauseKeys
                } else {
                    starts
                },
                QueryPhase::PauseKeys => next.phase is SendKeys,
                QueryPhase::SendKeys => starts,
                _ => true,
            }
        }),
{
}

/// An event that does not belong to the phase changes nothing: a query that sends or pauses
/// takes no packet and no silence, and one that reads takes no sign that it is done.
pub proof fn law_foreign_events(query: QueryModel, event: QueryEventModel)
    requires
        if query.phase is Drain || query.phase is Collect {
            event is Done
        } else {
            event is Silence || event is Packet
        },
    ensures
        advanced(query, event) == query,
{
}

/// What a phase sends: the handshake, the features, the request for notifications or that
/// for the keys, byte for byte; the phases that read, pause or are finished send nothing.
pub proof fn law_payloads(phase: QueryPhase)
    ensures
        match phase {
            QueryPhase::SendHandshake => payload_of(phase) == Some(
                seq![0u8, 0, 4, 0, 1, 0, 2, 0, 0, 0, 0, 0, 0, 0, 0, 0],
            ),
            QueryPhase::SendFeatures => payload_of(phase) == Some(
                seq![4u8, 0, 4, 0, 0x4d, 0, 0xd7, 0, 0, 0, 0, 0, 0, 0],
            ),
            QueryPhase::SendNotifications
            | QueryPhase::RepeatNotifications
            | QueryPhase::Renotify { .. } => payload_of(phase) == Some(
                seq![4u8, 0, 4, 0, 0x0f, 0, 0xff, 0xff, 0xff, 0xff, 0xff],
            ),
            QueryPhase::SendKeys | QueryPhase::Rekey { .. } => payload_of(phase) == Some(
                seq![4u8, 0, 4, 0, 0x30, 0, 5, 0],
            ),
            _ => payload_of(phase) is None,
        },
{
    match phase {
        QueryPhase::SendHandshake => {
            assert(payload_of(phase)->0 =~= seq![
                0u8, 0, 4, 0, 1, 0, 2, 0, 0, 0, 0, 0, 0, 0, 0, 0,
            ]);
        },
        QueryPhase::SendFeatures => {
            assert(payload_of(phase)->0 =~= seq![4u8, 0, 4, 0, 0x4d, 0, 0xd7, 0, 0, 0, 0, 0, 0, 0]);
        },
        QueryPhase::SendNotifications
        | QueryPhase::RepeatNotifications
        | QueryPhase::Renotify { .. } => {
            assert(payload_of(phase)->0 =~= seq![
                4u8, 0, 4, 0, 0x0f, 0, 0xff, 0xff, 0xff, 0xff, 0xff,
            ]);
        },
        QueryPhase::SendKeys | QueryPhase::Rekey { .. } => {
            assert(payload_of(phase)->0 =~= seq![4u8, 0, 4, 0, 0x30, 0, 5, 0]);
        },
        _ => {},
    }
}

/// A new query has heard nothing and starts with the handshake.
pub proof fn law_fresh_query(request_keys: bool, capture_packets: bool, timeout: u128)
    ensures
        ({
            let query = fresh_query(request_keys, capture_packets, timeout);
            &&& query.request_keys == request_keys
            &&& query.capture_packets == capture_packets
            &&& query.timeout == timeout
            &&& query.phase is SendHandshake
            &&& query.state.battery is None && query.state.metadata is None
            &&& query.state.magic_keys is None && query.state.noise_control_mode is None
            &&& query.state.conversational_awareness_enabled is None
            &&& query.state.raw_packets.len() == 0
        }),
{
}

} // verus!
