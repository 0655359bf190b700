//! What a query promises, whatever the device says and whenever it says it.

use vstd::prelude::*;

use crate::aap::{
    AAPP_HANDSHAKE, AAPP_REQUEST_MAGIC_KEYS, AAPP_REQUEST_NOTIFICATIONS,
    AAPP_SET_SPECIFIC_FEATURES,
};
use crate::aap_laws::ingested_all;
use crate::session::{
    advanced, complete, fresh_query, payload_of, QueryEventModel, QueryModel, QueryPhase, Stage,
    FEATURES_DRAIN, HANDSHAKE_DRAIN, KEY_PATIENCE, NOTIFICATION_PATIENCE, READ_LEAST,
    SESSION_LEAST,
};
use crate::timing::{span, SECOND};

verus! {

/// The query after all the events, the first one first.
pub open spec fn run(query: QueryModel, events: Seq<QueryEventModel>) -> QueryModel
    decreases events.len(),
{
    if events.len() == 0 {
        query
    } else {
        advanced(run(query, events.drop_last()), events.last())
    }
}

/// The payloads that were sent on the way.
pub open spec fn sent(query: QueryModel, events: Seq<QueryEventModel>) -> Seq<Seq<u8>>
    decreases events.len(),
{
    if events.len() == 0 {
        Seq::empty()
    } else {
        sent_after(
            sent(query, events.drop_last()),
            run(query, events.drop_last()).phase,
            events.last(),
        )
    }
}

/// A phase that waits for a packet.
pub open spec fn reads(phase: QueryPhase) -> bool {
    phase is Drain || phase is Collect
}

/// The packets that were read on the way.
pub open spec fn received(query: QueryModel, events: Seq<QueryEventModel>) -> Seq<Seq<u8>>
    decreases events.len(),
{
    if events.len() == 0 {
        Seq::empty()
    } else {
        let earlier = received(query, events.drop_last());
        match events.last() {
            QueryEventModel::Packet { bytes, .. } => if reads(
                run(query, events.drop_last()).phase,
            ) {
                earlier.push(bytes)
            } else {
                earlier
            },
            _ => earlier,
        }
    }
}

/// A query never changes what it was asked for.
pub proof fn law_query_keeps_its_request(query: QueryModel, events: Seq<QueryEventModel>)
    ensures
        run(query, events).request_keys == query.request_keys,
        run(query, events).capture_packets == query.capture_packets,
        run(query, events).timeout == query.timeout,
    decreases events.len(),
{
    if events.len() > 0 {
        law_query_keeps_its_request(query, events.drop_last());
    }
}

/// What a query knows is what the packets say that were read on the way, each taken
/// once and in the order in which they came.
pub proof fn law_query_takes_every_packet(query: QueryModel, events: Seq<QueryEventModel>)
    ensures
        run(query, events).state == ingested_all(
            query.state,
            received(query, events),
            query.capture_packets,
        ),
    decreases events.len(),
{
    if events.len() > 0 {
        law_query_takes_every_packet(query, events.drop_last());
        law_query_keeps_its_request(query, events.drop_last());
        let earlier = received(query, events.drop_last());
        let all = received(query, events);
        if all != earlier {
            assert(all.drop_last() == earlier);
        }
    }
}

/// What is sent before the collection starts.
pub open spec fn opening(request_keys: bool) -> Seq<Seq<u8>> {
    seq![
        AAPP_HANDSHAKE@,
        AAPP_SET_SPECIFIC_FEATURES@,
        AAPP_REQUEST_NOTIFICATIONS@,
        AAPP_REQUEST_NOTIFICATIONS@,
    ] + if request_keys {
        seq![AAPP_REQUEST_MAGIC_KEYS@]
    } else {
        Seq::empty()
    }
}

/// How much of the opening is over when a phase begins.
pub open spec fn opening_done(phase: QueryPhase) -> Option<int> {
    match phase {
        QueryPhase::SendHandshake => Some(0),
        QueryPhase::Drain { stage: Stage::Handshake, .. } | QueryPhase::SendFeatures => Some(1),
        QueryPhase::Drain { stage: Stage::Features, .. } | QueryPhase::SendNotifications => Some(
            2,
        ),
        QueryPhase::PauseNotifications | QueryPhase::RepeatNotifications => Some(3),
        QueryPhase::PauseKeys | QueryPhase::SendKeys => Some(4),
        _ => None,
    }
}

/// What was sent fits the phase: as much of the opening as is over, or all of it and
/// repeated requests.
pub open spec fn in_step(query: QueryModel, payloads: Seq<Seq<u8>>) -> bool {
    let start = opening(query.request_keys);
    &&& match opening_done(query.phase) {
        Some(n) => n <= start.len() && payloads == start.take(n),
        None => start.is_prefix_of(payloads) && forall|i: int|
            start.len() <= i < payloads.len() ==> is_repeat(
                #[trigger] payloads[i],
                query.request_keys,
            ),
    }
    &&& query.phase is PauseKeys || query.phase is SendKeys || query.phase is Rekey
        ==> query.request_keys
}

/// A request that may be repeated: the one for notifications, and the one for keys
/// if they are wanted.
pub open spec fn is_repeat(payload: Seq<u8>, request_keys: bool) -> bool {
    payload == AAPP_REQUEST_NOTIFICATIONS@ || request_keys && payload == AAPP_REQUEST_MAGIC_KEYS@
}

/// The payloads after one more event.
pub open spec fn sent_after(
    payloads: Seq<Seq<u8>>,
    phase: QueryPhase,
    event: QueryEventModel,
) -> Seq<Seq<u8>> {
    match payload_of(phase) {
        Some(payload) => if event is Done {
            payloads.push(payload)
        } else {
            payloads
        },
        None => payloads,
    }
}

proof fn lemma_in_step(query: QueryModel, payloads: Seq<Seq<u8>>, event: QueryEventModel)
    requires
        in_step(query, payloads),
    ensures
        in_step(advanced(query, event), sent_after(payloads, query.phase, event)),
{
    let start = opening(query.request_keys);
    let next = advanced(query, event);
    let all = sent_after(payloads, query.phase, event);
    if event is Done {
        match opening_done(query.phase) {
            Some(n) => {
                if n < start.len() {
                    assert(start.take(n + 1) == start.take(n).push(start[n]));
                }
                assert(start.take(start.len() as int) == start);
            },
            None => {},
        }
    }
}

/// A query sends the handshake, the features and the request for notifications
/// twice, in this order, and then the request for keys if they are wanted.  After
/// that it only repeats requests, and the one for keys only if they are wanted.
pub proof fn law_query_order(
    request_keys: bool,
    capture_packets: bool,
    timeout: u128,
    events: Seq<QueryEventModel>,
)
    ensures
        in_step(
            run(fresh_query(request_keys, capture_packets, timeout), events),
            sent(fresh_query(request_keys, capture_packets, timeout), events),
        ),
    decreases events.len(),
{
    let query = fresh_query(request_keys, capture_packets, timeout);
    if events.len() == 0 {
        assert(opening(request_keys).take(0) == Seq::<Seq<u8>>::empty());
    } else {
        let earlier = events.drop_last();
        law_query_order(request_keys, capture_packets, timeout, earlier);
        lemma_in_step(run(query, earlier), sent(query, earlier), events.last());
    }
}

/// A query that is not to ask for keys never does.
pub proof fn law_keys_only_on_request(
    capture_packets: bool,
    timeout: u128,
    events: Seq<QueryEventModel>,
    i: int,
)
    requires
        0 <= i < sent(fresh_query(false, capture_packets, timeout), events).len(),
    ensures
        sent(fresh_query(false, capture_packets, timeout), events)[i]
            != AAPP_REQUEST_MAGIC_KEYS@,
{
    law_query_order(false, capture_packets, timeout, events);
    law_query_keeps_its_request(fresh_query(false, capture_packets, timeout), events);
    let payloads = sent(fresh_query(false, capture_packets, timeout), events);
    let start = opening(false);
    let phase = run(fresh_query(false, capture_packets, timeout), events).phase;
    assert(AAPP_HANDSHAKE@.len() == 16);
    assert(AAPP_SET_SPECIFIC_FEATURES@.len() == 14);
    assert(AAPP_REQUEST_NOTIFICATIONS@.len() == 11);
    assert(AAPP_REQUEST_MAGIC_KEYS@.len() == 8);
    if i < 4 {
        assert(payloads[i] == start[i]);
    }
}

/// The time at which an event came.
pub open spec fn time_of(event: QueryEventModel) -> u128 {
    match event {
        QueryEventModel::Done { now } => now,
        QueryEventModel::Silence { now } => now,
        QueryEventModel::Packet { now, .. } => now,
    }
}

/// The events come one after the other.
pub open spec fn in_order(events: Seq<QueryEventModel>) -> bool {
    forall|i: int|
        0 < i < events.len() ==> time_of(events[i - 1]) <= time_of(#[trigger] events[i])
}

/// How long packets are read after a payload.
pub open spec fn drain_length(stage: Stage) -> u128 {
    match stage {
        Stage::Handshake => HANDSHAKE_DRAIN,
        Stage::Features => FEATURES_DRAIN,
    }
}

/// Every read waits within its bounds.
pub open spec fn read_in_bounds(phase: QueryPhase) -> bool {
    match phase {
        QueryPhase::Drain { stage, timeout, .. } => READ_LEAST <= timeout <= drain_length(stage),
        QueryPhase::Collect { timeout, .. } => SESSION_LEAST <= timeout <= SECOND,
        _ => true,
    }
}

/// Every read of a query waits for 50 milliseconds at least and for no longer than
/// the reads after its payload take, and while it collects for 100 milliseconds at
/// least and a second at most.
pub proof fn law_reads_in_bounds(
    request_keys: bool,
    capture_packets: bool,
    timeout: u128,
    events: Seq<QueryEventModel>,
)
    requires
        in_order(events),
    ensures
        read_in_bounds(run(fresh_query(request_keys, capture_packets, timeout), events).phase),
        match run(fresh_query(request_keys, capture_packets, timeout), events).phase {
            QueryPhase::Drain { stage, deadline, .. } => events.len() > 0 && deadline <= time_of(
                events.last(),
            ) + drain_length(stage),
            _ => true,
        },
    decreases events.len(),
{
    if events.len() > 0 {
        let earlier = events.drop_last();
        assert forall|i: int| 0 < i < earlier.len() implies time_of(earlier[i - 1]) <= time_of(
            #[trigger] earlier[i],
        ) by {
            assert(events[i - 1] == earlier[i - 1] && events[i] == earlier[i]);
        }
        law_reads_in_bounds(request_keys, capture_packets, timeout, earlier);
        if earlier.len() > 0 {
            assert(events[events.len() - 2] == earlier.last());
            assert(time_of(events[events.len() - 2]) <= time_of(events[events.len() - 1]));
        }
    }
}

/// Reading after a payload goes on while packets come, and ends when none comes in
/// time or when its deadline has come.
pub proof fn law_drain_ends(query: QueryModel, event: QueryEventModel)
    requires
        query.phase is Drain,
        event is Silence || event is Packet,
    ensures
        !(advanced(query, event).phase is Drain) <==> event is Silence || time_of(event)
            >= query.phase->Drain_deadline,
{
}

/// The time at which the collection ends at the latest.
pub open spec fn deadline_of(phase: QueryPhase) -> Option<u128> {
    match phase {
        QueryPhase::Collect { deadline, .. } => Some(deadline),
        QueryPhase::Renotify { deadline, .. } => Some(deadline),
        QueryPhase::Rekey { deadline, .. } => Some(deadline),
        _ => None,
    }
}

/// Once a query collects, its deadline is fixed: it collects on under the same
/// deadline until it has finished.
pub proof fn law_deadline_is_fixed(query: QueryModel, events: Seq<QueryEventModel>)
    requires
        deadline_of(query.phase) is Some,
    ensures
        run(query, events).phase is Finished || deadline_of(run(query, events).phase)
            == deadline_of(query.phase),
    decreases events.len(),
{
    if events.len() > 0 {
        law_deadline_is_fixed(query, events.drop_last());
    }
}

/// A query that has finished does nothing more.
pub proof fn law_finished_stays_finished(query: QueryModel, events: Seq<QueryEventModel>)
    requires
        query.phase is Finished,
    ensures
        run(query, events) == query,
    decreases events.len(),
{
    if events.len() > 0 {
        law_finished_stays_finished(query, events.drop_last());
    }
}

/// A read ends the collection if and only if a packet completed what was asked for,
/// or the deadline has come.
pub proof fn law_collection_ends(query: QueryModel, event: QueryEventModel)
    requires
        query.phase is Collect,
        event is Silence || event is Packet,
    ensures
        advanced(query, event).phase is Finished <==> time_of(event) >= deadline_of(
            query.phase,
        )->0 || event is Packet && complete(advanced(query, event).state, query.request_keys),
{
}

/// A query ends nowhere but in its collection, unless the clock is at its end.
pub proof fn law_only_a_collection_ends(query: QueryModel, event: QueryEventModel)
    requires
        !(query.phase is Finished),
        advanced(query, event).phase is Finished,
        query.timeout > 0,
    ensures
        query.phase is Collect || time_of(event) == u128::MAX,
{
}

/// Notifications are asked for again only while no battery report has come, before
/// the deadline, and not before two seconds have passed since the last time; keys
/// only while they are wanted and have not come, before the deadline, and not before
/// three seconds have passed since the last time.
pub proof fn law_requests_are_spaced(query: QueryModel, event: QueryEventModel)
    requires
        !(query.phase is Renotify),
        !(query.phase is Rekey),
    ensures
        match advanced(query, event).phase {
            QueryPhase::Renotify { deadline, now, .. } => now == time_of(event) && now < deadline
                && advanced(query, event).state.battery is None && (query.phase matches
                QueryPhase::Collect { last_notification, .. } && span(last_notification, now)
                >= NOTIFICATION_PATIENCE),
            QueryPhase::Rekey { deadline, now, .. } => now == time_of(event) && now < deadline
                && query.request_keys && advanced(query, event).state.magic_keys is None && (
            query.phase matches QueryPhase::Collect { last_key, .. } && span(last_key, now)
                >= KEY_PATIENCE),
            _ => true,
        },
{
}

/// The time of a repeated request is remembered as that of the last one.
pub proof fn law_repeats_are_remembered(query: QueryModel, later: u128)
    ensures
        match query.phase {
            QueryPhase::Renotify { now, .. } => match advanced(
                query,
                QueryEventModel::Done { now: later },
            ).phase {
                QueryPhase::Collect { last_notification, .. } => last_notification == now,
                QueryPhase::Rekey { last_notification, .. } => last_notification == now,
                _ => false,
            },
            QueryPhase::Rekey { now, last_notification, .. } => match advanced(
                query,
                QueryEventModel::Done { now: later },
            ).phase {
                QueryPhase::Collect { last_notification: kept, last_key, .. } => last_key == now
                    && kept == last_notification,
                _ => false,
            },
            _ => true,
        },
{
}

} // verus!
