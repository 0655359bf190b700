//! What holds of the packets of the control channel, whatever they carry.

use vstd::prelude::*;

use crate::aap::{
    battery_entry, battery_of, component_after, conversational_awareness_of, ingested,
    is_acknowledgement, is_battery_packet, key_record, lemma_until_zero, magic_keys_of, metadata_of,
    metadata_parts, noise_control_of, BatteryComponent, BatteryEntry, BatteryModel, MagicKeysModel,
    MetadataParts, SessionModel, BATTERY_PREFIX, CONVERSATIONAL_AWARENESS_PREFIX, ENC_KEY,
    FEATURES_ACK_PREFIX, HANDSHAKE_ACK_PREFIX, IRK, MAGIC_KEYS_PREFIX, METADATA_PREFIX,
    NOISE_CONTROL_PREFIX,
};
use crate::adapters::{hex_digit, hex_text};

verus! {

/// The byte at a position of a prefix is the byte at that position of the packet.
proof fn lemma_prefix_byte(prefix: Seq<u8>, packet: Seq<u8>, i: int)
    requires
        prefix.is_prefix_of(packet),
        0 <= i < prefix.len(),
    ensures
        packet.len() >= prefix.len(),
        packet[i] == prefix[i],
{
    assert(packet.subrange(0, prefix.len() as int)[i] == packet[i]);
}

/// The first byte, and the byte that tells the kind of a packet from the others.
proof fn lemma_kind_bytes(packet: Seq<u8>)
    ensures
        HANDSHAKE_ACK_PREFIX@.is_prefix_of(packet) ==> packet.len() >= 4 && packet[0] == 0x01,
        FEATURES_ACK_PREFIX@.is_prefix_of(packet) ==> packet.len() >= 6 && packet[0] == 0x04
            && packet[4] == 0x2b,
        BATTERY_PREFIX@.is_prefix_of(packet) ==> packet.len() >= 6 && packet[0] == 0x04 && packet[4]
            == 0x04,
        METADATA_PREFIX@.is_prefix_of(packet) ==> packet.len() >= 5 && packet[0] == 0x04
            && packet[4] == 0x1d,
        MAGIC_KEYS_PREFIX@.is_prefix_of(packet) ==> packet.len() >= 7 && packet[0] == 0x04
            && packet[4] == 0x31,
        NOISE_CONTROL_PREFIX@.is_prefix_of(packet) ==> packet.len() >= 7 && packet[0] == 0x04
            && packet[4] == 0x09 && packet[6] == 0x0d,
        CONVERSATIONAL_AWARENESS_PREFIX@.is_prefix_of(packet) ==> packet.len() >= 7 && packet[0]
            == 0x04 && packet[4] == 0x09 && packet[6] == 0x28,
{
    if HANDSHAKE_ACK_PREFIX@.is_prefix_of(packet) {
        lemma_prefix_byte(HANDSHAKE_ACK_PREFIX@, packet, 0);
    }
    if FEATURES_ACK_PREFIX@.is_prefix_of(packet) {
        lemma_prefix_byte(FEATURES_ACK_PREFIX@, packet, 0);
        lemma_prefix_byte(FEATURES_ACK_PREFIX@, packet, 4);
    }
    if BATTERY_PREFIX@.is_prefix_of(packet) {
        lemma_prefix_byte(BATTERY_PREFIX@, packet, 0);
        lemma_prefix_byte(BATTERY_PREFIX@, packet, 4);
    }
    if METADATA_PREFIX@.is_prefix_of(packet) {
        lemma_prefix_byte(METADATA_PREFIX@, packet, 0);
        lemma_prefix_byte(METADATA_PREFIX@, packet, 4);
    }
    if MAGIC_KEYS_PREFIX@.is_prefix_of(packet) {
        lemma_prefix_byte(MAGIC_KEYS_PREFIX@, packet, 0);
        lemma_prefix_byte(MAGIC_KEYS_PREFIX@, packet, 4);
    }
    if NOISE_CONTROL_PREFIX@.is_prefix_of(packet) {
        lemma_prefix_byte(NOISE_CONTROL_PREFIX@, packet, 0);
        lemma_prefix_byte(NOISE_CONTROL_PREFIX@, packet, 4);
        lemma_prefix_byte(NOISE_CONTROL_PREFIX@, packet, 6);
    }
    if CONVERSATIONAL_AWARENESS_PREFIX@.is_prefix_of(packet) {
        lemma_prefix_byte(CONVERSATIONAL_AWARENESS_PREFIX@, packet, 0);
        lemma_prefix_byte(CONVERSATIONAL_AWARENESS_PREFIX@, packet, 4);
        lemma_prefix_byte(CONVERSATIONAL_AWARENESS_PREFIX@, packet, 6);
    }
}

/// A packet reports at most one thing, and an acknowledgement reports nothing.
pub proof fn law_one_report_per_packet(packet: Seq<u8>)
    ensures
        is_acknowledgement(packet) ==> battery_of(packet) is None && metadata_of(packet) is None
            && magic_keys_of(packet) is None && noise_control_of(packet) is None
            && conversational_awareness_of(packet) is None,
        battery_of(packet) is Some ==> metadata_of(packet) is None && magic_keys_of(packet) is None
            && noise_control_of(packet) is None && conversational_awareness_of(packet) is None,
        metadata_of(packet) is Some ==> magic_keys_of(packet) is None && noise_control_of(
            packet,
        ) is None && conversational_awareness_of(packet) is None,
        magic_keys_of(packet) is Some ==> noise_control_of(packet) is None
            && conversational_awareness_of(packet) is None,
        noise_control_of(packet) is Some ==> conversational_awareness_of(packet) is None,
{
    lemma_kind_bytes(packet);
}

/// A packet never makes a session forget what it knows, and leaves the captured
/// packets in place.
pub proof fn law_sessions_never_forget(state: SessionModel, packet: Seq<u8>, capture_packets: bool)
    ensures
        state.battery is Some ==> ingested(state, packet, capture_packets).battery is Some,
        state.metadata is Some ==> ingested(state, packet, capture_packets).metadata is Some,
        state.magic_keys is Some ==> ingested(state, packet, capture_packets).magic_keys is Some,
        state.noise_control_mode is Some ==> ingested(
            state,
            packet,
            capture_packets,
        ).noise_control_mode is Some,
        state.conversational_awareness_enabled is Some ==> ingested(
            state,
            packet,
            capture_packets,
        ).conversational_awareness_enabled is Some,
        state.raw_packets.is_prefix_of(ingested(state, packet, capture_packets).raw_packets),
{
}

/// What the session knows after the packets, in their order.
pub open spec fn ingested_all(
    state: SessionModel,
    packets: Seq<Seq<u8>>,
    capture_packets: bool,
) -> SessionModel
    decreases packets.len(),
{
    if packets.len() == 0 {
        state
    } else {
        ingested(
            ingested_all(state, packets.drop_last(), capture_packets),
            packets.last(),
            capture_packets,
        )
    }
}

/// With capturing on, a session keeps the hexadecimal text of every packet in the
/// order of arrival; with capturing off it keeps none.
pub proof fn law_captures_every_packet(
    state: SessionModel,
    packets: Seq<Seq<u8>>,
    capture_packets: bool,
)
    ensures
        ingested_all(state, packets, capture_packets).raw_packets == if capture_packets {
            state.raw_packets + packets.map_values(|packet: Seq<u8>| hex_text(packet))
        } else {
            state.raw_packets
        },
    decreases packets.len(),
{
    let captured = packets.map_values(|packet: Seq<u8>| hex_text(packet));
    if packets.len() > 0 {
        law_captures_every_packet(state, packets.drop_last(), capture_packets);
        let earlier = packets.drop_last().map_values(|packet: Seq<u8>| hex_text(packet));
        assert(captured == earlier.push(hex_text(packets.last())));
        assert(state.raw_packets + captured == (state.raw_packets + earlier).push(
            hex_text(packets.last()),
        ));
    } else {
        assert(state.raw_packets + captured == state.raw_packets);
    }
}

/// The battery status of a session is the one of the last battery packet.
pub proof fn law_last_battery_packet_counts(
    state: SessionModel,
    packets: Seq<Seq<u8>>,
    capture_packets: bool,
    at: int,
)
    requires
        0 <= at < packets.len(),
        battery_of(packets[at]) is Some,
        forall|i: int| at < i < packets.len() ==> battery_of(#[trigger] packets[i]) is None,
    ensures
        ingested_all(state, packets, capture_packets).battery == battery_of(packets[at]),
    decreases packets.len(),
{
    law_one_report_per_packet(packets.last());
    if at < packets.len() - 1 {
        assert(battery_of(packets[packets.len() - 1]) is None);
        assert forall|i: int| at < i < packets.drop_last().len() implies battery_of(
            #[trigger] packets.drop_last()[i],
        ) is None by {
            assert(packets.drop_last()[i] == packets[i]);
        }
        law_last_battery_packet_counts(state, packets.drop_last(), capture_packets, at);
    }
}

/// The metadata of a session is that of the last metadata packet.
pub proof fn law_last_metadata_packet_counts(
    state: SessionModel,
    packets: Seq<Seq<u8>>,
    capture_packets: bool,
    at: int,
)
    requires
        0 <= at < packets.len(),
        metadata_of(packets[at]) is Some,
        forall|i: int| at < i < packets.len() ==> metadata_of(#[trigger] packets[i]) is None,
    ensures
        ingested_all(state, packets, capture_packets).metadata == metadata_of(packets[at]),
    decreases packets.len(),
{
    law_one_report_per_packet(packets.last());
    if at < packets.len() - 1 {
        assert(metadata_of(packets[packets.len() - 1]) is None);
        assert forall|i: int| at < i < packets.drop_last().len() implies metadata_of(
            #[trigger] packets.drop_last()[i],
        ) is None by {
            assert(packets.drop_last()[i] == packets[i]);
        }
        law_last_metadata_packet_counts(state, packets.drop_last(), capture_packets, at);
    }
}

/// The keys of a session are those of the last packet with keys.
pub proof fn law_last_keys_packet_counts(
    state: SessionModel,
    packets: Seq<Seq<u8>>,
    capture_packets: bool,
    at: int,
)
    requires
        0 <= at < packets.len(),
        magic_keys_of(packets[at]) is Some,
        forall|i: int| at < i < packets.len() ==> magic_keys_of(#[trigger] packets[i]) is None,
    ensures
        ingested_all(state, packets, capture_packets).magic_keys == magic_keys_of(packets[at]),
    decreases packets.len(),
{
    law_one_report_per_packet(packets.last());
    if at < packets.len() - 1 {
        assert(magic_keys_of(packets[packets.len() - 1]) is None);
        assert forall|i: int| at < i < packets.drop_last().len() implies magic_keys_of(
            #[trigger] packets.drop_last()[i],
        ) is None by {
            assert(packets.drop_last()[i] == packets[i]);
        }
        law_last_keys_packet_counts(state, packets.drop_last(), capture_packets, at);
    }
}

/// The noise control mode of a session is the one that was reported last.
pub proof fn law_last_noise_control_packet_counts(
    state: SessionModel,
    packets: Seq<Seq<u8>>,
    capture_packets: bool,
    at: int,
)
    requires
        0 <= at < packets.len(),
        noise_control_of(packets[at]) is Some,
        forall|i: int| at < i < packets.len() ==> noise_control_of(#[trigger] packets[i]) is None,
    ensures
        ingested_all(state, packets, capture_packets).noise_control_mode
            == noise_control_of(packets[at]),
    decreases packets.len(),
{
    law_one_report_per_packet(packets.last());
    if at < packets.len() - 1 {
        assert(noise_control_of(packets[packets.len() - 1]) is None);
        assert forall|i: int| at < i < packets.drop_last().len() implies noise_control_of(
            #[trigger] packets.drop_last()[i],
        ) is None by {
            assert(packets.drop_last()[i] == packets[i]);
        }
        law_last_noise_control_packet_counts(state, packets.drop_last(), capture_packets, at);
    }
}

/// Whether conversational awareness is on is what was reported last.
pub proof fn law_last_awareness_packet_counts(
    state: SessionModel,
    packets: Seq<Seq<u8>>,
    capture_packets: bool,
    at: int,
)
    requires
        0 <= at < packets.len(),
        conversational_awareness_of(packets[at]) is Some,
        forall|i: int|
            at < i < packets.len() ==> conversational_awareness_of(#[trigger] packets[i]) is None,
    ensures
        ingested_all(state, packets, capture_packets).conversational_awareness_enabled
            == conversational_awareness_of(packets[at]),
    decreases packets.len(),
{
    law_one_report_per_packet(packets.last());
    if at < packets.len() - 1 {
        assert(conversational_awareness_of(packets[packets.len() - 1]) is None);
        assert forall|i: int|
            at < i < packets.drop_last().len() implies conversational_awareness_of(
            #[trigger] packets.drop_last()[i],
        ) is None by {
            assert(packets.drop_last()[i] == packets[i]);
        }
        law_last_awareness_packet_counts(state, packets.drop_last(), capture_packets, at);
    }
}

/// A component reports a level if and only if it is present, charges only if it is
/// present, and has a status code if it is present.
pub open spec fn component_consistent(component: BatteryComponent) -> bool {
    &&& component.level is Some <==> component.available
    &&& component.charging ==> component.available
    &&& component.available ==> component.status_code is Some
}

proof fn lemma_component_consistent(packet: Seq<u8>, component_type: u8, n: int)
    ensures
        component_consistent(component_after(packet, component_type, n)),
    decreases n,
{
    if n > 0 {
        lemma_component_consistent(packet, component_type, n - 1);
    }
}

/// The four components of every reported battery status are consistent, and a
/// secondary pod is named only beside a primary one.
pub proof fn law_battery_consistent(packet: Seq<u8>, battery: BatteryModel)
    requires
        battery_of(packet) == Some(battery),
    ensures
        component_consistent(battery.left),
        component_consistent(battery.right),
        component_consistent(battery.case_unit),
        component_consistent(battery.headset),
        battery.secondary is Some ==> battery.primary is Some,
{
    let n = packet[6] as int;
    lemma_component_consistent(packet, crate::aap::LEFT, n);
    lemma_component_consistent(packet, crate::aap::RIGHT, n);
    lemma_component_consistent(packet, crate::aap::CASE, n);
    lemma_component_consistent(packet, crate::aap::HEADSET, n);
}

/// The bytes of battery entries.
pub open spec fn entry_bytes(entries: Seq<BatteryEntry>) -> Seq<u8>
    decreases entries.len(),
{
    if entries.len() == 0 {
        Seq::empty()
    } else {
        entry_bytes(entries.drop_last()) + seq![
            entries.last().component_type,
            1u8,
            entries.last().level,
            entries.last().status_code,
            1u8,
        ]
    }
}

/// The battery packet that reports `entries`.
pub open spec fn battery_packet(entries: Seq<BatteryEntry>) -> Seq<u8> {
    BATTERY_PREFIX@ + seq![entries.len() as u8] + entry_bytes(entries)
}

proof fn lemma_entry_bytes(entries: Seq<BatteryEntry>, i: int)
    requires
        0 <= i < entries.len(),
    ensures
        entry_bytes(entries).len() == 5 * entries.len(),
        entry_bytes(entries)[5 * i] == entries[i].component_type,
        entry_bytes(entries)[5 * i + 1] == 1,
        entry_bytes(entries)[5 * i + 2] == entries[i].level,
        entry_bytes(entries)[5 * i + 3] == entries[i].status_code,
        entry_bytes(entries)[5 * i + 4] == 1,
    decreases entries.len(),
{
    let rest = entries.drop_last();
    if rest.len() > 0 {
        lemma_entry_bytes(rest, if i < rest.len() { i } else { 0 });
    }
    assert(entry_bytes(rest).len() == 5 * rest.len());
    if i < rest.len() {
        assert(rest[i] == entries[i]);
    }
}

/// Reading gives back what a battery packet was made of: up to four entries come
/// out as they went in.
pub proof fn law_battery_packet_reads_back(entries: Seq<BatteryEntry>)
    requires
        entries.len() <= 4,
    ensures
        is_battery_packet(battery_packet(entries)),
        battery_of(battery_packet(entries)) is Some,
        battery_packet(entries)[6] == entries.len(),
        forall|i: int|
            0 <= i < entries.len() ==> #[trigger] battery_entry(battery_packet(entries), i)
                == entries[i],
{
    let packet = battery_packet(entries);
    assert(BATTERY_PREFIX@ =~= packet.subrange(0, 6));
    if entries.len() > 0 {
        lemma_entry_bytes(entries, 0);
    }
    assert(entry_bytes(entries).len() == 5 * entries.len());
    assert forall|i: int| 0 <= i < entries.len() implies {
        &&& #[trigger] battery_entry(packet, i) == entries[i]
        &&& crate::aap::entry_marked(packet, i)
    } by {
        lemma_entry_bytes(entries, i);
    }
    assert forall|i: int| 0 <= i < entries.len() implies #[trigger] crate::aap::entry_marked(
        packet,
        i,
    ) by {
        assert(battery_entry(packet, i) == entries[i]);
    }
}

/// The metadata packet with the given six bytes after the prefix, the three names
/// and whatever follows the zero after the last name.
pub open spec fn metadata_packet(six: Seq<u8>, parts: MetadataParts, rest: Seq<u8>) -> Seq<u8> {
    METADATA_PREFIX@ + six + parts.device_name + seq![0u8] + parts.model_number + seq![0u8]
        + parts.manufacturer + seq![0u8] + rest
}

/// Reading gives back the three names of a metadata packet, whatever the bytes
/// before and after them.
pub proof fn law_metadata_packet_reads_back(six: Seq<u8>, parts: MetadataParts, rest: Seq<u8>)
    requires
        six.len() == 6,
        !parts.device_name.contains(0),
        !parts.model_number.contains(0),
        !parts.manufacturer.contains(0),
    ensures
        metadata_parts(metadata_packet(six, parts, rest)) == Some(parts),
{
    let packet = metadata_packet(six, parts, rest);
    assert(METADATA_PREFIX@ =~= packet.subrange(0, 5));
    let first = packet.skip(11);
    let a = parts.device_name.len() as int;
    assert forall|i: int| 0 <= i < a implies #[trigger] first[i] != 0 by {
        assert(first[i] == parts.device_name[i]);
    }
    lemma_until_zero(first, a);
    let second = first.skip(a + 1);
    let b = parts.model_number.len() as int;
    assert forall|i: int| 0 <= i < b implies #[trigger] second[i] != 0 by {
        assert(second[i] == parts.model_number[i]);
    }
    lemma_until_zero(second, b);
    let third = second.skip(b + 1);
    let c = parts.manufacturer.len() as int;
    assert forall|i: int| 0 <= i < c implies #[trigger] third[i] != 0 by {
        assert(third[i] == parts.manufacturer[i]);
    }
    lemma_until_zero(third, c);
    assert(first.take(a) =~= parts.device_name);
    assert(second.take(b) =~= parts.model_number);
    assert(third.take(c) =~= parts.manufacturer);
}

/// The bytes of one key: type, a byte, length, a byte, the key.
pub open spec fn key_bytes(key_type: u8, data: Seq<u8>, x: u8, y: u8) -> Seq<u8> {
    seq![key_type, x, data.len() as u8, y] + data
}

proof fn lemma_key_record(
    before: Seq<u8>,
    key_type: u8,
    data: Seq<u8>,
    x: u8,
    y: u8,
    after: Seq<u8>,
)
    requires
        data.len() <= 255,
    ensures
        ({
            let record = key_record(
                before + key_bytes(key_type, data, x, y) + after,
                before.len() as int,
            );
            &&& record is Some
            &&& record->0.key_type == key_type
            &&& record->0.data == data
            &&& record->0.next == before.len() + 4 + data.len()
        }),
{
    let packet = before + key_bytes(key_type, data, x, y) + after;
    let at = before.len() as int;
    assert(packet[at] == key_type);
    assert(packet[at + 2] == data.len() as u8);
    assert(packet.subrange(at + 4, at + 4 + data.len()) =~= data);
}

/// Reading gives back the two keys of a packet, in either order of the records and
/// whatever the bytes hold that say nothing.
pub proof fn law_magic_keys_packet_reads_back(
    irk: Seq<u8>,
    irk_fill: (u8, u8),
    enc_key: Seq<u8>,
    enc_fill: (u8, u8),
    rest: Seq<u8>,
)
    requires
        irk.len() <= 255,
        enc_key.len() <= 255,
    ensures
        ({
            let a = key_bytes(IRK, irk, irk_fill.0, irk_fill.1);
            let b = key_bytes(ENC_KEY, enc_key, enc_fill.0, enc_fill.1);
            let keys = MagicKeysModel { irk: hex_text(irk), enc_key: hex_text(enc_key) };
            &&& magic_keys_of(MAGIC_KEYS_PREFIX@ + a + b + rest) == Some(keys)
            &&& magic_keys_of(MAGIC_KEYS_PREFIX@ + b + a + rest) == Some(keys)
        }),
{
    let a = key_bytes(IRK, irk, irk_fill.0, irk_fill.1);
    let b = key_bytes(ENC_KEY, enc_key, enc_fill.0, enc_fill.1);
    let p = MAGIC_KEYS_PREFIX@;
    assert(p + a + b + rest =~= p + a + (b + rest));
    assert(p + b + a + rest =~= p + b + (a + rest));
    assert(p =~= (p + a + b + rest).subrange(0, 7));
    assert(p =~= (p + b + a + rest).subrange(0, 7));
    lemma_key_record(p, IRK, irk, irk_fill.0, irk_fill.1, b + rest);
    lemma_key_record(p + a, ENC_KEY, enc_key, enc_fill.0, enc_fill.1, rest);
    lemma_key_record(p, ENC_KEY, enc_key, enc_fill.0, enc_fill.1, a + rest);
    lemma_key_record(p + b, IRK, irk, irk_fill.0, irk_fill.1, rest);
}

/// Different bytes have different hexadecimal texts, so a captured packet can be
/// told from every other.
pub proof fn law_hex_text_identifies(a: Seq<u8>, b: Seq<u8>)
    requires
        hex_text(a) == hex_text(b),
    ensures
        a == b,
{
    assert(hex_text(a).len() == 2 * a.len());
    assert(hex_text(b).len() == 2 * b.len());
    assert forall|i: int| 0 <= i < a.len() implies a[i] == b[i] by {
        lemma_hex_text_at(a, i);
        lemma_hex_text_at(b, i);
        lemma_hex_digit(a[i] as int / 16, b[i] as int / 16);
        lemma_hex_digit(a[i] as int % 16, b[i] as int % 16);
    }
    assert(a =~= b);
}

proof fn lemma_hex_text_at(data: Seq<u8>, i: int)
    requires
        0 <= i < data.len(),
    ensures
        hex_text(data)[2 * i] == hex_digit(data[i] as int / 16),
        hex_text(data)[2 * i + 1] == hex_digit(data[i] as int % 16),
{
    let even = 2 * i;
    let odd = 2 * i + 1;
    assert(even % 2 == 0 && even / 2 == i);
    assert(odd % 2 == 1 && odd / 2 == i);
    assert(hex_text(data)[even] == hex_digit(data[even / 2] as int / 16));
    assert(hex_text(data)[odd] == hex_digit(data[odd / 2] as int % 16));
}

proof fn lemma_hex_digit(d: int, e: int)
    requires
        0 <= d < 16,
        0 <= e < 16,
        hex_digit(d) == hex_digit(e),
    ensures
        d == e,
{
}

} // verus!
