//! What every kind of packet says, byte by byte, and what a session makes of it.

use vstd::prelude::*;

use crate::aap::{
    battery_entry, battery_of, component_after, component_name_of, conversational_awareness_of,
    entry_marked, ingested, is_battery_packet, key_record, lemma_until_zero, magic_keys_of,
    metadata_of, noise_control_of, pods_after, BatteryComponent, BatteryEntry, BatteryModel,
    MagicKeysModel, MetadataModel, MetadataParts, SessionModel, BATTERY_PREFIX,
    CONVERSATIONAL_AWARENESS_PREFIX, ENC_KEY, IRK, MAGIC_KEYS_PREFIX, METADATA_PREFIX,
    NOISE_CONTROL_PREFIX,
};
use crate::aap_laws::{
    battery_packet, key_bytes, law_battery_packet_reads_back, law_metadata_packet_reads_back,
    law_magic_keys_packet_reads_back, law_one_report_per_packet, metadata_packet,
};
use crate::adapters::{hex_text, lossy_text};

verus! {

// ---------------------------------------------------------------------------
// Battery
// ---------------------------------------------------------------------------

/// The component that a type stands for: 1 the headset, 2 the right pod, 4 the left pod,
/// 8 the case.
pub open spec fn component_of(battery: BatteryModel, component_type: int) -> BatteryComponent {
    if component_type == 1 {
        battery.headset
    } else if component_type == 2 {
        battery.right
    } else if component_type == 4 {
        battery.left
    } else {
        battery.case_unit
    }
}

/// A type that stands for a component.
pub open spec fn is_component(component_type: int) -> bool {
    component_type == 1 || component_type == 2 || component_type == 4 || component_type == 8
}

proof fn lemma_component_after(packet: Seq<u8>, kind: u8, n: int, i: int)
    requires
        0 <= i < n,
        battery_entry(packet, i).component_type == kind,
        forall|j: int|
            i < j < n ==> (#[trigger] battery_entry(packet, j)).component_type != kind,
    ensures
        component_after(packet, kind, n) == component_after(packet, kind, i + 1),
    decreases n,
{
    if i < n - 1 {
        assert(battery_entry(packet, n - 1).component_type != kind);
        lemma_component_after(packet, kind, n - 1, i);
    }
}

/// A component carries exactly what the last entry of its type in the packet says: the
/// status of the entry; it is there unless the status is 4, charges if and only if the
/// status is 1, and has the level of the entry if and only if it is there.
pub proof fn law_components_carry_their_entries(entries: Seq<BatteryEntry>, i: int)
    requires
        entries.len() <= 4,
        0 <= i < entries.len(),
        is_component(entries[i].component_type as int),
        forall|j: int|
            i < j < entries.len() ==> (#[trigger] entries[j]).component_type
                != entries[i].component_type,
    ensures
        ({
            let battery = battery_of(battery_packet(entries));
            let component = component_of(battery->0, entries[i].component_type as int);
            &&& battery is Some
            &&& component.status_code == Some(entries[i].status_code)
            &&& component.available <==> entries[i].status_code != 4
            &&& component.charging <==> entries[i].status_code == 1
            &&& component.level == if entries[i].status_code != 4 {
                Some(entries[i].level)
            } else {
                None
            }
        }),
{
    law_battery_packet_reads_back(entries);
    let packet = battery_packet(entries);
    let kind = entries[i].component_type;
    assert(battery_entry(packet, i) == entries[i]);
    assert forall|j: int| i < j < entries.len() implies (#[trigger] battery_entry(
        packet,
        j,
    )).component_type != kind by {
        assert(battery_entry(packet, j) == entries[j]);
    }
    lemma_component_after(packet, kind, entries.len() as int, i);
}

/// The same byte by byte: an entry has its type in the first of its five bytes, its level
/// in the third and its status in the fourth.
pub proof fn law_components_from_bytes(packet: Seq<u8>, i: int)
    requires
        battery_of(packet) is Some,
        0 <= i < packet[6],
        is_component(packet[7 + 5 * i] as int),
        forall|j: int| i < j < packet[6] ==> packet[#[trigger] place(j)] != packet[7 + 5 * i],
    ensures
        ({
            let component = component_of(battery_of(packet)->0, packet[7 + 5 * i] as int);
            let level = packet[9 + 5 * i];
            let status = packet[10 + 5 * i];
            &&& component.status_code == Some(status)
            &&& component.available <==> status != 4
            &&& component.charging <==> status == 1
            &&& component.level == if status != 4 {
                Some(level)
            } else {
                None
            }
        }),
{
    let kind = packet[7 + 5 * i];
    assert forall|j: int| i < j < packet[6] implies (#[trigger] battery_entry(
        packet,
        j,
    )).component_type != kind by {
        assert(packet[place(j)] != kind);
    }
    lemma_component_after(packet, kind, packet[6] as int, i);
}

/// The types 1, 2, 4 and 8 have the names of the components that they stand for, and no
/// other type has a name.
pub proof fn law_component_names(component_type: u8)
    ensures
        component_name_of(component_type) == if component_type == 1 {
            Some("headset"@)
        } else if component_type == 2 {
            Some("right"@)
        } else if component_type == 4 {
            Some("left"@)
        } else if component_type == 8 {
            Some("case"@)
        } else {
            None
        },
{
}

proof fn lemma_no_component(packet: Seq<u8>, kind: u8, n: int)
    requires
        forall|j: int|
            0 <= j < n ==> (#[trigger] battery_entry(packet, j)).component_type != kind,
    ensures
        component_after(packet, kind, n) == component_after(packet, kind, 0),
    decreases n,
{
    if n > 0 {
        assert(battery_entry(packet, n - 1).component_type != kind);
        lemma_no_component(packet, kind, n - 1);
    }
}

/// Of a component without an entry nothing is known.
pub proof fn law_components_without_entry(entries: Seq<BatteryEntry>, component_type: u8)
    requires
        entries.len() <= 4,
        is_component(component_type as int),
        forall|j: int|
            0 <= j < entries.len() ==> (#[trigger] entries[j]).component_type != component_type,
    ensures
        ({
            let battery = battery_of(battery_packet(entries));
            let component = component_of(battery->0, component_type as int);
            &&& battery is Some
            &&& component.status_code is None
            &&& component.level is None
            &&& !component.available
            &&& !component.charging
        }),
{
    law_battery_packet_reads_back(entries);
    let packet = battery_packet(entries);
    assert forall|j: int| 0 <= j < entries.len() implies (#[trigger] battery_entry(
        packet,
        j,
    )).component_type != component_type by {
        assert(battery_entry(packet, j) == entries[j]);
    }
    lemma_no_component(packet, component_type, entries.len() as int);
}

/// The name of what can be worn: the headset, the right pod and the left pod.
pub open spec fn worn_name(component_type: int) -> Option<Seq<char>> {
    if component_type == 1 {
        Some("headset"@)
    } else if component_type == 2 {
        Some("right"@)
    } else if component_type == 4 {
        Some("left"@)
    } else {
        None
    }
}

proof fn lemma_pods(packet: Seq<u8>, n: int, m: int)
    requires
        0 <= m <= n,
        forall|j: int|
            m <= j < n ==> worn_name(
                (#[trigger] battery_entry(packet, j)).component_type as int,
            ) is None,
    ensures
        pods_after(packet, n) == pods_after(packet, m),
    decreases n,
{
    if m < n {
        assert(worn_name(battery_entry(packet, n - 1).component_type as int) is None);
        lemma_pods(packet, n - 1, m);
    }
}

proof fn lemma_pods_grow(packet: Seq<u8>, n: int, m: int)
    requires
        0 <= m <= n,
    ensures
        pods_after(packet, m).is_prefix_of(pods_after(packet, n)),
    decreases n,
{
    if m < n {
        lemma_pods_grow(packet, n - 1, m);
    }
}

/// The primary pod is the first one in the packet, and the secondary one the second.
pub proof fn law_pods_in_order(entries: Seq<BatteryEntry>, i: int, j: int)
    requires
        entries.len() <= 4,
        0 <= i < j < entries.len(),
        worn_name(entries[i].component_type as int) is Some,
        worn_name(entries[j].component_type as int) is Some,
        forall|k: int|
            0 <= k < j && k != i ==> worn_name(
                (#[trigger] entries[k]).component_type as int,
            ) is None,
    ensures
        battery_of(battery_packet(entries))->0.primary == worn_name(
            entries[i].component_type as int,
        ),
        battery_of(battery_packet(entries))->0.secondary == worn_name(
            entries[j].component_type as int,
        ),
{
    law_battery_packet_reads_back(entries);
    let packet = battery_packet(entries);
    let n = entries.len() as int;
    assert(forall|k: int|
        0 <= k < n ==> #[trigger] battery_entry(packet, k) == entries[k]);
    assert forall|k: int| 0 <= k < i implies worn_name(
        (#[trigger] battery_entry(packet, k)).component_type as int,
    ) is None by {
        assert(entries[k] == battery_entry(packet, k));
    }
    lemma_pods(packet, i, 0);
    assert(pods_after(packet, 0) =~= Seq::<Seq<char>>::empty());
    assert forall|k: int| i + 1 <= k < j implies worn_name(
        (#[trigger] battery_entry(packet, k)).component_type as int,
    ) is None by {
        assert(entries[k] == battery_entry(packet, k));
    }
    assert(battery_entry(packet, i) == entries[i]);
    assert(battery_entry(packet, j) == entries[j]);
    lemma_pods(packet, j, i + 1);
    lemma_pods_grow(packet, n, j + 1);
    let pods = pods_after(packet, n);
    let two = pods_after(packet, j + 1);
    assert(two.len() == 2);
    assert(two =~= pods.subrange(0, 2));
    assert(pods[0] == two[0] && pods[1] == two[1]);
}

/// With one pod in the packet there is no secondary one, and without any no primary one.
pub proof fn law_fewer_pods(entries: Seq<BatteryEntry>, i: int)
    requires
        entries.len() <= 4,
        0 <= i <= entries.len(),
        forall|k: int|
            0 <= k < entries.len() && k != i ==> worn_name(
                (#[trigger] entries[k]).component_type as int,
            ) is None,
    ensures
        battery_of(battery_packet(entries))->0.secondary is None,
        battery_of(battery_packet(entries))->0.primary == if i < entries.len() {
            worn_name(entries[i].component_type as int)
        } else {
            None
        },
{
    law_battery_packet_reads_back(entries);
    let packet = battery_packet(entries);
    let n = entries.len() as int;
    assert(forall|k: int|
        0 <= k < n ==> #[trigger] battery_entry(packet, k) == entries[k]);
    assert forall|k: int| 0 <= k < i implies worn_name(
        (#[trigger] battery_entry(packet, k)).component_type as int,
    ) is None by {
        assert(entries[k] == battery_entry(packet, k));
    }
    lemma_pods(packet, i, 0);
    assert(pods_after(packet, 0) =~= Seq::<Seq<char>>::empty());
    if i < n {
        assert forall|k: int| i + 1 <= k < n implies worn_name(
            (#[trigger] battery_entry(packet, k)).component_type as int,
        ) is None by {
            assert(entries[k] == battery_entry(packet, k));
        }
        assert(battery_entry(packet, i) == entries[i]);
        lemma_pods(packet, n, i + 1);
    }
}

/// A packet that reports a battery starts with six bytes that say so, goes on with the
/// number of its entries, at most four, and holds nothing but them, each of five bytes
/// with a 1 in the second and the last place; and every such packet reports one.
pub proof fn law_battery_packets(packet: Seq<u8>)
    ensures
        battery_of(packet) is Some <==> {
            &&& packet.len() >= 7
            &&& packet.take(6) == seq![4u8, 0, 4, 0, 4, 0]
            &&& packet[6] <= 4
            &&& packet.len() == 7 + 5 * packet[6]
            &&& forall|i: int|
                0 <= i < packet[6] ==> packet[#[trigger] place(i) + 1] == 1 && packet[place(i) + 4]
                    == 1
        },
{
    assert(BATTERY_PREFIX@ =~= seq![4u8, 0, 4, 0, 4, 0]);
    if packet.len() >= 7 {
        assert(packet.take(6) =~= packet.subrange(0, 6));
    }
    if is_battery_packet(packet) {
        assert forall|i: int| 0 <= i < packet[6] implies packet[#[trigger] place(i) + 1] == 1
            && packet[place(i) + 4] == 1 by {
            assert(entry_marked(packet, i));
        }
    } else if packet.len() >= 7 && packet.take(6) == seq![4u8, 0, 4, 0, 4, 0] && packet[6] <= 4
        && packet.len() == 7 + 5 * packet[6] && forall|i: int|
        0 <= i < packet[6] ==> packet[#[trigger] place(i) + 1] == 1 && packet[place(i) + 4]
            == 1 {
        assert forall|i: int| 0 <= i < packet[6] implies #[trigger] entry_marked(packet, i) by {
            assert(packet[place(i) + 1] == 1 && packet[place(i) + 4] == 1);
        }
        assert(false);
    }
}

/// Where the entry with the number `i` starts.
pub open spec fn place(i: int) -> int {
    7 + 5 * i
}

// ---------------------------------------------------------------------------
// Metadata
// ---------------------------------------------------------------------------

/// The three names of a metadata packet become the three texts of the metadata.  The last
/// name ends at a zero or at the end of the packet.
pub proof fn law_metadata_texts(six: Seq<u8>, parts: MetadataParts, rest: Seq<u8>)
    requires
        six.len() == 6,
        !parts.device_name.contains(0),
        !parts.model_number.contains(0),
        !parts.manufacturer.contains(0),
    ensures
        ({
            let start = seq![4u8, 0, 4, 0, 0x1d] + six + parts.device_name + seq![0u8]
                + parts.model_number + seq![0u8] + parts.manufacturer;
            let metadata = Some(
                MetadataModel {
                    device_name: Some(lossy_text(parts.device_name)),
                    model_number: Some(lossy_text(parts.model_number)),
                    manufacturer: Some(lossy_text(parts.manufacturer)),
                },
            );
            metadata_of(start + seq![0u8] + rest) == metadata && metadata_of(start) == metadata
        }),
{
    assert(METADATA_PREFIX@ =~= seq![4u8, 0, 4, 0, 0x1d]);
    let start = seq![4u8, 0, 4, 0, 0x1d] + six + parts.device_name + seq![0u8]
        + parts.model_number + seq![0u8] + parts.manufacturer;
    law_metadata_packet_reads_back(six, parts, rest);
    assert(start + seq![0u8] + rest =~= metadata_packet(six, parts, rest));
    lemma_names(start, six, parts.device_name, parts.model_number, parts.manufacturer);
}

proof fn lemma_names(packet: Seq<u8>, six: Seq<u8>, x: Seq<u8>, y: Seq<u8>, z: Seq<u8>)
    requires
        six.len() == 6,
        packet == seq![4u8, 0, 4, 0, 0x1d] + six + x + seq![0u8] + y + seq![0u8] + z,
        !x.contains(0),
        !y.contains(0),
        !z.contains(0),
    ensures
        metadata_of(packet) == Some(
            MetadataModel {
                device_name: Some(lossy_text(x)),
                model_number: Some(lossy_text(y)),
                manufacturer: Some(lossy_text(z)),
            },
        ),
{
    assert(METADATA_PREFIX@ =~= packet.subrange(0, 5));
    let first = packet.skip(11);
    let a = x.len() as int;
    assert forall|i: int| 0 <= i < a implies #[trigger] first[i] != 0 by {
        assert(first[i] == x[i]);
    }
    assert(first[a] == 0);
    lemma_until_zero(first, a);
    let second = first.skip(a + 1);
    let b = y.len() as int;
    assert forall|i: int| 0 <= i < b implies #[trigger] second[i] != 0 by {
        assert(second[i] == y[i]);
    }
    assert(second[b] == 0);
    lemma_until_zero(second, b);
    let third = second.skip(b + 1);
    assert(third =~= z);
    assert forall|i: int| 0 <= i < z.len() implies #[trigger] third[i] != 0 by {
        assert(third[i] == z[i]);
    }
    lemma_until_zero(third, z.len() as int);
    assert(first.take(a) =~= x);
    assert(second.take(b) =~= y);
    assert(third.take(z.len() as int) =~= z);
}

/// A packet without the prefix, with six bytes or fewer behind it, or with fewer than two
/// zeros behind those six bytes, holds no metadata.
pub proof fn law_metadata_needs_names(packet: Seq<u8>, six: Seq<u8>, x: Seq<u8>, y: Seq<u8>)
    requires
        six.len() == 6,
        !x.contains(0),
        !y.contains(0),
    ensures
        metadata_of(packet) is Some ==> packet.len() > 11 && packet.take(5) == seq![
            4u8,
            0,
            4,
            0,
            0x1d,
        ],
        metadata_of(seq![4u8, 0, 4, 0, 0x1d] + six + x) is None,
        metadata_of(seq![4u8, 0, 4, 0, 0x1d] + six + x + seq![0u8] + y) is None,
{
    assert(METADATA_PREFIX@ =~= seq![4u8, 0, 4, 0, 0x1d]);
    if packet.len() > 11 {
        assert(packet.take(5) =~= packet.subrange(0, 5));
    }
    let one = seq![4u8, 0, 4, 0, 0x1d] + six + x;
    assert(one.skip(11) =~= x);
    assert forall|i: int| 0 <= i < x.len() implies #[trigger] x[i] != 0 by {}
    lemma_until_zero(x, x.len() as int);
    let two = one + seq![0u8] + y;
    let first = two.skip(11);
    assert forall|i: int| 0 <= i < x.len() implies #[trigger] first[i] != 0 by {
        assert(first[i] == x[i]);
    }
    assert(first[x.len() as int] == 0);
    lemma_until_zero(first, x.len() as int);
    assert(first.skip(x.len() as int + 1) =~= y);
    assert forall|i: int| 0 <= i < y.len() implies #[trigger] y[i] != 0 by {}
    lemma_until_zero(y, y.len() as int);
}

// ---------------------------------------------------------------------------
// Keys
// ---------------------------------------------------------------------------

/// The bytes of a key: its type, a byte, its length, a byte, and the key.
pub open spec fn key_part(key_type: u8, fill: (u8, u8), data: Seq<u8>) -> Seq<u8> {
    seq![key_type, fill.0, data.len() as u8, fill.1] + data
}

/// A packet hands over keys if and only if it is made of the seven bytes that say so, a
/// key of type 1 and a key of type 4 in either order, and whatever follows.  They are
/// shown in hexadecimal digits.
pub proof fn law_keys_packets(packet: Seq<u8>)
    ensures
        magic_keys_of(packet) matches Some(keys) ==> exists|
            irk: Seq<u8>,
            irk_fill: (u8, u8),
            enc_key: Seq<u8>,
            enc_fill: (u8, u8),
            rest: Seq<u8>,
        | #[trigger]
            holds_keys(packet, irk, irk_fill, enc_key, enc_fill, rest) && keys.irk == hex_text(irk)
                && keys.enc_key == hex_text(enc_key),
{
    if magic_keys_of(packet) is Some {
        let prefix = seq![4u8, 0, 4, 0, 0x31, 0, 2];
        assert(MAGIC_KEYS_PREFIX@ =~= prefix);
        assert(packet.subrange(0, 7) == prefix);
        let first = key_record(packet, 7)->0;
        let second = key_record(packet, first.next)->0;
        let f1 = (packet[8], packet[10]);
        let f2 = (packet[first.next + 1], packet[first.next + 3]);
        let rest = packet.skip(second.next);
        let a = key_part(first.key_type, f1, first.data);
        let b = key_part(second.key_type, f2, second.data);
        let whole = prefix + a + b + rest;
        assert(first.data.len() == packet[9]);
        assert(second.data.len() == packet[first.next + 2]);
        assert(whole.len() == packet.len());
        assert forall|k: int| 0 <= k < packet.len() implies whole[k] == packet[k] by {
            if k < 7 {
                assert(packet.subrange(0, 7)[k] == packet[k]);
            }
        }
        assert(packet =~= whole);
        if first.key_type == IRK {
            assert(holds_keys(packet, first.data, f1, second.data, f2, rest));
        } else {
            assert(holds_keys(packet, second.data, f2, first.data, f1, rest));
        }
    }
}

/// The packet is made of these parts, the two keys in either order.
pub open spec fn holds_keys(
    packet: Seq<u8>,
    irk: Seq<u8>,
    irk_fill: (u8, u8),
    enc_key: Seq<u8>,
    enc_fill: (u8, u8),
    rest: Seq<u8>,
) -> bool {
    let prefix = seq![4u8, 0, 4, 0, 0x31, 0, 2];
    let a = key_part(1, irk_fill, irk);
    let b = key_part(4, enc_fill, enc_key);
    &&& irk.len() <= 255
    &&& enc_key.len() <= 255
    &&& packet == prefix + a + b + rest || packet == prefix + b + a + rest
}

/// Every packet that is made of these parts hands over the keys.
pub proof fn law_keys_are_handed_over(
    packet: Seq<u8>,
    irk: Seq<u8>,
    irk_fill: (u8, u8),
    enc_key: Seq<u8>,
    enc_fill: (u8, u8),
    rest: Seq<u8>,
)
    requires
        holds_keys(packet, irk, irk_fill, enc_key, enc_fill, rest),
    ensures
        magic_keys_of(packet) == Some(
            MagicKeysModel { irk: hex_text(irk), enc_key: hex_text(enc_key) },
        ),
{
    assert(MAGIC_KEYS_PREFIX@ =~= seq![4u8, 0, 4, 0, 0x31, 0, 2]);
    law_magic_keys_packet_reads_back(irk, irk_fill, enc_key, enc_fill, rest);
    assert(key_part(1, irk_fill, irk) == key_bytes(IRK, irk, irk_fill.0, irk_fill.1));
    assert(key_part(4, enc_fill, enc_key) == key_bytes(ENC_KEY, enc_key, enc_fill.0, enc_fill.1));
}

/// In hexadecimal text every byte has two digits, of which the first is worth its sixteen
/// parts and the second the remainder.
pub proof fn law_hex_text(data: Seq<u8>, i: int)
    requires
        0 <= i < data.len(),
    ensures
        hex_text(data).len() == 2 * data.len(),
        ({
            let high = hex_text(data)[2 * i] as int;
            let low = hex_text(data)[2 * i + 1] as int;
            &&& 48 <= high <= 57 || 97 <= high <= 102
            &&& 48 <= low <= 57 || 97 <= low <= 102
            &&& data[i] == 16 * (if high <= 57 {
                high - 48
            } else {
                high - 87
            }) + (if low <= 57 {
                low - 48
            } else {
                low - 87
            })
        }),
{
    let even = 2 * i;
    let odd = 2 * i + 1;
    assert(even % 2 == 0 && even / 2 == i);
    assert(odd % 2 == 1 && odd / 2 == i);
    assert(hex_text(data)[even] == crate::adapters::hex_digit(data[even / 2] as int / 16));
    assert(hex_text(data)[odd] == crate::adapters::hex_digit(data[odd / 2] as int % 16));
}

// ---------------------------------------------------------------------------
// Settings
// ---------------------------------------------------------------------------

/// A packet reports a noise control mode if and only if it starts with seven bytes that
/// say so and the next byte is one of the four modes; that byte is the mode.
pub proof fn law_noise_control_packets(packet: Seq<u8>, mode: u8)
    ensures
        noise_control_of(packet) == Some(mode) <==> packet.len() >= 8 && packet.take(7) == seq![
            4u8,
            0,
            4,
            0,
            9,
            0,
            0x0d,
        ] && packet[7] == mode && 1 <= mode <= 4,
{
    assert(NOISE_CONTROL_PREFIX@ =~= seq![4u8, 0, 4, 0, 9, 0, 0x0d]);
    if packet.len() >= 8 {
        assert(packet.take(7) =~= packet.subrange(0, 7));
    }
}

/// A packet reports conversational awareness if and only if it starts with seven bytes
/// that say so and the next byte is 1 for on or 2 for off.
pub proof fn law_awareness_packets(packet: Seq<u8>, enabled: bool)
    ensures
        conversational_awareness_of(packet) == Some(enabled) <==> packet.len() >= 8
            && packet.take(7) == seq![4u8, 0, 4, 0, 9, 0, 0x28] && packet[7] == if enabled {
            1u8
        } else {
            2u8
        },
{
    assert(CONVERSATIONAL_AWARENESS_PREFIX@ =~= seq![4u8, 0, 4, 0, 9, 0, 0x28]);
    if packet.len() >= 8 {
        assert(packet.take(7) =~= packet.subrange(0, 7));
    }
}

// ---------------------------------------------------------------------------
// Sessions
// ---------------------------------------------------------------------------

/// A packet changes of a session exactly what it reports, and nothing else; and it is
/// kept in hexadecimal digits if and only if packets are captured.
pub proof fn law_session_takes_reports(state: SessionModel, packet: Seq<u8>, capture_packets: bool)
    ensures
        ({
            let next = ingested(state, packet, capture_packets);
            &&& battery_of(packet) is Some ==> next.battery == battery_of(packet)
            &&& battery_of(packet) is None ==> next.battery == state.battery
            &&& metadata_of(packet) is Some ==> next.metadata == metadata_of(packet)
            &&& metadata_of(packet) is None ==> next.metadata == state.metadata
            &&& magic_keys_of(packet) is Some ==> next.magic_keys == magic_keys_of(packet)
            &&& magic_keys_of(packet) is None ==> next.magic_keys == state.magic_keys
            &&& noise_control_of(packet) is Some ==> next.noise_control_mode == noise_control_of(
                packet,
            )
            &&& noise_control_of(packet) is None ==> next.noise_control_mode
                == state.noise_control_mode
            &&& conversational_awareness_of(packet) is Some
                ==> next.conversational_awareness_enabled == conversational_awareness_of(packet)
            &&& conversational_awareness_of(packet) is None
                ==> next.conversational_awareness_enabled
                == state.conversational_awareness_enabled
            &&& capture_packets ==> next.raw_packets == state.raw_packets + seq![hex_text(packet)]
            &&& !capture_packets ==> next.raw_packets == state.raw_packets
        }),
{
    law_one_report_per_packet(packet);
}

} // verus!
