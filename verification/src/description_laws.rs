//! What a line of a listing tells, what a whole description tells, and what the status of
//! a device takes from it.

use vstd::prelude::*;

use crate::aap::SessionModel;
use crate::adapters::{without_colour, without_tree};
use crate::bluez::{
    device_of_line, devices_of_lines, info_of_busctl, info_of_command, info_of_line,
    info_of_lines, info_of_properties, preferred_info, property_count, property_names,
    property_of_command, tree_entry, DeviceModel,
};
use crate::command::CommandOutcome;
use crate::listing_laws::{is_trimmed, is_word, law_plain_text_is_kept};
use crate::name_laws::law_classic_bearer_follows_device;
use crate::property::{
    json_document, property_of_json, property_text, property_texts, JsonModel,
};
use crate::pulse::{
    card_of_line, cards_of_lines, default_sink_of_command, sink_of_line, sinks_of_lines,
    stream_of_line, streams_of_command, streams_of_lines, CardModel, SinkModel,
};
use crate::status::{status_of, with_session, StatusModel};
use crate::text::{
    decimal_i32, is_white, joined, lemma_trimmed_end, lemma_until_char, lemma_until_char_bounds,
    lemma_word_len, lemma_word_len_bounds, lines, trimmed, trimmed_end, until_char, word_len, words,
};
use crate::text_laws::{all_white, law_trimmed};

verus! {

// ---------------------------------------------------------------------------
// One line
// ---------------------------------------------------------------------------

/// A line without colours and without white characters around it lists a device if and
/// only if it is `Device`, a blank, a word, a white character, and a rest.  The word is
/// the address, and the rest without white characters around it the name.
pub proof fn law_device_lines(line: Seq<char>, mac: Seq<char>, blank: char, rest: Seq<char>)
    ensures
        trimmed(without_colour(line)) == "Device "@ + mac + seq![blank] + rest && is_word(mac)
            && is_white(blank) ==> device_of_line(line) == Some(
            DeviceModel { mac, name: trimmed(rest) },
        ),
        device_of_line(line) matches Some(device) ==> is_word(device.mac) && exists|
            between: char,
            tail: Seq<char>,
        |
            is_white(between) && device.name == trimmed(tail) && trimmed(without_colour(line))
                == #[trigger] ("Device "@ + device.mac + seq![between] + tail),
{
    reveal_strlit("Device ");
    let entry = trimmed(without_colour(line));
    if entry == "Device "@ + mac + seq![blank] + rest && is_word(mac) && is_white(blank) {
        let n = mac.len() as int;
        let tail = entry.skip(7);
        assert(entry.subrange(0, 7) =~= "Device "@);
        assert(tail =~= mac + seq![blank] + rest);
        assert forall|i: int| 0 <= i < n implies !is_white(#[trigger] tail[i]) by {
            assert(tail[i] == mac[i]);
        }
        assert(tail[n] == blank);
        lemma_word_len(tail, n);
        assert(tail.take(n) =~= mac);
        assert(tail.skip(n + 1) =~= rest);
    }
    if let Some(device) = device_of_line(line) {
        let after = entry.skip(7);
        let n = word_len(after) as int;
        lemma_word_len_bounds(after);
        let between = after[n];
        let tail = after.skip(n + 1);
        assert forall|i: int| 0 <= i < device.mac.len() implies !is_white(
            #[trigger] device.mac[i],
        ) by {
            assert(device.mac[i] == after[i]);
        }
        assert(entry =~= "Device "@ + device.mac + seq![between] + tail) by {
            assert(entry.subrange(0, 7) =~= "Device "@);
            assert forall|k: int| 0 <= k < 7 implies entry[k] == "Device "@[k] by {
                assert(entry.subrange(0, 7)[k] == entry[k]);
            }
        }
    }
}

/// A line without colours and without white characters behind it tells a name and a value
/// if and only if it holds a colon and does not start with `Device` and a blank.  The name
/// stands before the first colon and the value behind it, both without white characters
/// around them.
pub proof fn law_info_lines(line: Seq<char>, key: Seq<char>, value: Seq<char>)
    ensures
        ({
            let entry = trimmed_end(without_colour(line));
            &&& entry == key + seq![':'] + value && !key.contains(':') && !"Device "@.is_prefix_of(
                entry,
            ) ==> info_of_line(line) == Some((trimmed(key), trimmed(value)))
            &&& !entry.contains(':') || "Device "@.is_prefix_of(entry) ==> info_of_line(
                line,
            ) is None
        }),
{
    let entry = trimmed_end(without_colour(line));
    if entry == key + seq![':'] + value && !key.contains(':') {
        let n = key.len() as int;
        assert forall|i: int| 0 <= i < n implies #[trigger] entry[i] != ':' by {
            assert(entry[i] == key[i]);
        }
        assert(entry[n] == ':');
        lemma_until_char(entry, ':', n);
        assert(entry.take(n) =~= key);
        assert(entry.skip(n + 1) =~= value);
    }
    if !entry.contains(':') {
        lemma_until_char_bounds(entry, ':');
        let n = until_char(entry, ':') as int;
        if n < entry.len() {
            assert(entry[n] == ':');
        }
    }
}

/// A line lists a sink if and only if it has five words or more and the first of them is a
/// number: that is its number, the second word its name, and the last one its state.  It
/// lists a card with two words or more, by number and name, and a stream with one, by
/// number.
pub proof fn law_audio_lines(line: Seq<char>, sink: SinkModel, card: CardModel, stream: i32)
    ensures
        sink_of_line(line) == Some(sink) <==> words(line).len() >= 5 && decimal_i32(words(line)[0])
            == Some(sink.sink_id) && sink.name == words(line)[1] && sink.state == words(
            line,
        )[words(line).len() - 1],
        card_of_line(line) == Some(card) <==> words(line).len() >= 2 && decimal_i32(words(line)[0])
            == Some(card.card_id) && card.name == words(line)[1],
        stream_of_line(line) == Some(stream) <==> words(line).len() >= 1 && decimal_i32(
            words(line)[0],
        ) == Some(stream),
{
}

/// A listing of one line holds what the line lists.
pub proof fn law_single_lines(line: Seq<char>)
    ensures
        device_of_line(line) is Some ==> devices_of_lines(seq![line]) == seq![
            device_of_line(line)->0,
        ],
        device_of_line(line) is None ==> devices_of_lines(seq![line]).len() == 0,
        sink_of_line(line) is Some ==> sinks_of_lines(seq![line]) == seq![sink_of_line(line)->0],
        sink_of_line(line) is None ==> sinks_of_lines(seq![line]).len() == 0,
        card_of_line(line) is Some ==> cards_of_lines(seq![line]) == seq![card_of_line(line)->0],
        card_of_line(line) is None ==> cards_of_lines(seq![line]).len() == 0,
        stream_of_line(line) is Some ==> streams_of_lines(seq![line]) == seq![
            stream_of_line(line)->0,
        ],
        stream_of_line(line) is None ==> streams_of_lines(seq![line]).len() == 0,
{
    let one = seq![line];
    assert(one.drop_last() =~= Seq::<Seq<char>>::empty());
    reveal_with_fuel(devices_of_lines, 2);
    reveal_with_fuel(sinks_of_lines, 2);
    reveal_with_fuel(cards_of_lines, 2);
    reveal_with_fuel(streams_of_lines, 2);
    assert(device_of_line(line) is Some ==> devices_of_lines(one) =~= seq![
        device_of_line(line)->0,
    ]);
    assert(sink_of_line(line) is Some ==> sinks_of_lines(one) =~= seq![sink_of_line(line)->0]);
    assert(card_of_line(line) is Some ==> cards_of_lines(one) =~= seq![card_of_line(line)->0]);
    assert(stream_of_line(line) is Some ==> streams_of_lines(one) =~= seq![
        stream_of_line(line)->0,
    ]);
}

/// The entry of a line of a tree stands behind the drawing, without white characters
/// around it.
pub proof fn law_tree_entries(line: Seq<char>)
    ensures
        tree_entry(line) == trimmed(without_tree(line)),
{
}

// ---------------------------------------------------------------------------
// A whole description
// ---------------------------------------------------------------------------

/// The line tells nothing under the name.
pub open spec fn silent_on(line: Seq<char>, key: Seq<char>) -> bool {
    match info_of_line(line) {
        Some((other, _)) => other != key,
        None => true,
    }
}

/// A description tells under a name what its last line with that name tells, and nothing
/// where no line has the name.
pub proof fn law_last_line_tells(ls: Seq<Seq<char>>, key: Seq<char>, k: int)
    requires
        -1 <= k < ls.len(),
        k >= 0 ==> !silent_on(ls[k], key),
        forall|j: int| k < j < ls.len() ==> silent_on(#[trigger] ls[j], key),
    ensures
        k >= 0 ==> info_of_lines(ls).contains_key(key) && info_of_lines(ls)[key] == (
        info_of_line(ls[k])->0).1,
        k < 0 ==> !info_of_lines(ls).contains_key(key),
    decreases ls.len(),
{
    if ls.len() > 0 {
        let earlier = ls.drop_last();
        assert(ls.last() == ls[ls.len() - 1]);
        if k < ls.len() - 1 {
            assert(silent_on(ls[ls.len() - 1], key));
            assert forall|j: int| k < j < earlier.len() implies silent_on(
                #[trigger] earlier[j],
                key,
            ) by {
                assert(earlier[j] == ls[j]);
            }
            law_last_line_tells(earlier, key, k);
        }
    }
}

/// The line tells the value under the name: they stand on it with a colon and a blank
/// between them, and nothing but white characters around them.
pub open spec fn tells(
    line: Seq<char>,
    key: Seq<char>,
    value: Seq<char>,
    before: Seq<char>,
    behind: Seq<char>,
) -> bool {
    &&& line == before + key + seq![':', ' '] + value + behind
    &&& all_white(before)
    &&& all_white(behind)
    &&& value.len() == 0 || is_trimmed(value)
    &&& !value.contains('\u{1b}')
}

proof fn lemma_tells(
    line: Seq<char>,
    key: Seq<char>,
    value: Seq<char>,
    before: Seq<char>,
    behind: Seq<char>,
)
    requires
        tells(line, key, value, before, behind),
        key == "Name"@ || key == "Alias"@ || key == "Paired"@ || key == "Trusted"@ || key
            == "Connected"@ || key == "BREDR.Connected"@,
    ensures
        info_of_line(line) == Some((key, value)),
{
    reveal_strlit("Name");
    reveal_strlit("Alias");
    reveal_strlit("Paired");
    reveal_strlit("Trusted");
    reveal_strlit("Connected");
    reveal_strlit("BREDR.Connected");
    reveal_strlit("Device ");
    let nothing = Seq::<char>::empty();
    let blank = seq![' '];
    let front = before + key;
    let n = front.len() as int;
    assert(is_trimmed(key));
    assert(!key.contains(':') && !key.contains('\u{1b}'));
    assert forall|i: int| 0 <= i < line.len() implies #[trigger] line[i] != '\u{1b}' by {
        if i < before.len() {
            assert(line[i] == before[i]);
        } else if i < n {
            assert(line[i] == key[i - before.len()]);
        } else if i >= n + 2 + value.len() {
            assert(line[i] == behind[i - n - 2 - value.len()]);
        } else if i >= n + 2 {
            assert(line[i] == value[i - n - 2]);
        }
    }
    law_plain_text_is_kept(line);
    assert forall|i: int| 0 <= i < n implies #[trigger] front[i] != ':' by {
        if i < before.len() {
            assert(is_white(before[i]));
        } else {
            assert(front[i] == key[i - before.len()]);
        }
    }
    let told = if value.len() > 0 {
        blank + value
    } else {
        nothing
    };
    let entry = front + seq![':'] + told;
    assert(entry =~= line.take(entry.len() as int));
    assert forall|i: int| entry.len() <= i < line.len() implies is_white(#[trigger] line[i]) by {
        if i >= n + 2 + value.len() {
            assert(line[i] == behind[i - n - 2 - value.len()]);
        } else {
            assert(line[i] == ' ');
        }
    }
    assert(!is_white(line[entry.len() - 1])) by {
        if value.len() > 0 {
            assert(line[entry.len() - 1] == value.last());
        } else {
            assert(line[entry.len() - 1] == ':');
        }
    }
    lemma_trimmed_end(line, entry.len() as int);
    assert(!"Device "@.is_prefix_of(entry)) by {
        if "Device "@.is_prefix_of(entry) {
            assert(entry.subrange(0, 7)[0] == entry[0]);
            if before.len() > 0 {
                assert(entry[0] == before[0] && is_white(before[0]));
            } else {
                assert(entry[0] == key[0]);
            }
        }
    }
    law_info_lines(line, front, told);
    assert(front + nothing =~= front);
    law_trimmed(before, key, nothing);
    assert(blank + value + nothing =~= blank + value);
    assert(nothing + nothing + nothing =~= nothing);
    law_trimmed(blank, value, nothing);
    law_trimmed(nothing, nothing, nothing);
    assert(value.len() == 0 ==> value =~= nothing);
}

/// A flag of a status follows its own line of the description and nothing else.
pub open spec fn follows(
    flag: bool,
    ls: Seq<Seq<char>>,
    key: Seq<char>,
    value: Seq<char>,
    around: (Seq<char>, Seq<char>),
    k: int,
) -> bool {
    &&& 0 <= k < ls.len() && tells(ls[k], key, value, around.0, around.1) && (forall|j: int|
        k < j < ls.len() ==> silent_on(#[trigger] ls[j], key)) ==> (flag <==> value == seq![
        'y',
        'e',
        's',
    ])
    &&& (forall|j: int| 0 <= j < ls.len() ==> silent_on(#[trigger] ls[j], key)) ==> !flag
}

/// Whether a device is paired, trusted and connected, and connected over the classic
/// bearer, is what the last line under that very name says: `yes`, or anything else.
/// Without such a line it is not.
pub proof fn law_status_follows_lines(
    device: DeviceModel,
    ls: Seq<Seq<char>>,
    sink: Option<SinkModel>,
    card: Option<CardModel>,
    default_sink: Option<Seq<char>>,
    value: Seq<char>,
    around: (Seq<char>, Seq<char>),
    k: int,
)
    ensures
        ({
            let status = status_of(device, info_of_lines(ls), sink, card, default_sink);
            &&& follows(status.paired, ls, "Paired"@, value, around, k)
            &&& follows(status.trusted, ls, "Trusted"@, value, around, k)
            &&& follows(status.connected, ls, "Connected"@, value, around, k)
            &&& follows(status.breder_connected, ls, "BREDR.Connected"@, value, around, k)
        }),
{
    reveal_strlit("yes");
    assert("yes"@ =~= seq!['y', 'e', 's']);
    lemma_follows(ls, "Paired"@, value, around, k);
    lemma_follows(ls, "Trusted"@, value, around, k);
    lemma_follows(ls, "Connected"@, value, around, k);
    lemma_follows(ls, "BREDR.Connected"@, value, around, k);
}

proof fn lemma_follows(
    ls: Seq<Seq<char>>,
    key: Seq<char>,
    value: Seq<char>,
    around: (Seq<char>, Seq<char>),
    k: int,
)
    requires
        key == "Name"@ || key == "Alias"@ || key == "Paired"@ || key == "Trusted"@ || key
            == "Connected"@ || key == "BREDR.Connected"@,
    ensures
        0 <= k < ls.len() && tells(ls[k], key, value, around.0, around.1) && (forall|j: int|
            k < j < ls.len() ==> silent_on(#[trigger] ls[j], key)) ==> info_of_lines(
            ls,
        ).contains_key(key) && info_of_lines(ls)[key] == value,
        (forall|j: int| 0 <= j < ls.len() ==> silent_on(#[trigger] ls[j], key))
            ==> !info_of_lines(ls).contains_key(key),
{
    if 0 <= k < ls.len() && tells(ls[k], key, value, around.0, around.1) && (forall|j: int|
        k < j < ls.len() ==> silent_on(#[trigger] ls[j], key)) {
        lemma_tells(ls[k], key, value, around.0, around.1);
        law_last_line_tells(ls, key, k);
    }
    if forall|j: int| 0 <= j < ls.len() ==> silent_on(#[trigger] ls[j], key) {
        law_last_line_tells(ls, key, -1);
    }
}

/// Whatever the description comes from, each of the four is set if and only if `yes` stands
/// under its own name; the name and the alias are what stands under theirs, and otherwise
/// the name by which the device was found.
pub proof fn law_status_of_description(
    device: DeviceModel,
    info: Map<Seq<char>, Seq<char>>,
    sink: Option<SinkModel>,
    card: Option<CardModel>,
    default_sink: Option<Seq<char>>,
)
    ensures
        ({
            let status = status_of(device, info, sink, card, default_sink);
            let yes = seq!['y', 'e', 's'];
            &&& status.paired <==> info.contains_pair("Paired"@, yes)
            &&& status.trusted <==> info.contains_pair("Trusted"@, yes)
            &&& status.connected <==> info.contains_pair("Connected"@, yes)
            &&& status.breder_connected <==> info.contains_pair("BREDR.Connected"@, yes)
            &&& info.contains_key("Name"@) ==> status.name == info["Name"@]
            &&& !info.contains_key("Name"@) ==> status.name == device.name
            &&& info.contains_key("Alias"@) ==> status.alias == info["Alias"@]
            &&& !info.contains_key("Alias"@) ==> status.alias == device.name
        }),
{
    reveal_strlit("yes");
    assert("yes"@ =~= seq!['y', 'e', 's']);
}

/// The name and the alias in a status are what the last lines under `Name` and `Alias`
/// say, and the name by which the device was found where there is no such line.
pub proof fn law_status_names(
    device: DeviceModel,
    ls: Seq<Seq<char>>,
    sink: Option<SinkModel>,
    card: Option<CardModel>,
    default_sink: Option<Seq<char>>,
    value: Seq<char>,
    around: (Seq<char>, Seq<char>),
    k: int,
)
    ensures
        ({
            let status = status_of(device, info_of_lines(ls), sink, card, default_sink);
            &&& 0 <= k < ls.len() && tells(ls[k], "Name"@, value, around.0, around.1) && (
            forall|j: int| k < j < ls.len() ==> silent_on(#[trigger] ls[j], "Name"@))
                ==> status.name == value
            &&& 0 <= k < ls.len() && tells(ls[k], "Alias"@, value, around.0, around.1) && (
            forall|j: int| k < j < ls.len() ==> silent_on(#[trigger] ls[j], "Alias"@))
                ==> status.alias == value
            &&& (forall|j: int| 0 <= j < ls.len() ==> silent_on(#[trigger] ls[j], "Name"@))
                ==> status.name == device.name
            &&& (forall|j: int| 0 <= j < ls.len() ==> silent_on(#[trigger] ls[j], "Alias"@))
                ==> status.alias == device.name
        }),
{
    lemma_follows(ls, "Name"@, value, around, k);
    lemma_follows(ls, "Alias"@, value, around, k);
}

/// The rest of a status is the address, the sink with its state, the card and the default
/// sink as they are, and whether the name of the sink is that of the default one; nothing
/// is known yet of what only the device can tell.
pub proof fn law_status_routes(
    device: DeviceModel,
    info: Map<Seq<char>, Seq<char>>,
    sink: SinkModel,
    card: CardModel,
    default_sink: Option<Seq<char>>,
)
    ensures
        ({
            let with = status_of(device, info, Some(sink), Some(card), default_sink);
            let without = status_of(device, info, None, None, default_sink);
            &&& with.mac == device.mac && without.mac == device.mac
            &&& with.sink == Some(sink.name) && without.sink is None
            &&& with.sink_state == Some(sink.state) && without.sink_state is None
            &&& with.card == Some(card.name) && without.card is None
            &&& with.default_sink == default_sink && without.default_sink == default_sink
            &&& with.default_is_airpods <==> default_sink == Some(sink.name)
            &&& !without.default_is_airpods
            &&& with.battery is None && with.metadata is None && with.magic_keys is None
            &&& with.noise_control_mode is None && with.conversational_awareness_enabled is None
            &&& with.raw_packets is None && without.raw_packets is None
            &&& without.battery is None && without.metadata is None && without.magic_keys is None
        }),
{
}

/// A session fills in what the device tells, each thing in its place, and leaves alone
/// what the system tells.
pub proof fn law_session_fills_in(status: StatusModel, state: SessionModel)
    ensures
        ({
            let filled = with_session(status, state);
            &&& filled.battery == state.battery
            &&& filled.metadata == state.metadata
            &&& filled.magic_keys == state.magic_keys
            &&& filled.noise_control_mode == state.noise_control_mode
            &&& filled.conversational_awareness_enabled == state.conversational_awareness_enabled
            &&& filled.raw_packets == Some(state.raw_packets)
            &&& filled.name == status.name && filled.alias == status.alias && filled.mac
                == status.mac
            &&& filled.paired == status.paired && filled.trusted == status.trusted
            &&& filled.connected == status.connected && filled.breder_connected
                == status.breder_connected
            &&& filled.sink == status.sink && filled.sink_state == status.sink_state
            &&& filled.card == status.card && filled.default_sink == status.default_sink
            &&& filled.default_is_airpods == status.default_is_airpods
        }),
{
}

// ---------------------------------------------------------------------------
// The sources of a description
// ---------------------------------------------------------------------------

proof fn lemma_names_differ(i: int, j: int)
    requires
        0 <= i < 14,
        0 <= j < 14,
        i != j,
    ensures
        property_names()[i] != property_names()[j],
{
    reveal_strlit("Name");
    reveal_strlit("Alias");
    reveal_strlit("Address");
    reveal_strlit("AddressType");
    reveal_strlit("Paired");
    reveal_strlit("Bonded");
    reveal_strlit("Trusted");
    reveal_strlit("Blocked");
    reveal_strlit("Connected");
    reveal_strlit("LegacyPairing");
    reveal_strlit("CablePairing");
    reveal_strlit("Modalias");
    reveal_strlit("PreferredBearer");
    reveal_strlit("ServicesResolved");
    let names = property_names();
    assert(names[0].len() == 4 && names[1].len() == 5 && names[2].len() == 7);
    assert(names[3].len() == 11 && names[4].len() == 6 && names[5].len() == 6);
    assert(names[6].len() == 7 && names[7].len() == 7 && names[8].len() == 9);
    assert(names[9].len() == 13 && names[10].len() == 12 && names[11].len() == 8);
    assert(names[12].len() == 15 && names[13].len() == 16);
    assert(names[4][0] == 'P' && names[5][0] == 'B');
    assert(names[2][0] == 'A' && names[6][0] == 'T' && names[7][0] == 'B');
}

proof fn lemma_property(values: Seq<Option<String>>, n: int, i: int)
    requires
        0 <= i < n <= 14,
    ensures
        values[i] matches Some(value) ==> info_of_properties(values, n).contains_key(
            property_names()[i],
        ) && info_of_properties(values, n)[property_names()[i]] == value@,
        values[i] is None ==> !info_of_properties(values, n).contains_key(property_names()[i]),
    decreases n,
{
    if i < n - 1 {
        lemma_property(values, n - 1, i);
        lemma_names_differ(n - 1, i);
    } else {
        lemma_fresh(values, n - 1, i);
    }
}

proof fn lemma_fresh(values: Seq<Option<String>>, n: int, i: int)
    requires
        0 <= n <= i < 14,
    ensures
        !info_of_properties(values, n).contains_key(property_names()[i]),
    decreases n,
{
    if n > 0 {
        lemma_names_differ(n - 1, i);
        lemma_fresh(values, n - 1, i);
    }
}

/// The system bus is asked for these properties.  What it tells of one stands under its
/// name, and nothing stands there where it tells nothing.
pub proof fn law_bus_properties(values: Seq<Option<String>>, i: int)
    requires
        0 <= i < 14,
    ensures
        property_names().len() == 14,
        property_names().contains("Name"@) && property_names().contains("Alias"@),
        property_names().contains("Address"@) && property_names().contains("AddressType"@),
        property_names().contains("Paired"@) && property_names().contains("Bonded"@),
        property_names().contains("Trusted"@) && property_names().contains("Blocked"@),
        property_names().contains("Connected"@) && property_names().contains("LegacyPairing"@),
        property_names().contains("CablePairing"@) && property_names().contains("Modalias"@),
        property_names().contains("PreferredBearer"@),
        property_names().contains("ServicesResolved"@),
        i < values.len() ==> (values[i] matches Some(value) ==> info_of_busctl(
            values,
        ).contains_key(property_names()[i]) && info_of_busctl(values)[property_names()[i]]
            == value@),
        i >= values.len() || values[i] is None ==> !info_of_busctl(values).contains_key(
            property_names()[i],
        ),
{
    let names = property_names();
    assert(names[0] == "Name"@ && names[1] == "Alias"@ && names[2] == "Address"@);
    assert(names[3] == "AddressType"@ && names[4] == "Paired"@ && names[5] == "Bonded"@);
    assert(names[6] == "Trusted"@ && names[7] == "Blocked"@ && names[8] == "Connected"@);
    assert(names[9] == "LegacyPairing"@ && names[10] == "CablePairing"@);
    assert(names[11] == "Modalias"@ && names[12] == "PreferredBearer"@);
    assert(names[13] == "ServicesResolved"@);
    let n = property_count(values);
    if i < n {
        lemma_property(values, n, i);
    } else {
        lemma_fresh(values, n, i);
    }
    reveal_strlit("BREDR.Bonded");
    reveal_strlit("BREDR.Connected");
    reveal_strlit("Bonded");
    lemma_not_classic(i);
}

proof fn lemma_not_classic(i: int)
    requires
        0 <= i < 14,
    ensures
        property_names()[i] != "BREDR.Bonded"@,
        property_names()[i] != "BREDR.Connected"@,
{
    reveal_strlit("Name");
    reveal_strlit("Alias");
    reveal_strlit("Address");
    reveal_strlit("AddressType");
    reveal_strlit("Paired");
    reveal_strlit("Bonded");
    reveal_strlit("Trusted");
    reveal_strlit("Blocked");
    reveal_strlit("Connected");
    reveal_strlit("LegacyPairing");
    reveal_strlit("CablePairing");
    reveal_strlit("Modalias");
    reveal_strlit("PreferredBearer");
    reveal_strlit("ServicesResolved");
    reveal_strlit("BREDR.Bonded");
    reveal_strlit("BREDR.Connected");
    assert("BREDR.Bonded"@[1] == 'R' && "BREDR.Connected"@[1] == 'R');
    assert(property_names()[i][1] != 'R');
}

/// The flags of a status come from the bus as well: a property of that very name is read,
/// and the flag is set if and only if the bus says `yes` to it.
pub proof fn law_status_follows_bus(
    device: DeviceModel,
    values: Seq<Option<String>>,
    sink: Option<SinkModel>,
    card: Option<CardModel>,
    default_sink: Option<Seq<char>>,
)
    requires
        values.len() == 14,
    ensures
        ({
            let status = status_of(device, info_of_busctl(values), sink, card, default_sink);
            &&& status.paired <==> says(values, "Paired"@, "yes"@)
            &&& status.trusted <==> says(values, "Trusted"@, "yes"@)
            &&& status.connected <==> says(values, "Connected"@, "yes"@)
            &&& status.breder_connected <==> says(values, "Connected"@, "yes"@)
        }),
{
    let names = property_names();
    assert(names[4] == "Paired"@ && names[6] == "Trusted"@ && names[8] == "Connected"@);
    lemma_says(values, 4);
    lemma_says(values, 6);
    lemma_says(values, 8);
    law_classic_bearer_follows_device(values);
}

/// The bus says this of the property with that name.
pub open spec fn says(values: Seq<Option<String>>, name: Seq<char>, text: Seq<char>) -> bool {
    exists|i: int|
        0 <= i < 14 && #[trigger] property_names()[i] == name && values[i] is Some && values[i]->0@
            == text
}

proof fn lemma_says(values: Seq<Option<String>>, i: int)
    requires
        0 <= i < 14,
        values.len() == 14,
    ensures
        says(values, property_names()[i], "yes"@) <==> info_of_busctl(values).contains_key(
            property_names()[i],
        ) && info_of_busctl(values)[property_names()[i]] == "yes"@,
{
    law_bus_properties(values, i);
    if says(values, property_names()[i], "yes"@) {
        let j = choose|j: int|
            0 <= j < 14 && #[trigger] property_names()[j] == property_names()[i] && values[j]
                is Some && values[j]->0@ == "yes"@;
        if j != i {
            lemma_names_differ(i, j);
        }
    }
}

/// A description is taken from the bus, and from the command only if the bus told nothing
/// at all; a command that failed or could not be run tells nothing.
pub proof fn law_bus_before_command(
    bus: Map<Seq<char>, Seq<char>>,
    outcome: CommandOutcome,
    key: Seq<char>,
)
    ensures
        bus.contains_key(key) ==> preferred_info(bus, info_of_command(Some(outcome))) == bus,
        outcome.code == 0 ==> preferred_info(
            Map::<Seq<char>, Seq<char>>::empty(),
            info_of_command(Some(outcome)),
        ) == info_of_lines(lines(outcome.stdout)),
        outcome.code != 0 ==> info_of_command(Some(outcome)) == Map::<
            Seq<char>,
            Seq<char>,
        >::empty(),
        info_of_command(None) == Map::<Seq<char>, Seq<char>>::empty(),
{
    if bus.contains_key(key) {
        assert(bus.dom().contains(key));
    }
    assert(Map::<Seq<char>, Seq<char>>::empty().dom() =~= Set::<Seq<char>>::empty());
}

/// A property of the bus is shown by its value: `yes` and `no` for truth values, a string
/// as it is, an array by its elements with blanks between them, and anything else by its
/// JSON text.
pub proof fn law_property_texts(contents: JsonModel)
    ensures
        match contents {
            JsonModel::Bool(b) => property_text(property_of_json(contents)) == if b {
                "yes"@
            } else {
                "no"@
            },
            JsonModel::Text(s) => property_text(property_of_json(contents)) == s,
            JsonModel::Object(_, text) => property_text(property_of_json(contents)) == text,
            JsonModel::Other(text) => property_text(property_of_json(contents)) == text,
            JsonModel::Array(items) => property_text(property_of_json(contents)) == joined(
                items.map_values(|item: JsonModel| property_text(property_of_json(item))),
                seq![' '],
            ),
        },
{
    if let JsonModel::Array(items) = contents {
        reveal_strlit(" ");
        assert(" "@ =~= seq![' ']);
        let property = property_of_json(contents);
        assert(property_texts(property->Array_0) =~= items.map_values(
            |item: JsonModel| property_text(property_of_json(item)),
        ));
    }
}

/// A property is the member `data` of the JSON object that the command printed; a command
/// that failed reports none, and neither does anything but an object with that member.
pub proof fn law_property_of_command(
    outcome: CommandOutcome,
    members: Map<Seq<char>, JsonModel>,
    text: Seq<char>,
)
    ensures
        outcome.code != 0 ==> property_of_command(outcome) is None,
        json_document(outcome.stdout) is None ==> property_of_command(outcome) is None,
        json_document(outcome.stdout) matches Some(contents) ==> !(contents is Object)
            ==> property_of_command(outcome) is None,
        json_document(outcome.stdout) == Some(JsonModel::Object(members, text))
            && members.contains_key("data"@) && outcome.code == 0 ==> property_of_command(outcome)
            == Some(property_text(property_of_json(members["data"@]))),
        json_document(outcome.stdout) == Some(JsonModel::Object(members, text))
            && !members.contains_key("data"@) ==> property_of_command(outcome) is None,
{
}

// ---------------------------------------------------------------------------
// The default sink and the streams
// ---------------------------------------------------------------------------

/// The default sink is what the command printed, without white characters around it; there
/// is none if that is nothing, or if the command failed or could not be run.
pub proof fn law_default_sink(
    outcome: CommandOutcome,
    before: Seq<char>,
    name: Seq<char>,
    behind: Seq<char>,
)
    requires
        all_white(before),
        all_white(behind),
        name.len() > 0 ==> !is_white(name[0]) && !is_white(name.last()),
        outcome.stdout == before + name + behind,
    ensures
        default_sink_of_command(None) is None,
        outcome.code != 0 ==> default_sink_of_command(Some(outcome)) is None,
        outcome.code == 0 ==> default_sink_of_command(Some(outcome)) == if name.len() > 0 {
            Some(name)
        } else {
            None
        },
{
    law_trimmed(before, name, behind);
}

/// The streams are those that the command listed; there are none if it failed or could
/// not be run.
pub proof fn law_streams(outcome: CommandOutcome)
    ensures
        streams_of_command(None).len() == 0,
        outcome.code != 0 ==> streams_of_command(Some(outcome)).len() == 0,
        outcome.code == 0 ==> streams_of_command(Some(outcome)) == streams_of_lines(
            lines(outcome.stdout),
        ),
{
}

} // verus!
