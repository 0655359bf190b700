//! What is shown, written down and sent out, word for word and byte for byte.

use vstd::prelude::*;

use crate::aap::{BatteryComponent, BatteryModel, SessionModel};
use crate::bluez::{mac_underscore, DeviceModel};
use crate::cache::{cache_name, state_path, StateBase};
use crate::pulse::move_command;
use crate::record::told;
use crate::report::{
    battery_report_lines, component_text, listed_line, padded, status_lines, ListedDevice,
};
use crate::socket::{bdaddr_of, split_at, whole_millis};
use crate::status::{unconnected_message, Purpose, StatusModel};
use crate::text::{decimal, hex_octet, lemma_until_char, signed_decimal};
use crate::wav::{le_bytes, le_value, lemma_le_bytes, pow256, silence};

verus! {

// ---------------------------------------------------------------------------
// Lines for a person
// ---------------------------------------------------------------------------

/// Padding keeps the text and puts blanks behind it, up to the width and no further.
pub proof fn law_padding(s: Seq<char>, width: nat, i: int)
    ensures
        s.len() < width ==> padded(s, width).len() == width,
        s.len() >= width ==> padded(s, width) == s,
        s.is_prefix_of(padded(s, width)),
        s.len() <= i < width ==> padded(s, width)[i] == ' ',
{
}

/// What is shown of a component: its level in percent, and that it is charging, or that it
/// is unavailable.
pub proof fn law_component_text(component: BatteryComponent)
    ensures
        !component.available ==> component_text(component) == "unavailable"@,
        component.available ==> component_text(component) == (match component.level {
            Some(level) => decimal(level as nat),
            None => "-"@,
        }) + (if component.charging {
            "% charging"@
        } else {
            "%"@
        }),
{
    reveal_strlit("% charging");
    reveal_strlit("%");
    reveal_strlit(" charging");
    assert("%"@ + " charging"@ =~= "% charging"@);
    if component.available {
        let level = match component.level {
            Some(level) => decimal(level as nat),
            None => "-"@,
        };
        assert(level + "%"@ + " charging"@ =~= level + ("%"@ + " charging"@));
    }
}

/// `yes` or `no`.
pub open spec fn said(flag: bool) -> Seq<char> {
    if flag {
        "yes"@
    } else {
        "no"@
    }
}

/// The text, or a dash where there is none.
pub open spec fn shown(text: Option<Seq<char>>) -> Seq<char> {
    match text {
        Some(text) => text,
        None => "-"@,
    }
}

/// A status begins with what the system knows of the device, each thing on the line with
/// its own label.
pub proof fn law_status_begins(status: StatusModel)
    ensures
        ({
            let lines = status_lines(status);
            &&& lines.len() >= 11
            &&& lines[0] == "Name:            "@ + status.name
            &&& lines[1] == "MAC:             "@ + status.mac
            &&& lines[2] == "Paired:          "@ + said(status.paired)
            &&& lines[3] == "Trusted:         "@ + said(status.trusted)
            &&& lines[4] == "Connected:       "@ + said(status.connected)
            &&& lines[5] == "BR/EDR:          "@ + said(status.breder_connected)
            &&& lines[6] == "Card:            "@ + shown(status.card)
            &&& lines[7] == "Sink:            "@ + shown(status.sink)
            &&& lines[8] == "Sink state:      "@ + shown(status.sink_state)
            &&& lines[9] == "Default sink:    "@ + shown(status.default_sink)
            &&& lines[10] == "Default AirPods: "@ + said(status.default_is_airpods)
        }),
{
}

proof fn lemma_labels()
    ensures
        "  "@ + padded("left"@, 7) + " "@ == "  left    "@,
        "  "@ + padded("right"@, 7) + " "@ == "  right   "@,
        "  "@ + padded("case"@, 7) + " "@ == "  case    "@,
        "  "@ + padded("headset"@, 7) + " "@ == "  headset "@,
        padded("Left"@, 7) + " "@ == "Left    "@,
        padded("Right"@, 7) + " "@ == "Right   "@,
        padded("Case"@, 7) + " "@ == "Case    "@,
        padded("Headset"@, 7) + " "@ == "Headset "@,
{
    reveal_strlit(" ");
    reveal_strlit("  ");
    reveal_strlit("left");
    reveal_strlit("right");
    reveal_strlit("case");
    reveal_strlit("headset");
    reveal_strlit("Left");
    reveal_strlit("Right");
    reveal_strlit("Case");
    reveal_strlit("Headset");
    reveal_strlit("  left    ");
    reveal_strlit("  right   ");
    reveal_strlit("  case    ");
    reveal_strlit("  headset ");
    reveal_strlit("Left    ");
    reveal_strlit("Right   ");
    reveal_strlit("Case    ");
    reveal_strlit("Headset ");
    assert("  "@ + padded("left"@, 7) + " "@ =~= "  left    "@);
    assert("  "@ + padded("right"@, 7) + " "@ =~= "  right   "@);
    assert("  "@ + padded("case"@, 7) + " "@ =~= "  case    "@);
    assert("  "@ + padded("headset"@, 7) + " "@ =~= "  headset "@);
    assert(padded("Left"@, 7) + " "@ =~= "Left    "@);
    assert(padded("Right"@, 7) + " "@ =~= "Right   "@);
    assert(padded("Case"@, 7) + " "@ =~= "Case    "@);
    assert(padded("Headset"@, 7) + " "@ =~= "Headset "@);
}

/// Then come the components of the battery, if they are known, each behind its own label.
pub proof fn law_status_battery(status: StatusModel)
    ensures
        status.battery matches Some(battery) ==> {
            let lines = status_lines(status);
            &&& lines.len() >= 16
            &&& lines[11] == "Battery:"@
            &&& lines[12] == "  left    "@ + component_text(battery.left)
            &&& lines[13] == "  right   "@ + component_text(battery.right)
            &&& lines[14] == "  case    "@ + component_text(battery.case_unit)
            &&& lines[15] == "  headset "@ + component_text(battery.headset)
        },
{
    lemma_labels();
    if let Some(battery) = status.battery {
        let lines = status_lines(status);
        lemma_grouped("  "@, padded("left"@, 7), " "@, component_text(battery.left));
        lemma_grouped("  "@, padded("right"@, 7), " "@, component_text(battery.right));
        lemma_grouped("  "@, padded("case"@, 7), " "@, component_text(battery.case_unit));
        lemma_grouped("  "@, padded("headset"@, 7), " "@, component_text(battery.headset));
    }
}

proof fn lemma_grouped(a: Seq<char>, b: Seq<char>, c: Seq<char>, d: Seq<char>)
    ensures
        a + (b + c + d) == a + b + c + d,
{
    assert(a + (b + c + d) =~= a + b + c + d);
}

/// Then comes what the device says of itself, as far as it is known, and nothing follows.
pub proof fn law_status_device(status: StatusModel)
    ensures
        ({
            let lines = status_lines(status);
            let n = if status.battery is Some {
                16int
            } else {
                11int
            };
            let m = if status.metadata is Some {
                n + 3
            } else {
                n
            };
            let k = if status.noise_control_mode is Some {
                m + 1
            } else {
                m
            };
            &&& status.metadata matches Some(metadata) ==> lines[n] == "Metadata:"@ && lines[n + 1]
                == "  Model number:  "@ + shown(metadata.model_number) && lines[n + 2]
                == "  Manufacturer:  "@ + shown(metadata.manufacturer)
            &&& status.noise_control_mode matches Some(mode) ==> lines[m] == "Noise control:   "@
                + decimal(mode as nat)
            &&& status.conversational_awareness_enabled matches Some(enabled) ==> lines[k]
                == "CA enabled:      "@ + said(enabled)
            &&& lines.len() == if status.conversational_awareness_enabled is Some {
                k + 1
            } else {
                k
            }
        }),
{
}

/// The report on the battery: the name and the address of the device, and its components,
/// each behind its own label.
pub proof fn law_battery_report(device: DeviceModel, battery: BatteryModel)
    ensures
        battery_report_lines(device, battery) == seq![
            "Name: "@ + device.name,
            "MAC:  "@ + device.mac,
            "Left    "@ + component_text(battery.left),
            "Right   "@ + component_text(battery.right),
            "Case    "@ + component_text(battery.case_unit),
            "Headset "@ + component_text(battery.headset),
        ],
{
    lemma_labels();
}

/// The line of a device in a list: its address and its name, and whether it is connected.
pub proof fn law_listed_line(listed: ListedDevice)
    ensures
        listed.connected ==> listed_line(listed) == listed.device@.mac + seq![' ', ' ']
            + listed.device@.name + " (connected)"@,
        !listed.connected ==> listed_line(listed) == listed.device@.mac + seq![' ', ' ']
            + listed.device@.name,
{
    reveal_strlit("  ");
    reveal_strlit("");
    assert("  "@ =~= seq![' ', ' ']);
    let front = listed.device@.mac + "  "@ + listed.device@.name;
    assert(front + ""@ =~= front);
}

/// What is said where a device has to be connected and is not.
pub proof fn law_unconnected(purpose: Purpose)
    ensures
        match purpose {
            Purpose::Status => unconnected_message(purpose)
                == "AirPods are not connected, so AAP status is unavailable."@,
            Purpose::Battery => unconnected_message(purpose)
                == "AirPods must be connected before querying AAP battery."@,
            Purpose::Keys => unconnected_message(purpose)
                == "AirPods must be connected before requesting AAP keys."@,
            Purpose::Monitor => unconnected_message(purpose)
                == "AirPods must be connected before starting monitor."@,
        },
{
}

// ---------------------------------------------------------------------------
// Records
// ---------------------------------------------------------------------------

/// A record holds what the session has learned, each thing in its place, under the name and
/// the address of the device.
pub proof fn law_record_is_faithful(device: DeviceModel, state: SessionModel)
    ensures
        told(device, state).name == device.name,
        told(device, state).mac == device.mac,
        told(device, state).battery == state.battery,
        told(device, state).metadata == state.metadata,
        told(device, state).magic_keys == state.magic_keys,
        told(device, state).noise_control_mode == state.noise_control_mode,
        told(device, state).conversational_awareness_enabled
            == state.conversational_awareness_enabled,
        told(device, state).raw_packets == state.raw_packets,
{
}

/// The record of a device is kept in a file that is named after its address, in a directory
/// of its own under the one that the variable gives.
pub proof fn law_record_place(mac: Seq<char>, base: StateBase)
    ensures
        cache_name(mac) == "linux-airpods-cli-"@ + mac_underscore(mac) + ".json"@,
        state_path(base).last() == "linux-airpods-cli"@,
        base is XdgStateHome ==> state_path(base).len() == 1,
        base is Home ==> state_path(base).len() == 3 && state_path(base)[0] == ".local"@
            && state_path(base)[1] == "state"@,
{
}

// ---------------------------------------------------------------------------
// Commands and sound
// ---------------------------------------------------------------------------

/// A stream is moved by its number to the sink with the name.
pub proof fn law_move_command(stream: i32, sink_name: Seq<char>)
    ensures
        move_command(stream, sink_name).args == seq![
            "pactl"@,
            "move-sink-input"@,
            signed_decimal(stream as int),
            sink_name,
        ],
        move_command(stream, sink_name).timeout_seconds == 10,
        !move_command(stream, sink_name).check,
{
}

/// A number in four bytes is worth the first one, 256 times the second one, and so on.
pub proof fn law_little_endian(a: u8, b: u8, c: u8, d: u8)
    ensures
        le_value(seq![a, b]) == a + 256 * b,
        le_value(seq![a, b, c, d]) == a + 256 * b + 65536 * c + 16777216 * d,
{
    reveal_with_fuel(le_value, 5);
    assert(seq![a, b].drop_first() =~= seq![b]);
    assert(seq![b].drop_first() =~= Seq::<u8>::empty());
    assert(seq![a, b, c, d].drop_first() =~= seq![b, c, d]);
    assert(seq![b, c, d].drop_first() =~= seq![c, d]);
    assert(seq![c, d].drop_first() =~= seq![d]);
    assert(seq![d].drop_first() =~= Seq::<u8>::empty());
}

/// The file of silence has the tags `RIFF`, `WAVE`, `fmt ` and `data` in their places, and
/// says that it holds uncompressed sound of two channels with 16 bits each, 48000 times a
/// second; each point in time takes four bytes.
#[verifier::rlimit(40)]
pub proof fn law_silence_header(frames: nat)
    requires
        44 + frames * 4 <= u32::MAX,
    ensures
        ({
            let file = silence(frames);
            &&& file.len() == 44 + frames * 4
            &&& file.subrange(0, 4) == seq![0x52u8, 0x49, 0x46, 0x46]
            &&& file.subrange(8, 16) == seq![0x57u8, 0x41, 0x56, 0x45, 0x66, 0x6d, 0x74, 0x20]
            &&& le_value(file.subrange(16, 20)) == 16
            &&& le_value(file.subrange(20, 22)) == 1
            &&& le_value(file.subrange(22, 24)) == 2
            &&& le_value(file.subrange(24, 28)) == 48000
            &&& le_value(file.subrange(28, 32)) == 192000
            &&& le_value(file.subrange(32, 34)) == 4
            &&& le_value(file.subrange(34, 36)) == 16
            &&& file.subrange(36, 40) == seq![0x64u8, 0x61, 0x74, 0x61]
        }),
{
    reveal_with_fuel(pow256, 5);
    let file = silence(frames);
    lemma_le_bytes(36 + frames * 4, 4);
    lemma_le_bytes(frames * 4, 4);
    lemma_le_bytes(16, 4);
    lemma_le_bytes(1, 2);
    lemma_le_bytes(2, 2);
    lemma_le_bytes(48000, 4);
    lemma_le_bytes(192000, 4);
    lemma_le_bytes(4, 2);
    lemma_le_bytes(16, 2);
    assert(file.subrange(0, 4) =~= seq![0x52u8, 0x49, 0x46, 0x46]);
    assert(file.subrange(8, 16) =~= seq![0x57u8, 0x41, 0x56, 0x45, 0x66, 0x6d, 0x74, 0x20]);
    assert(file.subrange(16, 20) =~= le_bytes(16, 4));
    assert(file.subrange(20, 22) =~= le_bytes(1, 2));
    assert(file.subrange(22, 24) =~= le_bytes(2, 2));
    assert(file.subrange(24, 28) =~= le_bytes(48000, 4));
    assert(file.subrange(28, 32) =~= le_bytes(192000, 4));
    assert(file.subrange(32, 34) =~= le_bytes(4, 2));
    assert(file.subrange(34, 36) =~= le_bytes(16, 2));
    assert(file.subrange(36, 40) =~= seq![0x64u8, 0x61, 0x74, 0x61]);
}

// ---------------------------------------------------------------------------
// The control channel
// ---------------------------------------------------------------------------

/// Splitting cuts a text at the first separator, and goes on behind it; without a separator
/// the text stays whole.
pub proof fn law_split(part: Seq<char>, separator: char, rest: Seq<char>)
    requires
        !part.contains(separator),
    ensures
        split_at(part, separator) == seq![part],
        split_at(part + seq![separator] + rest, separator) == seq![part] + split_at(
            rest,
            separator,
        ),
{
    let whole = part + seq![separator] + rest;
    let n = part.len() as int;
    assert forall|i: int| 0 <= i < n implies #[trigger] part[i] != separator by {}
    lemma_until_char(part, separator, n);
    assert forall|i: int| 0 <= i < n implies #[trigger] whole[i] != separator by {
        assert(whole[i] == part[i]);
    }
    assert(whole[n] == separator);
    lemma_until_char(whole, separator, n);
    assert(whole.take(n) =~= part);
    assert(whole.skip(n + 1) =~= rest);
}

/// An address has six parts with colons between them, each a byte in base 16, and its bytes
/// are those of the parts from the last one to the first; nothing else is an address.
pub proof fn law_address_bytes(mac: Seq<char>, i: int)
    requires
        0 <= i < 6,
    ensures
        ({
            let parts = split_at(mac, ':');
            &&& parts.len() != 6 ==> bdaddr_of(mac) is None
            &&& parts.len() == 6 && hex_octet(parts[i]) is None ==> bdaddr_of(mac) is None
            &&& bdaddr_of(mac) matches Some(bytes) ==> bytes.len() == 6 && hex_octet(parts[5 - i])
                == Some(bytes[i])
            &&& parts.len() == 6 && hex_octet(parts[0]) is Some && hex_octet(parts[1]) is Some
                && hex_octet(parts[2]) is Some && hex_octet(parts[3]) is Some && hex_octet(
                parts[4],
            ) is Some && hex_octet(parts[5]) is Some ==> bdaddr_of(mac) is Some
        }),
{
}

/// A span in whole milliseconds is the greatest number of them that it holds, up to the
/// greatest number of 31 bits.
pub proof fn law_whole_millis(timeout: u128)
    ensures
        timeout < 2_147_483_647_000_000 ==> whole_millis(timeout) * 1_000_000 <= timeout < (
        whole_millis(timeout) + 1) * 1_000_000,
        timeout >= 2_147_483_647_000_000 ==> whole_millis(timeout) == 2_147_483_647,
{
}

} // verus!
