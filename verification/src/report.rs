//! The lines that are shown to a person.

use vstd::prelude::*;

use crate::aap::{BatteryComponent, BatteryModel, BatteryStatus, MagicKeys};
use crate::bluez::{Device, DeviceModel};
use crate::property::{yes_no, yes_no_text};
use crate::status::{text_or, StatusModel, StatusPayload};
use crate::text::{chars_of, concat2, decimal, optional_text, push_decimal, texts, upper_char};

verus! {

// ---------------------------------------------------------------------------
// Parts of lines
// ---------------------------------------------------------------------------

/// The text that stands for a character in upper case.
pub uninterp spec fn upper_text(c: char) -> Seq<char>;

/// `char::to_uppercase`: the characters of the upper case mapping of `c`.  For a
/// lower case letter of ASCII that is the upper case letter of ASCII.
#[verifier::external_body]
fn uppercase(c: char) -> (r: String)
    ensures
        r@ == upper_text(c),
        'a' <= c && c <= 'z' ==> r@ == seq![upper_char(c)],
{
    c.to_uppercase().collect()
}

/// The text with its first character in upper case.
pub fn capitalize(value: &str) -> (r: String)
    ensures
        r@ == if value@.len() == 0 {
            Seq::empty()
        } else {
            upper_text(value@[0]) + value@.skip(1)
        },
        value@.len() > 0 && 'a' <= value@[0] && value@[0] <= 'z' ==> r@ == seq![
            upper_char(value@[0]),
        ] + value@.skip(1),
{
    let chars = chars_of(value);
    if chars.len() == 0 {
        return String::new();
    }
    let mut r = uppercase(chars[0]);
    let ghost first = r@;
    let mut i: usize = 1;
    assert(first + chars@.subrange(1, 1) == first);
    while i < chars.len()
        invariant
            1 <= i <= chars@.len(),
            r@ == first + chars@.subrange(1, i as int),
        decreases chars@.len() - i,
    {
        r.push(chars[i]);
        assert(chars@.subrange(1, i + 1) == chars@.subrange(1, i as int).push(chars@[i as int]));
        assert(first + chars@.subrange(1, i + 1) == (first + chars@.subrange(1, i as int)).push(
            chars@[i as int],
        ));
        i += 1;
    }
    assert(chars@.subrange(1, chars@.len() as int) == chars@.skip(1));
    r
}

/// The text with blanks behind it up to the given width.
pub open spec fn padded(s: Seq<char>, width: nat) -> Seq<char> {
    if s.len() < width {
        s + Seq::new((width - s.len()) as nat, |i: int| ' ')
    } else {
        s
    }
}

fn pad(s: &str, width: usize) -> (r: String)
    ensures
        r@ == padded(s@, width as nat),
{
    let chars = chars_of(s);
    let mut r = s.to_owned();
    let mut n: usize = chars.len();
    assert(r@ == s@ + Seq::new(0, |i: int| ' '));
    while n < width
        invariant
            s@.len() <= n,
            n <= width || n == s@.len(),
            r@ == s@ + Seq::new((n - s@.len()) as nat, |i: int| ' '),
        decreases width - n,
    {
        r.push(' ');
        n += 1;
        assert(r@ == s@ + Seq::new((n - s@.len()) as nat, |i: int| ' '));
    }
    r
}

/// The level of a component, or a dash if it is not known.
pub open spec fn level_text(level: Option<u8>) -> Seq<char> {
    match level {
        Some(level) => decimal(level as nat),
        None => "-"@,
    }
}

/// What is shown of a component.
pub open spec fn component_text(component: BatteryComponent) -> Seq<char> {
    if !component.available {
        "unavailable"@
    } else if component.charging {
        level_text(component.level) + "%"@ + " charging"@
    } else {
        level_text(component.level) + "%"@
    }
}

fn show_component(component: &BatteryComponent) -> (r: String)
    ensures
        r@ == component_text(*component),
{
    if !component.available {
        return "unavailable".to_owned();
    }
    let mut r = String::new();
    match component.level {
        Some(level) => {
            push_decimal(&mut r, level as u64);
        },
        None => {
            r.append("-");
        },
    }
    assert(r@ == level_text(component.level));
    r.append("%");
    if component.charging {
        r.append(" charging");
    }
    r
}

/// The line about a component: its label, padded, and what is shown of it.
pub open spec fn component_line(label: Seq<char>, component: BatteryComponent) -> Seq<char> {
    padded(label, 7) + " "@ + component_text(component)
}

fn push_line(lines: &mut Vec<String>, line: String)
    ensures
        texts(final(lines)@) == texts(old(lines)@).push(line@),
{
    lines.push(line);
    assert(texts(lines@) =~= texts(old(lines)@).push(line@));
}

fn push_pair(lines: &mut Vec<String>, label: &str, value: &str)
    ensures
        texts(final(lines)@) == texts(old(lines)@).push(label@ + value@),
{
    push_line(lines, concat2(label, value));
}

fn push_optional(lines: &mut Vec<String>, label: &str, value: &Option<String>)
    ensures
        texts(final(lines)@) == texts(old(lines)@).push(
            label@ + text_or(optional_text(*value), "-"@),
        ),
{
    match value {
        Some(value) => push_pair(lines, label, value.as_str()),
        None => push_pair(lines, label, "-"),
    }
}

fn push_component(lines: &mut Vec<String>, indent: &str, label: &str, component: &BatteryComponent)
    ensures
        texts(final(lines)@) == texts(old(lines)@).push(
            indent@ + component_line(label@, *component),
        ),
{
    let mut line = indent.to_owned();
    line.append(pad(label, 7).as_str());
    line.append(" ");
    line.append(show_component(component).as_str());
    assert(line@ == indent@ + component_line(label@, *component));
    push_line(lines, line);
}

fn no_lines() -> (r: Vec<String>)
    ensures
        texts(r@) == Seq::<Seq<char>>::empty(),
{
    let r: Vec<String> = Vec::new();
    assert(texts(r@) =~= Seq::<Seq<char>>::empty());
    r
}

// ---------------------------------------------------------------------------
// The status
// ---------------------------------------------------------------------------

/// The lines about what the system knows of a device.
pub open spec fn system_lines(status: StatusModel) -> Seq<Seq<char>> {
    seq![
        "Name:            "@ + status.name,
        "MAC:             "@ + status.mac,
        "Paired:          "@ + yes_no_text(status.paired),
        "Trusted:         "@ + yes_no_text(status.trusted),
        "Connected:       "@ + yes_no_text(status.connected),
        "BR/EDR:          "@ + yes_no_text(status.breder_connected),
        "Card:            "@ + text_or(status.card, "-"@),
        "Sink:            "@ + text_or(status.sink, "-"@),
        "Sink state:      "@ + text_or(status.sink_state, "-"@),
        "Default sink:    "@ + text_or(status.default_sink, "-"@),
        "Default AirPods: "@ + yes_no_text(status.default_is_airpods),
    ]
}

/// The lines about the battery in a status.
pub open spec fn battery_lines(battery: Option<BatteryModel>) -> Seq<Seq<char>> {
    match battery {
        Some(battery) => seq![
            "Battery:"@,
            "  "@ + component_line("left"@, battery.left),
            "  "@ + component_line("right"@, battery.right),
            "  "@ + component_line("case"@, battery.case_unit),
            "  "@ + component_line("headset"@, battery.headset),
        ],
        None => Seq::empty(),
    }
}

/// The lines about the device itself, its settings included.
pub open spec fn device_lines(status: StatusModel) -> Seq<Seq<char>> {
    (match status.metadata {
        Some(metadata) => seq![
            "Metadata:"@,
            "  Model number:  "@ + text_or(metadata.model_number, "-"@),
            "  Manufacturer:  "@ + text_or(metadata.manufacturer, "-"@),
        ],
        None => Seq::empty(),
    }) + (match status.noise_control_mode {
        Some(mode) => seq!["Noise control:   "@ + decimal(mode as nat)],
        None => Seq::empty(),
    }) + (match status.conversational_awareness_enabled {
        Some(enabled) => seq!["CA enabled:      "@ + yes_no_text(enabled)],
        None => Seq::empty(),
    })
}

/// All the lines of a status.
pub open spec fn status_lines(status: StatusModel) -> Seq<Seq<char>> {
    system_lines(status) + battery_lines(status.battery) + device_lines(status)
}

fn push_system(lines: &mut Vec<String>, status: &StatusPayload)
    ensures
        texts(final(lines)@) == texts(old(lines)@) + system_lines(status@),
{
    push_pair(lines, "Name:            ", status.name.as_str());
    push_pair(lines, "MAC:             ", status.mac.as_str());
    push_pair(lines, "Paired:          ", yes_no(status.paired));
    push_pair(lines, "Trusted:         ", yes_no(status.trusted));
    push_pair(lines, "Connected:       ", yes_no(status.connected));
    push_pair(lines, "BR/EDR:          ", yes_no(status.breder_connected));
    push_optional(lines, "Card:            ", &status.card);
    push_optional(lines, "Sink:            ", &status.sink);
    push_optional(lines, "Sink state:      ", &status.sink_state);
    push_optional(lines, "Default sink:    ", &status.default_sink);
    push_pair(lines, "Default AirPods: ", yes_no(status.default_is_airpods));
    assert(texts(lines@) =~= texts(old(lines)@) + system_lines(status@));
}

fn push_battery(lines: &mut Vec<String>, battery: &BatteryStatus)
    ensures
        texts(final(lines)@) == texts(old(lines)@) + battery_lines(Some(battery@)),
{
    push_line(lines, "Battery:".to_owned());
    push_component(lines, "  ", "left", &battery.left);
    push_component(lines, "  ", "right", &battery.right);
    push_component(lines, "  ", "case", &battery.case_unit);
    push_component(lines, "  ", "headset", &battery.headset);
    assert(texts(lines@) =~= texts(old(lines)@) + battery_lines(Some(battery@)));
}

fn push_device(lines: &mut Vec<String>, status: &StatusPayload)
    ensures
        texts(final(lines)@) == texts(old(lines)@) + device_lines(status@),
{
    if let Some(metadata) = &status.metadata {
        push_line(lines, "Metadata:".to_owned());
        push_optional(lines, "  Model number:  ", &metadata.model_number);
        push_optional(lines, "  Manufacturer:  ", &metadata.manufacturer);
    }
    if let Some(mode) = status.noise_control_mode {
        let mut line = "Noise control:   ".to_owned();
        push_decimal(&mut line, mode as u64);
        push_line(lines, line);
    }
    if let Some(enabled) = status.conversational_awareness_enabled {
        push_pair(lines, "CA enabled:      ", yes_no(enabled));
    }
    assert(texts(lines@) =~= texts(old(lines)@) + device_lines(status@));
}

/// The lines that show a status.
pub fn human_status(status: &StatusPayload) -> (r: Vec<String>)
    ensures
        texts(r@) == status_lines(status@),
{
    let mut lines = no_lines();
    push_system(&mut lines, status);
    if let Some(battery) = &status.battery {
        push_battery(&mut lines, battery);
    }
    push_device(&mut lines, status);
    assert(texts(lines@) =~= status_lines(status@));
    lines
}

// ---------------------------------------------------------------------------
// The other commands
// ---------------------------------------------------------------------------

/// The lines that show the battery of a device.
pub open spec fn battery_report_lines(device: DeviceModel, battery: BatteryModel) -> Seq<
    Seq<char>,
> {
    seq![
        "Name: "@ + device.name,
        "MAC:  "@ + device.mac,
        component_line("Left"@, battery.left),
        component_line("Right"@, battery.right),
        component_line("Case"@, battery.case_unit),
        component_line("Headset"@, battery.headset),
    ]
}

pub fn battery_report(device: &Device, battery: &BatteryStatus) -> (r: Vec<String>)
    ensures
        texts(r@) == battery_report_lines(device@, battery@),
{
    let mut lines = no_lines();
    push_pair(&mut lines, "Name: ", device.name.as_str());
    push_pair(&mut lines, "MAC:  ", device.mac.as_str());
    let left = capitalize("left");
    let right = capitalize("right");
    let case_unit = capitalize("case");
    let headset = capitalize("headset");
    proof {
        reveal_strlit("left");
        reveal_strlit("Left");
        reveal_strlit("right");
        reveal_strlit("Right");
        reveal_strlit("case");
        reveal_strlit("Case");
        reveal_strlit("headset");
        reveal_strlit("Headset");
        reveal_strlit("");
    }
    assert(left@ == "Left"@);
    assert(right@ == "Right"@);
    assert(case_unit@ == "Case"@);
    assert(headset@ == "Headset"@);
    push_component(&mut lines, "", left.as_str(), &battery.left);
    push_component(&mut lines, "", right.as_str(), &battery.right);
    push_component(&mut lines, "", case_unit.as_str(), &battery.case_unit);
    push_component(&mut lines, "", headset.as_str(), &battery.headset);
    assert(forall|line: Seq<char>| #[trigger] (""@ + line) == line);
    assert(texts(lines@) =~= battery_report_lines(device@, battery@));
    lines
}

/// The lines that show the keys of a device.
pub fn keys_report(device: &Device, keys: &MagicKeys) -> (r: Vec<String>)
    ensures
        texts(r@) == seq![
            "Name:    "@ + device@.name,
            "MAC:     "@ + device@.mac,
            "IRK:     "@ + keys@.irk,
            "Enc key: "@ + keys@.enc_key,
        ],
{
    let mut lines = no_lines();
    push_pair(&mut lines, "Name:    ", device.name.as_str());
    push_pair(&mut lines, "MAC:     ", device.mac.as_str());
    push_pair(&mut lines, "IRK:     ", keys.irk.as_str());
    push_pair(&mut lines, "Enc key: ", keys.enc_key.as_str());
    assert(texts(lines@) =~= seq![
        "Name:    "@ + device@.name,
        "MAC:     "@ + device@.mac,
        "IRK:     "@ + keys@.irk,
        "Enc key: "@ + keys@.enc_key,
    ]);
    lines
}

/// A device and whether it is connected.
#[derive(Debug, Clone, PartialEq, Eq)]
pub struct ListedDevice {
    pub device: Device,
    pub connected: bool,
}

/// The line that shows a device in a list.
pub open spec fn listed_line(listed: ListedDevice) -> Seq<char> {
    listed.device@.mac + "  "@ + listed.device@.name + if listed.connected {
        " (connected)"@
    } else {
        ""@
    }
}

/// The lines that show a list of devices.
pub fn devices_report(devices: &Vec<ListedDevice>) -> (r: Vec<String>)
    ensures
        texts(r@) == if devices@.len() == 0 {
            seq!["No AirPods-like devices found."@]
        } else {
            devices@.map_values(|listed: ListedDevice| listed_line(listed))
        },
{
    let mut lines = no_lines();
    if devices.len() == 0 {
        push_line(&mut lines, "No AirPods-like devices found.".to_owned());
        assert(texts(lines@) =~= seq!["No AirPods-like devices found."@]);
        return lines;
    }
    let mut i: usize = 0;
    while i < devices.len()
        invariant
            i <= devices@.len(),
            texts(lines@) == devices@.take(i as int).map_values(
                |listed: ListedDevice| listed_line(listed),
            ),
        decreases devices@.len() - i,
    {
        let listed = &devices[i];
        let mut line = listed.device.mac.clone();
        line.append("  ");
        line.append(listed.device.name.as_str());
        if listed.connected {
            line.append(" (connected)");
        } else {
            line.append("");
        }
        assert(line@ == listed_line(*listed));
        push_line(&mut lines, line);
        assert(devices@.take(i + 1).map_values(|listed: ListedDevice| listed_line(listed))
            =~= devices@.take(i as int).map_values(
            |listed: ListedDevice| listed_line(listed),
        ).push(listed_line(devices@[i as int])));
        i += 1;
    }
    assert(devices@.take(devices@.len() as int) == devices@);
    lines
}

/// The lines that show a new connection.
pub fn connect_report(status: &StatusPayload, set_default: bool) -> (r: Vec<String>)
    ensures
        texts(r@) == seq![
            "Connected to "@ + status@.name,
            "Sink: "@ + text_or(status@.sink, "-"@),
        ] + if set_default {
            seq!["Default sink set to: "@ + text_or(status@.sink, "-"@)]
        } else {
            Seq::empty()
        },
{
    let mut lines = no_lines();
    push_pair(&mut lines, "Connected to ", status.name.as_str());
    push_optional(&mut lines, "Sink: ", &status.sink);
    if set_default {
        push_optional(&mut lines, "Default sink set to: ", &status.sink);
    }
    lines
}

/// The lines that show a recovered connection.
pub fn fix_report(status: &StatusPayload) -> (r: Vec<String>)
    ensures
        texts(r@) == seq![
            "Recovered "@ + status@.name,
            "Sink: "@ + text_or(status@.sink, "-"@),
            "Default sink: "@ + text_or(status@.default_sink, "-"@),
        ],
{
    let mut lines = no_lines();
    push_pair(&mut lines, "Recovered ", status.name.as_str());
    push_optional(&mut lines, "Sink: ", &status.sink);
    push_optional(&mut lines, "Default sink: ", &status.default_sink);
    lines
}

/// The line that shows the end of a connection.
pub fn disconnect_report(device: &Device) -> (r: String)
    ensures
        r@ == "Disconnected "@ + device@.name,
{
    concat2("Disconnected ", device.name.as_str())
}

} // verus!
