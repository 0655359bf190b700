//! Bluetooth devices, as the Bluetooth daemon and its tools describe them.

use vstd::hash_map::StringHashMap;
use vstd::prelude::*;
use vstd::slice::slice_subrange;

use crate::adapters::{replace_first, strip_colour, without_colour, without_tree, TREE_PATTERN};
use crate::command::{slice_texts, CommandOutcome, CommandResult};
use crate::property::{
    data_of_document, json_document, property_data, property_text, stringify_bluez_value,
};
use crate::text::{
    chars_of, concat2, contains_text, ends_with, find_char, find_white, lines, lower, occurs_in,
    optional_text, replace_char, replaced, same_text, split_lines, starts_with, text_of, to_lower,
    to_upper, trim, trim_end, trimmed, trimmed_end, until_char, upper, views, word_len,
};

verus! {

// ---------------------------------------------------------------------------
// Addresses and names
// ---------------------------------------------------------------------------

/// A Bluetooth address in upper case, with colons in place of underscores.
pub open spec fn mac_colon(mac: Seq<char>) -> Seq<char> {
    replaced(upper(mac), '_', ':')
}

/// A Bluetooth address in upper case, with underscores in place of colons.
pub open spec fn mac_underscore(mac: Seq<char>) -> Seq<char> {
    replaced(mac_colon(mac), ':', '_')
}

pub fn normalize_mac_colon(mac: &str) -> (r: String)
    ensures
        r@ == mac_colon(mac@),
{
    replace_char(to_upper(mac).as_str(), '_', ':')
}

pub fn normalize_mac_underscore(mac: &str) -> (r: String)
    ensures
        r@ == mac_underscore(mac@),
{
    replace_char(normalize_mac_colon(mac).as_str(), ':', '_')
}

/// A name that holds `airpods` or `beats`, in upper or lower case letters.
pub open spec fn is_airpods_like(name: Seq<char>) -> bool {
    occurs_in("airpods"@, lower(name)) || occurs_in("beats"@, lower(name))
}

pub fn airpods_like_name(name: &str) -> (r: bool)
    ensures
        r == is_airpods_like(name@),
{
    let lowered = to_lower(name);
    contains_text(lowered.as_str(), "airpods") || contains_text(lowered.as_str(), "beats")
}

// ---------------------------------------------------------------------------
// Devices
// ---------------------------------------------------------------------------

#[derive(Debug, Clone, PartialEq, Eq)]
pub struct Device {
    pub mac: String,
    pub name: String,
}

/// What a device holds.
#[verifier::ext_equal]
pub struct DeviceModel {
    pub mac: Seq<char>,
    pub name: Seq<char>,
}

impl View for Device {
    type V = DeviceModel;

    open spec fn view(&self) -> DeviceModel {
        DeviceModel { mac: self.mac@, name: self.name@ }
    }
}

impl Device {
    /// A copy of the device.
    pub fn copied(&self) -> (r: Device)
        ensures
            r@ == self@,
    {
        Device { mac: self.mac.clone(), name: self.name.clone() }
    }
}

/// What devices hold.
pub open spec fn device_models(devices: Seq<Device>) -> Seq<DeviceModel> {
    devices.map_values(|d: Device| d@)
}

/// The device that one line lists: `Device`, a blank, the address, a white
/// character, the name.
pub open spec fn device_of_line(line: Seq<char>) -> Option<DeviceModel> {
    let entry = trimmed(without_colour(line));
    if "Device "@.is_prefix_of(entry) {
        let rest = entry.skip("Device "@.len() as int);
        let n = word_len(rest) as int;
        if 0 < n < rest.len() {
            Some(DeviceModel { mac: rest.take(n), name: trimmed(rest.skip(n + 1)) })
        } else {
            None
        }
    } else {
        None
    }
}

/// The devices that the lines list, in their order.
pub open spec fn devices_of_lines(lines: Seq<Seq<char>>) -> Seq<DeviceModel>
    decreases lines.len(),
{
    if lines.len() == 0 {
        Seq::empty()
    } else {
        match device_of_line(lines.last()) {
            Some(device) => devices_of_lines(lines.drop_last()).push(device),
            None => devices_of_lines(lines.drop_last()),
        }
    }
}

/// What a device that may be missing holds.
pub open spec fn optional_device(device: Option<Device>) -> Option<DeviceModel> {
    match device {
        Some(device) => Some(device@),
        None => None,
    }
}

fn parse_device_line(line: &[char]) -> (r: Option<Device>)
    ensures
        optional_device(r) == device_of_line(line@),
{
    let plain = strip_colour(text_of(line).as_str());
    let chars = chars_of(plain.as_str());
    let entry = trim(chars.as_slice());
    let tag = chars_of("Device ");
    if !starts_with(entry, tag.as_slice()) {
        return None;
    }
    let rest = slice_subrange(entry, tag.len(), entry.len());
    assert(rest@ == entry@.skip("Device "@.len() as int));
    let n: usize = find_white(rest);
    if n == 0 || n >= rest.len() {
        return None;
    }
    let mac = slice_subrange(rest, 0, n);
    let tail = slice_subrange(rest, n + 1, rest.len());
    assert(mac@ == rest@.take(n as int));
    assert(tail@ == rest@.skip(n + 1));
    Some(Device { mac: text_of(mac), name: text_of(trim(tail)) })
}

pub fn parse_bluetooth_devices(output: &str) -> (r: Vec<Device>)
    ensures
        device_models(r@) == devices_of_lines(lines(output@)),
{
    let chars = chars_of(output);
    let all = split_lines(chars.as_slice());
    let ghost models = lines(output@);
    let mut r: Vec<Device> = Vec::new();
    let mut i: usize = 0;
    while i < all.len()
        invariant
            i <= all@.len(),
            models == views(all@),
            device_models(r@) == devices_of_lines(models.take(i as int)),
        decreases all@.len() - i,
    {
        let ghost before = r@;
        assert(models.take(i + 1).drop_last() == models.take(i as int));
        assert(models.take(i + 1).last() == all@[i as int]@);
        if let Some(device) = parse_device_line(all[i]) {
            r.push(device);
            assert(device_models(r@) == device_models(before).push(device@));
        }
        i += 1;
    }
    assert(models.take(models.len() as int) == models);
    r
}

// ---------------------------------------------------------------------------
// Device information
// ---------------------------------------------------------------------------

/// What is known of a device: texts by their names.
pub type BluetoothInfo = StringHashMap<String>;

/// What a table of texts holds.
pub open spec fn info_model(info: Map<Seq<char>, String>) -> Map<Seq<char>, Seq<char>> {
    info.map_values(|value: String| value@)
}

/// The name and the value that one line of a description holds.
pub open spec fn info_of_line(line: Seq<char>) -> Option<(Seq<char>, Seq<char>)> {
    let entry = trimmed_end(without_colour(line));
    let n = until_char(entry, ':') as int;
    if n < entry.len() && !"Device "@.is_prefix_of(entry) {
        Some((trimmed(entry.take(n)), trimmed(entry.skip(n + 1))))
    } else {
        None
    }
}

/// What the lines of a description tell, later ones over earlier ones.
pub open spec fn info_of_lines(lines: Seq<Seq<char>>) -> Map<Seq<char>, Seq<char>>
    decreases lines.len(),
{
    if lines.len() == 0 {
        Map::empty()
    } else {
        match info_of_line(lines.last()) {
            Some((key, value)) => info_of_lines(lines.drop_last()).insert(key, value),
            None => info_of_lines(lines.drop_last()),
        }
    }
}

fn insert_text(info: &mut BluetoothInfo, key: String, value: String)
    ensures
        info_model(final(info)@) == info_model(old(info)@).insert(key@, value@),
{
    let ghost before = info@;
    info.insert(key, value);
    assert(info_model(info@) =~= info_model(before).insert(key@, value@));
}

fn new_info() -> (r: BluetoothInfo)
    ensures
        info_model(r@) == Map::<Seq<char>, Seq<char>>::empty(),
{
    let r = StringHashMap::new();
    assert(info_model(r@) =~= Map::<Seq<char>, Seq<char>>::empty());
    r
}

pub fn parse_bluetooth_info(output: &str) -> (r: BluetoothInfo)
    ensures
        info_model(r@) == info_of_lines(lines(output@)),
{
    let chars = chars_of(output);
    let all = split_lines(chars.as_slice());
    let ghost models = lines(output@);
    let tag = chars_of("Device ");
    let mut info = new_info();
    let mut i: usize = 0;
    while i < all.len()
        invariant
            i <= all@.len(),
            tag@ == "Device "@,
            models == views(all@),
            info_model(info@) == info_of_lines(models.take(i as int)),
        decreases all@.len() - i,
    {
        assert(models.take(i + 1).drop_last() == models.take(i as int));
        assert(models.take(i + 1).last() == all@[i as int]@);
        let plain = strip_colour(text_of(all[i]).as_str());
        let line_chars = chars_of(plain.as_str());
        let entry = trim_end(line_chars.as_slice());
        if !starts_with(entry, tag.as_slice()) {
            let n: usize = find_char(entry, ':');
            if n < entry.len() {
                let key = slice_subrange(entry, 0, n);
                let value = slice_subrange(entry, n + 1, entry.len());
                assert(key@ == entry@.take(n as int));
                assert(value@ == entry@.skip(n + 1));
                insert_text(&mut info, text_of(trim(key)), text_of(trim(value)));
            }
        }
        i += 1;
    }
    assert(models.take(models.len() as int) == models);
    info
}

/// The properties of a device object that are read.
pub open spec fn property_names() -> Seq<Seq<char>> {
    seq![
        "Name"@,
        "Alias"@,
        "Address"@,
        "AddressType"@,
        "Paired"@,
        "Bonded"@,
        "Trusted"@,
        "Blocked"@,
        "Connected"@,
        "LegacyPairing"@,
        "CablePairing"@,
        "Modalias"@,
        "PreferredBearer"@,
        "ServicesResolved"@,
    ]
}

pub fn bluez_properties() -> (r: Vec<&'static str>)
    ensures
        slice_texts(r@) == property_names(),
{
    let mut names: Vec<&'static str> = Vec::new();
    names.push("Name");
    names.push("Alias");
    names.push("Address");
    names.push("AddressType");
    names.push("Paired");
    names.push("Bonded");
    names.push("Trusted");
    names.push("Blocked");
    names.push("Connected");
    names.push("LegacyPairing");
    names.push("CablePairing");
    names.push("Modalias");
    names.push("PreferredBearer");
    names.push("ServicesResolved");
    assert(slice_texts(names@) =~= property_names());
    names
}

/// The text of a device property, as the command that reads it reports it.
pub open spec fn property_of_command(outcome: CommandOutcome) -> Option<Seq<char>> {
    if outcome.code != 0 {
        None
    } else {
        match data_of_document(json_document(outcome.stdout)) {
            Some(value) => Some(property_text(value)),
            None => None,
        }
    }
}

pub fn bluez_device_property(result: &CommandResult) -> (r: Option<String>)
    ensures
        optional_text(r) == property_of_command(result@),
{
    if result.code != 0 {
        return None;
    }
    match property_data(result.stdout.as_str()) {
        Some(value) => Some(stringify_bluez_value(&value)),
        None => None,
    }
}

/// What the first `n` properties tell, each under its name.
pub open spec fn info_of_properties(values: Seq<Option<String>>, n: int) -> Map<
    Seq<char>,
    Seq<char>,
>
    decreases n,
{
    if n <= 0 {
        Map::empty()
    } else {
        match values[n - 1] {
            Some(value) => info_of_properties(values, n - 1).insert(
                property_names()[n - 1],
                value@,
            ),
            None => info_of_properties(values, n - 1),
        }
    }
}

/// The table with the value of `from` also under `key`, where `key` has none.
pub open spec fn with_fallback(
    info: Map<Seq<char>, Seq<char>>,
    key: Seq<char>,
    from: Seq<char>,
) -> Map<Seq<char>, Seq<char>> {
    if info.contains_key(from) && !info.contains_key(key) {
        info.insert(key, info[from])
    } else {
        info
    }
}

/// The number of properties for which a value is given.
pub open spec fn property_count(values: Seq<Option<String>>) -> int {
    if values.len() < property_names().len() {
        values.len() as int
    } else {
        property_names().len() as int
    }
}

/// The properties by their names; the state of the classic bearer is that of the
/// device, unless it is known by itself.
pub open spec fn info_of_busctl(values: Seq<Option<String>>) -> Map<Seq<char>, Seq<char>> {
    with_fallback(
        with_fallback(
            info_of_properties(values, property_count(values)),
            "BREDR.Bonded"@,
            "Bonded"@,
        ),
        "BREDR.Connected"@,
        "Connected"@,
    )
}

fn insert_fallback(info: &mut BluetoothInfo, key: &str, from: &str)
    ensures
        info_model(final(info)@) == with_fallback(info_model(old(info)@), key@, from@),
{
    let value: Option<String> = match info.get(from) {
        Some(value) => Some(value.clone()),
        None => None,
    };
    if let Some(value) = value {
        if !info.contains_key(key) {
            insert_text(info, key.to_owned(), value);
        }
    }
}

/// Collects the values of the properties, in the order of their names.
pub fn bluetooth_info_via_busctl(values: &Vec<Option<String>>) -> (r: BluetoothInfo)
    ensures
        info_model(r@) == info_of_busctl(values@),
{
    let names = bluez_properties();
    let mut info = new_info();
    let mut i: usize = 0;
    assert(slice_texts(names@).len() == names@.len());
    while i < names.len() && i < values.len()
        invariant
            i <= names@.len(),
            i <= values@.len(),
            slice_texts(names@) == property_names(),
            names@.len() == property_names().len(),
            info_model(info@) == info_of_properties(values@, i as int),
        decreases names@.len() - i,
    {
        assert(property_names()[i as int] == names@[i as int]@);
        if let Some(value) = &values[i] {
            insert_text(&mut info, names[i].to_owned(), value.clone());
        }
        i += 1;
    }
    insert_fallback(&mut info, "BREDR.Bonded", "Bonded");
    insert_fallback(&mut info, "BREDR.Connected", "Connected");
    info
}

/// Tells whether nothing is known of a device, so that another source is asked.
pub fn info_missing(info: &BluetoothInfo) -> (r: bool)
    ensures
        r == (info_model(info@) == Map::<Seq<char>, Seq<char>>::empty()),
{
    let r = info.is_empty();
    proof {
        if r {
            assert(info_model(info@) =~= Map::<Seq<char>, Seq<char>>::empty());
        } else {
            assert(info_model(info@).dom() =~= info@.dom());
            assert(info@ =~= Map::<Seq<char>, String>::empty() || exists|k: Seq<char>|
                info@.dom().contains(k));
        }
    }
    r
}

/// What the description of a device tells; nothing if it could not be had.
pub open spec fn info_of_command(outcome: Option<CommandOutcome>) -> Map<Seq<char>, Seq<char>> {
    match outcome {
        Some(outcome) if outcome.code == 0 => info_of_lines(lines(outcome.stdout)),
        _ => Map::empty(),
    }
}

/// What a command result that may be missing holds.
pub open spec fn optional_outcome(result: Option<CommandResult>) -> Option<CommandOutcome> {
    match result {
        Some(result) => Some(result@),
        None => None,
    }
}

/// What the system bus tells, or else, if that is nothing, what the command tells.
pub open spec fn preferred_info(
    bus: Map<Seq<char>, Seq<char>>,
    command: Map<Seq<char>, Seq<char>>,
) -> Map<Seq<char>, Seq<char>> {
    if bus.dom().is_empty() {
        command
    } else {
        bus
    }
}

/// What is known of a device: what the system bus tells, or else the description that
/// the command printed, where it could be run.
pub fn bluetooth_info(bus: BluetoothInfo, result: Option<CommandResult>) -> (r: BluetoothInfo)
    ensures
        info_model(r@) == preferred_info(
            info_model(bus@),
            info_of_command(optional_outcome(result)),
        ),
{
    if !info_missing(&bus) {
        proof {
            let known = info_model(bus@);
            if known.dom().is_empty() {
                assert(known =~= Map::<Seq<char>, Seq<char>>::empty());
            }
        }
        return bus;
    }
    match result {
        Some(result) => if result.code == 0 {
            parse_bluetooth_info(result.stdout.as_str())
        } else {
            new_info()
        },
        None => new_info(),
    }
}

/// The table says `yes` under `key`.
pub open spec fn says_yes(info: Map<Seq<char>, Seq<char>>, key: Seq<char>) -> bool {
    info.contains_key(key) && info[key] == "yes"@
}

/// Tells whether the table says `yes` under `key`.
pub fn info_says_yes(info: &BluetoothInfo, key: &str) -> (r: bool)
    ensures
        r == says_yes(info_model(info@), key@),
{
    match info.get(key) {
        Some(value) => same_text(value.as_str(), "yes"),
        None => false,
    }
}

/// Tells whether the device is connected.
pub fn connected(info: &BluetoothInfo) -> (r: bool)
    ensures
        r == says_yes(info_model(info@), "Connected"@),
{
    info_says_yes(info, "Connected")
}

/// The text under `key`, if there is one.
pub open spec fn info_text(info: Map<Seq<char>, Seq<char>>, key: Seq<char>) -> Option<Seq<char>> {
    if info.contains_key(key) {
        Some(info[key])
    } else {
        None
    }
}

pub(crate) fn info_get(info: &BluetoothInfo, key: &str) -> (r: Option<String>)
    ensures
        optional_text(r) == info_text(info_model(info@), key@),
{
    match info.get(key) {
        Some(value) => Some(value.clone()),
        None => None,
    }
}

// ---------------------------------------------------------------------------
// Device objects on the system bus
// ---------------------------------------------------------------------------

/// The entry of one line of a tree listing.
pub open spec fn tree_entry(line: Seq<char>) -> Seq<char> {
    trimmed(without_tree(line))
}

pub fn strip_tree_prefix(raw_line: &str) -> (r: String)
    ensures
        r@ == tree_entry(raw_line@),
{
    proof {
        reveal_strlit("");
    }
    let plain = replace_first(TREE_PATTERN, raw_line, "").unwrap();
    let chars = chars_of(plain.as_str());
    text_of(trim(chars.as_slice()))
}

/// The first entry of the listing that ends with `suffix`.
pub open spec fn first_entry(lines: Seq<Seq<char>>, suffix: Seq<char>) -> Option<Seq<char>>
    decreases lines.len(),
{
    if lines.len() == 0 {
        None
    } else if suffix.is_suffix_of(tree_entry(lines[0])) {
        Some(tree_entry(lines[0]))
    } else {
        first_entry(lines.drop_first(), suffix)
    }
}

/// How the path of the object of a device ends.
pub open spec fn path_suffix(mac: Seq<char>) -> Seq<char> {
    "/dev_"@ + mac_underscore(mac)
}

/// Finds the path of the object of a device in a tree listing.
pub fn find_device_path(tree: &str, mac: &str) -> (r: Option<String>)
    ensures
        optional_text(r) == first_entry(lines(tree@), path_suffix(mac@)),
{
    let suffix = concat2("/dev_", normalize_mac_underscore(mac).as_str());
    let suffix_chars = chars_of(suffix.as_str());
    let chars = chars_of(tree);
    let all = split_lines(chars.as_slice());
    let ghost models = lines(tree@);
    let mut i: usize = 0;
    assert(models.skip(0) == models);
    while i < all.len()
        invariant
            i <= all@.len(),
            suffix_chars@ == path_suffix(mac@),
            models == lines(tree@),
            models == views(all@),
            first_entry(models, path_suffix(mac@)) == first_entry(
                models.skip(i as int),
                path_suffix(mac@),
            ),
        decreases all@.len() - i,
    {
        let ghost rest = models.skip(i as int);
        assert(rest[0] == all@[i as int]@);
        assert(rest.drop_first() == models.skip(i + 1));
        let path = strip_tree_prefix(text_of(all[i]).as_str());
        let path_chars = chars_of(path.as_str());
        if ends_with(path_chars.as_slice(), suffix_chars.as_slice()) {
            return Some(path);
        }
        i += 1;
    }
    None
}

/// The paths of device objects that were looked up already.
pub struct PathCache {
    entries: StringHashMap<Option<String>>,
}

impl View for PathCache {
    type V = Map<Seq<char>, Option<Seq<char>>>;

    closed spec fn view(&self) -> Map<Seq<char>, Option<Seq<char>>> {
        self.entries@.map_values(|path: Option<String>| optional_text(path))
    }
}

impl PathCache {
    pub fn new() -> (r: Self)
        ensures
            r@ == Map::<Seq<char>, Option<Seq<char>>>::empty(),
    {
        let r = PathCache { entries: StringHashMap::new() };
        assert(r@ =~= Map::<Seq<char>, Option<Seq<char>>>::empty());
        r
    }

    /// The outcome of an earlier lookup, if there was one.
    pub fn lookup(&self, mac: &str) -> (r: Option<Option<String>>)
        ensures
            match r {
                Some(path) => self@.contains_key(mac_colon(mac@)) && self@[mac_colon(mac@)]
                    == optional_text(path),
                None => !self@.contains_key(mac_colon(mac@)),
            },
    {
        let key = normalize_mac_colon(mac);
        match self.entries.get(key.as_str()) {
            Some(Some(path)) => Some(Some(path.clone())),
            Some(None) => Some(None),
            None => None,
        }
    }

    /// Looks the device up in a tree listing and remembers the outcome.  A listing
    /// that failed tells nothing and is not remembered.
    pub fn bluez_device_path(&mut self, mac: &str, result: &CommandResult) -> (r: Option<String>)
        ensures
            result.code != 0 ==> r is None && final(self)@ == old(self)@,
            result.code == 0 ==> {
                &&& optional_text(r) == first_entry(lines(result@.stdout), path_suffix(mac@))
                &&& final(self)@ == old(self)@.insert(mac_colon(mac@), optional_text(r))
            },
    {
        if result.code != 0 {
            return None;
        }
        let ghost before = self@;
        let path = find_device_path(result.stdout.as_str(), mac);
        let kept: Option<String> = match &path {
            Some(path) => Some(path.clone()),
            None => None,
        };
        self.entries.insert(normalize_mac_colon(mac), kept);
        assert(self@ =~= before.insert(mac_colon(mac@), optional_text(path)));
        path
    }
}

} // verus!
