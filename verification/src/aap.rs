//! Packets of the AirPods control channel.

use vstd::prelude::*;
use vstd::slice::slice_subrange;

use crate::adapters::{decode_lossy, hex_encode, hex_text, lossy_text};
use crate::text::{optional_text, texts};

pub use crate::session::AAPSession;

verus! {

pub const AAPP_HANDSHAKE: [u8; 16] = [
    0x00, 0x00, 0x04, 0x00, 0x01, 0x00, 0x02, 0x00, 0x00, 0x00, 0x00, 0x00, 0x00, 0x00, 0x00, 0x00,
];

pub const AAPP_SET_SPECIFIC_FEATURES: [u8; 14] = [
    0x04, 0x00, 0x04, 0x00, 0x4d, 0x00, 0xd7, 0x00, 0x00, 0x00, 0x00, 0x00, 0x00, 0x00,
];

pub const AAPP_REQUEST_NOTIFICATIONS: [u8; 11] = [
    0x04, 0x00, 0x04, 0x00, 0x0f, 0x00, 0xff, 0xff, 0xff, 0xff, 0xff,
];

pub const AAPP_REQUEST_MAGIC_KEYS: [u8; 8] = [0x04, 0x00, 0x04, 0x00, 0x30, 0x00, 0x05, 0x00];

pub const HANDSHAKE_ACK_PREFIX: [u8; 4] = [0x01, 0x00, 0x04, 0x00];

pub const FEATURES_ACK_PREFIX: [u8; 6] = [0x04, 0x00, 0x04, 0x00, 0x2b, 0x00];

pub const BATTERY_PREFIX: [u8; 6] = [0x04, 0x00, 0x04, 0x00, 0x04, 0x00];

pub const METADATA_PREFIX: [u8; 5] = [0x04, 0x00, 0x04, 0x00, 0x1d];

pub const MAGIC_KEYS_PREFIX: [u8; 7] = [0x04, 0x00, 0x04, 0x00, 0x31, 0x00, 0x02];

pub const NOISE_CONTROL_PREFIX: [u8; 7] = [0x04, 0x00, 0x04, 0x00, 0x09, 0x00, 0x0d];

pub const CONVERSATIONAL_AWARENESS_PREFIX: [u8; 7] = [0x04, 0x00, 0x04, 0x00, 0x09, 0x00, 0x28];

/// Tells whether `packet` starts with `prefix`.
fn has_prefix(packet: &[u8], prefix: &[u8]) -> (r: bool)
    ensures
        r == prefix@.is_prefix_of(packet@),
{
    if packet.len() < prefix.len() {
        return false;
    }
    let mut i: usize = 0;
    while i < prefix.len()
        invariant
            i <= prefix@.len() <= packet@.len(),
            forall|j: int| 0 <= j < i ==> prefix@[j] == packet@[j],
        decreases prefix@.len() - i,
    {
        if packet[i] != prefix[i] {
            assert(packet@.subrange(0, prefix@.len() as int)[i as int] != prefix@[i as int]);
            return false;
        }
        i += 1;
    }
    assert(prefix@ =~= packet@.subrange(0, prefix@.len() as int));
    true
}

// ---------------------------------------------------------------------------
// Battery
// ---------------------------------------------------------------------------

#[derive(Debug, Clone, Copy, PartialEq, Eq, Structural)]
pub struct BatteryComponent {
    pub level: Option<u8>,
    pub charging: bool,
    pub available: bool,
    pub status_code: Option<u8>,
}

/// A component of which nothing is known.
pub open spec fn unknown_component() -> BatteryComponent {
    BatteryComponent { level: None, charging: false, available: false, status_code: None }
}

impl Default for BatteryComponent {
    fn default() -> (r: Self)
        ensures
            r == unknown_component(),
    {
        BatteryComponent { level: None, charging: false, available: false, status_code: None }
    }
}

#[derive(Debug, Clone, PartialEq, Eq)]
pub struct BatteryStatus {
    pub left: BatteryComponent,
    pub right: BatteryComponent,
    pub case_unit: BatteryComponent,
    pub headset: BatteryComponent,
    pub primary: Option<String>,
    pub secondary: Option<String>,
}

/// What a battery status holds.
#[verifier::ext_equal]
pub struct BatteryModel {
    pub left: BatteryComponent,
    pub right: BatteryComponent,
    pub case_unit: BatteryComponent,
    pub headset: BatteryComponent,
    pub primary: Option<Seq<char>>,
    pub secondary: Option<Seq<char>>,
}

impl View for BatteryStatus {
    type V = BatteryModel;

    open spec fn view(&self) -> BatteryModel {
        BatteryModel {
            left: self.left,
            right: self.right,
            case_unit: self.case_unit,
            headset: self.headset,
            primary: optional_text(self.primary),
            secondary: optional_text(self.secondary),
        }
    }
}

impl Default for BatteryStatus {
    fn default() -> (r: Self)
        ensures
            r.left == unknown_component(),
            r.right == unknown_component(),
            r.case_unit == unknown_component(),
            r.headset == unknown_component(),
            r.primary is None,
            r.secondary is None,
    {
        BatteryStatus {
            left: BatteryComponent::default(),
            right: BatteryComponent::default(),
            case_unit: BatteryComponent::default(),
            headset: BatteryComponent::default(),
            primary: None,
            secondary: None,
        }
    }
}

pub const HEADSET: u8 = 0x01;

pub const RIGHT: u8 = 0x02;

pub const LEFT: u8 = 0x04;

pub const CASE: u8 = 0x08;

/// The name of a component type.
pub open spec fn component_name_of(component_type: u8) -> Option<Seq<char>> {
    if component_type == HEADSET {
        Some("headset"@)
    } else if component_type == RIGHT {
        Some("right"@)
    } else if component_type == LEFT {
        Some("left"@)
    } else if component_type == CASE {
        Some("case"@)
    } else {
        None
    }
}

pub fn component_name(component_type: u8) -> (r: Option<&'static str>)
    ensures
        match r {
            Some(name) => component_name_of(component_type) == Some(name@),
            None => component_name_of(component_type) is None,
        },
{
    if component_type == HEADSET {
        Some("headset")
    } else if component_type == RIGHT {
        Some("right")
    } else if component_type == LEFT {
        Some("left")
    } else if component_type == CASE {
        Some("case")
    } else {
        None
    }
}

/// A component that is worn, and so can be the primary or the secondary pod.
pub open spec fn is_pod(component_type: u8) -> bool {
    component_type == HEADSET || component_type == RIGHT || component_type == LEFT
}

/// One battery entry of a packet: component type, 1, level, status code, 1.
pub struct BatteryEntry {
    pub component_type: u8,
    pub level: u8,
    pub status_code: u8,
}

/// The entry with the number `i`.
pub open spec fn battery_entry(packet: Seq<u8>, i: int) -> BatteryEntry {
    BatteryEntry {
        component_type: packet[7 + 5 * i],
        level: packet[9 + 5 * i],
        status_code: packet[10 + 5 * i],
    }
}

/// The entry with the number `i` has its two markers.
pub open spec fn entry_marked(packet: Seq<u8>, i: int) -> bool {
    packet[8 + 5 * i] == 1 && packet[11 + 5 * i] == 1
}

/// A battery packet: its prefix, the number of entries, at most four, and the entries.
pub open spec fn is_battery_packet(packet: Seq<u8>) -> bool {
    &&& BATTERY_PREFIX@.is_prefix_of(packet)
    &&& packet.len() >= 7
    &&& packet[6] <= 4
    &&& packet.len() == 7 + 5 * packet[6]
    &&& forall|i: int| 0 <= i < packet[6] ==> #[trigger] entry_marked(packet, i)
}

/// What an entry tells of its component.  Status 4 is absent, status 1 is charging.
pub open spec fn component_reading(entry: BatteryEntry) -> BatteryComponent {
    BatteryComponent {
        level: if entry.status_code != 4 {
            Some(entry.level)
        } else {
            None
        },
        charging: entry.status_code == 1,
        available: entry.status_code != 4,
        status_code: Some(entry.status_code),
    }
}

/// What the first `n` entries tell of the components of one type: the last of them counts.
pub open spec fn component_after(packet: Seq<u8>, component_type: u8, n: int) -> BatteryComponent
    decreases n,
{
    if n <= 0 {
        unknown_component()
    } else if battery_entry(packet, n - 1).component_type == component_type {
        component_reading(battery_entry(packet, n - 1))
    } else {
        component_after(packet, component_type, n - 1)
    }
}

/// The names of the pods among the first `n` entries, in their order.
pub open spec fn pods_after(packet: Seq<u8>, n: int) -> Seq<Seq<char>>
    decreases n,
{
    if n <= 0 {
        Seq::empty()
    } else {
        let kind = battery_entry(packet, n - 1).component_type;
        if is_pod(kind) {
            pods_after(packet, n - 1).push(component_name_of(kind)->0)
        } else {
            pods_after(packet, n - 1)
        }
    }
}

/// The element with the number `i`, if there is one.
pub open spec fn nth_text(parts: Seq<Seq<char>>, i: int) -> Option<Seq<char>> {
    if 0 <= i < parts.len() {
        Some(parts[i])
    } else {
        None
    }
}

/// The battery status that a packet reports.
pub open spec fn battery_of(packet: Seq<u8>) -> Option<BatteryModel> {
    if is_battery_packet(packet) {
        let n = packet[6] as int;
        Some(
            BatteryModel {
                left: component_after(packet, LEFT, n),
                right: component_after(packet, RIGHT, n),
                case_unit: component_after(packet, CASE, n),
                headset: component_after(packet, HEADSET, n),
                primary: nth_text(pods_after(packet, n), 0),
                secondary: nth_text(pods_after(packet, n), 1),
            },
        )
    } else {
        None
    }
}

/// What a battery status that may be missing holds.
pub open spec fn optional_battery(battery: Option<BatteryStatus>) -> Option<BatteryModel> {
    match battery {
        Some(battery) => Some(battery@),
        None => None,
    }
}

pub fn parse_battery_packet(packet: &[u8]) -> (r: Option<BatteryStatus>)
    ensures
        optional_battery(r) == battery_of(packet@),
{
    if !has_prefix(packet, BATTERY_PREFIX.as_slice()) || packet.len() < 7 {
        return None;
    }
    let battery_count: usize = packet[6] as usize;
    if battery_count > 4 || packet.len() != 7 + battery_count * 5 {
        return None;
    }
    let mut result = BatteryStatus::default();
    let mut pod_order: Vec<String> = Vec::new();
    let mut index: usize = 0;
    while index < battery_count
        invariant
            index <= battery_count <= 4,
            battery_count == packet@[6],
            packet@.len() == 7 + 5 * battery_count,
            forall|i: int| 0 <= i < index ==> #[trigger] entry_marked(packet@, i),
            result.left == component_after(packet@, LEFT, index as int),
            result.right == component_after(packet@, RIGHT, index as int),
            result.case_unit == component_after(packet@, CASE, index as int),
            result.headset == component_after(packet@, HEADSET, index as int),
            result.primary is None,
            result.secondary is None,
            texts(pod_order@) == pods_after(packet@, index as int),
        decreases battery_count - index,
    {
        let offset: usize = 7 + index * 5;
        let component_type: u8 = packet[offset];
        let spacer: u8 = packet[offset + 1];
        let level: u8 = packet[offset + 2];
        let status_code: u8 = packet[offset + 3];
        let end_marker: u8 = packet[offset + 4];
        if spacer != 0x01 || end_marker != 0x01 {
            assert(!entry_marked(packet@, index as int));
            return None;
        }
        let available: bool = status_code != 0x04;
        let component = BatteryComponent {
            level: if available {
                Some(level)
            } else {
                None
            },
            charging: status_code == 0x01,
            available,
            status_code: Some(status_code),
        };
        assert(component == component_reading(battery_entry(packet@, index as int)));
        let ghost pods_before = pod_order@;
        if component_type == HEADSET {
            result.headset = component;
        } else if component_type == RIGHT {
            result.right = component;
        } else if component_type == LEFT {
            result.left = component;
        } else if component_type == CASE {
            result.case_unit = component;
        }
        if component_type == LEFT || component_type == RIGHT || component_type == HEADSET {
            if let Some(name) = component_name(component_type) {
                pod_order.push(name.to_owned());
                assert(texts(pod_order@) == texts(pods_before).push(name@));
            }
        }
        index += 1;
    }
    proof {
        let names = texts(pod_order@);
        assert(names.len() == pod_order@.len());
        assert(pod_order@.len() > 0 ==> names[0] == pod_order@[0]@);
        assert(pod_order@.len() > 1 ==> names[1] == pod_order@[1]@);
    }
    if pod_order.len() > 0 {
        result.primary = Some(pod_order[0].clone());
    }
    if pod_order.len() > 1 {
        result.secondary = Some(pod_order[1].clone());
    }
    assert(result@ == battery_of(packet@)->0);
    Some(result)
}

// ---------------------------------------------------------------------------
// Metadata
// ---------------------------------------------------------------------------

#[derive(Debug, Clone, PartialEq, Eq)]
pub struct Metadata {
    pub device_name: Option<String>,
    pub model_number: Option<String>,
    pub manufacturer: Option<String>,
}

/// What device metadata holds.
#[verifier::ext_equal]
pub struct MetadataModel {
    pub device_name: Option<Seq<char>>,
    pub model_number: Option<Seq<char>>,
    pub manufacturer: Option<Seq<char>>,
}

impl View for Metadata {
    type V = MetadataModel;

    open spec fn view(&self) -> MetadataModel {
        MetadataModel {
            device_name: optional_text(self.device_name),
            model_number: optional_text(self.model_number),
            manufacturer: optional_text(self.manufacturer),
        }
    }
}

impl Default for Metadata {
    fn default() -> (r: Self)
        ensures
            r.device_name is None,
            r.model_number is None,
            r.manufacturer is None,
    {
        Metadata { device_name: None, model_number: None, manufacturer: None }
    }
}

/// The number of bytes of `s` before the first zero, or all if there is none.
pub open spec fn until_zero(s: Seq<u8>) -> nat
    decreases s.len(),
{
    if s.len() == 0 || s[0] == 0 {
        0
    } else {
        1 + until_zero(s.drop_first())
    }
}

pub proof fn lemma_until_zero(s: Seq<u8>, n: int)
    requires
        0 <= n <= s.len(),
        forall|i: int| 0 <= i < n ==> #[trigger] s[i] != 0,
        n < s.len() ==> s[n] == 0,
    ensures
        until_zero(s) == n,
    decreases s.len(),
{
    if n > 0 {
        assert(s[0] != 0);
        assert forall|i: int| 0 <= i < n - 1 implies #[trigger] s.drop_first()[i] != 0 by {
            assert(s.drop_first()[i] == s[i + 1]);
        }
        lemma_until_zero(s.drop_first(), n - 1);
    }
}

fn find_zero(s: &[u8]) -> (n: usize)
    ensures
        n == until_zero(s@),
        n <= s@.len(),
{
    let mut n: usize = 0;
    while n < s.len() && s[n] != 0
        invariant
            n <= s@.len(),
            forall|i: int| 0 <= i < n ==> #[trigger] s@[i] != 0,
        decreases s@.len() - n,
    {
        n += 1;
    }
    proof {
        lemma_until_zero(s@, n as int);
    }
    n
}

/// The bytes of the three names that a metadata packet holds.
pub struct MetadataParts {
    pub device_name: Seq<u8>,
    pub model_number: Seq<u8>,
    pub manufacturer: Seq<u8>,
}

/// The first three of the parts into which zeros divide what follows the six
/// bytes after the prefix.
pub open spec fn metadata_parts(packet: Seq<u8>) -> Option<MetadataParts> {
    if METADATA_PREFIX@.is_prefix_of(packet) && packet.len() > 11 {
        let first = packet.skip(11);
        let a = until_zero(first) as int;
        let second = first.skip(a + 1);
        let b = until_zero(second) as int;
        let third = second.skip(b + 1);
        if a < first.len() && b < second.len() {
            Some(
                MetadataParts {
                    device_name: first.take(a),
                    model_number: second.take(b),
                    manufacturer: third.take(until_zero(third) as int),
                },
            )
        } else {
            None
        }
    } else {
        None
    }
}

/// The metadata that a packet reports.
pub open spec fn metadata_of(packet: Seq<u8>) -> Option<MetadataModel> {
    match metadata_parts(packet) {
        Some(parts) => Some(
            MetadataModel {
                device_name: Some(lossy_text(parts.device_name)),
                model_number: Some(lossy_text(parts.model_number)),
                manufacturer: Some(lossy_text(parts.manufacturer)),
            },
        ),
        None => None,
    }
}

/// What device metadata that may be missing holds.
pub open spec fn optional_metadata(metadata: Option<Metadata>) -> Option<MetadataModel> {
    match metadata {
        Some(metadata) => Some(metadata@),
        None => None,
    }
}

/// If `raw` is valid UTF-8, then `text` is what it encodes.
pub open spec fn faithful(raw: Seq<u8>, text: Option<Seq<char>>) -> bool {
    vstd::utf8::valid_utf8(raw) ==> text == Some(vstd::utf8::decode_utf8(raw))
}

/// The text that the bytes encode; bytes that are not valid UTF-8 are replaced.
pub fn safe_decode(raw: &[u8]) -> (r: String)
    ensures
        r@ == lossy_text(raw@),
        faithful(raw@, Some(r@)),
{
    decode_lossy(raw)
}

pub fn parse_metadata_packet(packet: &[u8]) -> (r: Option<Metadata>)
    ensures
        optional_metadata(r) == metadata_of(packet@),
        r matches Some(metadata) ==> {
            &&& faithful(metadata_parts(packet@)->0.device_name, metadata@.device_name)
            &&& faithful(metadata_parts(packet@)->0.model_number, metadata@.model_number)
            &&& faithful(metadata_parts(packet@)->0.manufacturer, metadata@.manufacturer)
        },
{
    if !has_prefix(packet, METADATA_PREFIX.as_slice()) || packet.len() <= 11 {
        return None;
    }
    let first = slice_subrange(packet, 11, packet.len());
    assert(first@ == packet@.skip(11));
    let a: usize = find_zero(first);
    if a >= first.len() {
        return None;
    }
    let second = slice_subrange(first, a + 1, first.len());
    assert(second@ == first@.skip(a + 1));
    let b: usize = find_zero(second);
    if b >= second.len() {
        return None;
    }
    let third = slice_subrange(second, b + 1, second.len());
    assert(third@ == second@.skip(b + 1));
    let c: usize = find_zero(third);
    let device_name = slice_subrange(first, 0, a);
    let model_number = slice_subrange(second, 0, b);
    let manufacturer = slice_subrange(third, 0, c);
    Some(
        Metadata {
            device_name: Some(safe_decode(device_name)),
            model_number: Some(safe_decode(model_number)),
            manufacturer: Some(safe_decode(manufacturer)),
        },
    )
}

// ---------------------------------------------------------------------------
// Keys
// ---------------------------------------------------------------------------

#[derive(Debug, Clone, PartialEq, Eq)]
pub struct MagicKeys {
    pub irk: String,
    pub enc_key: String,
}

/// What a pair of keys holds.
#[verifier::ext_equal]
pub struct MagicKeysModel {
    pub irk: Seq<char>,
    pub enc_key: Seq<char>,
}

impl View for MagicKeys {
    type V = MagicKeysModel;

    open spec fn view(&self) -> MagicKeysModel {
        MagicKeysModel { irk: self.irk@, enc_key: self.enc_key@ }
    }
}

pub const IRK: u8 = 0x01;

pub const ENC_KEY: u8 = 0x04;

/// One key of a packet, and the position after it.
pub struct KeyRecord {
    pub key_type: u8,
    pub data: Seq<u8>,
    pub next: int,
}

/// The key record at position `at`: type, one byte, length, one byte, the key.
pub open spec fn key_record(packet: Seq<u8>, at: int) -> Option<KeyRecord> {
    if 0 <= at && at + 4 <= packet.len() && at + 4 + packet[at + 2] <= packet.len() {
        let next = at + 4 + packet[at + 2];
        Some(
            KeyRecord {
                key_type: packet[at],
                data: packet.subrange(at + 4, next),
                next,
            },
        )
    } else {
        None
    }
}

/// The keys that a packet hands over: it holds two records, one of either type.
pub open spec fn magic_keys_of(packet: Seq<u8>) -> Option<MagicKeysModel> {
    if MAGIC_KEYS_PREFIX@.is_prefix_of(packet) {
        match key_record(packet, 7) {
            Some(first) => match key_record(packet, first.next) {
                Some(second) => if first.key_type == IRK && second.key_type == ENC_KEY {
                    Some(
                        MagicKeysModel {
                            irk: hex_text(first.data),
                            enc_key: hex_text(second.data),
                        },
                    )
                } else if first.key_type == ENC_KEY && second.key_type == IRK {
                    Some(
                        MagicKeysModel {
                            irk: hex_text(second.data),
                            enc_key: hex_text(first.data),
                        },
                    )
                } else {
                    None
                },
                None => None,
            },
            None => None,
        }
    } else {
        None
    }
}

/// What keys that may be missing hold.
pub open spec fn optional_keys(keys: Option<MagicKeys>) -> Option<MagicKeysModel> {
    match keys {
        Some(keys) => Some(keys@),
        None => None,
    }
}

pub fn parse_magic_keys_packet(packet: &[u8]) -> (r: Option<MagicKeys>)
    ensures
        optional_keys(r) == magic_keys_of(packet@),
{
    if !has_prefix(packet, MAGIC_KEYS_PREFIX.as_slice()) || packet.len() < 7 {
        return None;
    }
    let key_count: usize = packet[6] as usize;
    assert(MAGIC_KEYS_PREFIX@[6] == packet@.subrange(0, 7)[6]);
    assert(key_count == 2);
    let mut index: usize = 7;
    let mut irk: Option<String> = None;
    let mut enc_key: Option<String> = None;
    let mut read: usize = 0;
    let ghost record0 = key_record(packet@, 7);
    let ghost record1 = key_record(packet@, record0->0.next);
    while read < key_count
        invariant
            key_count == 2,
            read <= 2,
            7 <= index <= packet@.len(),
            record0 == key_record(packet@, 7),
            record1 == key_record(packet@, record0->0.next),
            MAGIC_KEYS_PREFIX@.is_prefix_of(packet@),
            read == 0 ==> index == 7 && irk is None && enc_key is None,
            read == 1 ==> {
                &&& record0 is Some
                &&& index == record0->0.next
                &&& optional_text(irk) == if record0->0.key_type == IRK {
                    Some(hex_text(record0->0.data))
                } else {
                    None
                }
                &&& optional_text(enc_key) == if record0->0.key_type == ENC_KEY {
                    Some(hex_text(record0->0.data))
                } else {
                    None
                }
            },
            read == 2 ==> {
                &&& record0 is Some
                &&& record1 is Some
                &&& optional_text(irk) == if record1->0.key_type == IRK {
                    Some(hex_text(record1->0.data))
                } else if record0->0.key_type == IRK {
                    Some(hex_text(record0->0.data))
                } else {
                    None
                }
                &&& optional_text(enc_key) == if record1->0.key_type == ENC_KEY {
                    Some(hex_text(record1->0.data))
                } else if record0->0.key_type == ENC_KEY {
                    Some(hex_text(record0->0.data))
                } else {
                    None
                }
            },
        decreases key_count - read,
    {
        if packet.len() - index < 4 {
            return None;
        }
        let key_type: u8 = packet[index];
        let key_length: usize = packet[index + 2] as usize;
        index += 4;
        if packet.len() - index < key_length {
            return None;
        }
        let key_data = slice_subrange(packet, index, index + key_length);
        index += key_length;
        if key_type == IRK {
            irk = Some(hex_encode(key_data));
        } else if key_type == ENC_KEY {
            enc_key = Some(hex_encode(key_data));
        }
        read += 1;
    }
    match (irk, enc_key) {
        (Some(irk), Some(enc_key)) => Some(MagicKeys { irk, enc_key }),
        _ => None,
    }
}

// ---------------------------------------------------------------------------
// Settings
// ---------------------------------------------------------------------------

/// The noise control mode that a packet reports.
pub open spec fn noise_control_of(packet: Seq<u8>) -> Option<u8> {
    if NOISE_CONTROL_PREFIX@.is_prefix_of(packet) && packet.len() >= 8 && 1 <= packet[7] <= 4 {
        Some(packet[7])
    } else {
        None
    }
}

pub fn parse_noise_control_mode(packet: &[u8]) -> (r: Option<u8>)
    ensures
        r == noise_control_of(packet@),
{
    if has_prefix(packet, NOISE_CONTROL_PREFIX.as_slice()) && packet.len() >= 8 {
        let value: u8 = packet[7];
        if 1 <= value && value <= 4 {
            return Some(value);
        }
    }
    None
}

/// Whether conversational awareness is on, as a packet reports it.
pub open spec fn conversational_awareness_of(packet: Seq<u8>) -> Option<bool> {
    if CONVERSATIONAL_AWARENESS_PREFIX@.is_prefix_of(packet) && packet.len() >= 8 {
        if packet[7] == 1 {
            Some(true)
        } else if packet[7] == 2 {
            Some(false)
        } else {
            None
        }
    } else {
        None
    }
}

pub fn parse_conversational_awareness(packet: &[u8]) -> (r: Option<bool>)
    ensures
        r == conversational_awareness_of(packet@),
{
    if has_prefix(packet, CONVERSATIONAL_AWARENESS_PREFIX.as_slice()) && packet.len() >= 8 {
        return match packet[7] {
            0x01 => Some(true),
            0x02 => Some(false),
            _ => None,
        };
    }
    None
}

// ---------------------------------------------------------------------------
// Session state
// ---------------------------------------------------------------------------

#[derive(Debug, Clone, PartialEq, Eq)]
pub struct SessionState {
    pub battery: Option<BatteryStatus>,
    pub metadata: Option<Metadata>,
    pub magic_keys: Option<MagicKeys>,
    pub noise_control_mode: Option<u8>,
    pub conversational_awareness_enabled: Option<bool>,
    pub raw_packets: Vec<String>,
}

/// What a session has learned.
#[verifier::ext_equal]
pub struct SessionModel {
    pub battery: Option<BatteryModel>,
    pub metadata: Option<MetadataModel>,
    pub magic_keys: Option<MagicKeysModel>,
    pub noise_control_mode: Option<u8>,
    pub conversational_awareness_enabled: Option<bool>,
    pub raw_packets: Seq<Seq<char>>,
}

impl View for SessionState {
    type V = SessionModel;

    open spec fn view(&self) -> SessionModel {
        SessionModel {
            battery: optional_battery(self.battery),
            metadata: optional_metadata(self.metadata),
            magic_keys: optional_keys(self.magic_keys),
            noise_control_mode: self.noise_control_mode,
            conversational_awareness_enabled: self.conversational_awareness_enabled,
            raw_packets: texts(self.raw_packets@),
        }
    }
}

/// A session that has learned nothing yet.
pub open spec fn fresh_session() -> SessionModel {
    SessionModel {
        battery: None,
        metadata: None,
        magic_keys: None,
        noise_control_mode: None,
        conversational_awareness_enabled: None,
        raw_packets: Seq::empty(),
    }
}

impl Default for SessionState {
    fn default() -> (r: Self)
        ensures
            r@ == fresh_session(),
    {
        let r = SessionState {
            battery: None,
            metadata: None,
            magic_keys: None,
            noise_control_mode: None,
            conversational_awareness_enabled: None,
            raw_packets: Vec::new(),
        };
        assert(r@.raw_packets =~= Seq::<Seq<char>>::empty());
        r
    }
}

/// The newer value, or the older one if there is no newer.
pub open spec fn newer<T>(value: Option<T>, older: Option<T>) -> Option<T> {
    if value is Some {
        value
    } else {
        older
    }
}

/// A packet that only acknowledges a request.
pub open spec fn is_acknowledgement(packet: Seq<u8>) -> bool {
    HANDSHAKE_ACK_PREFIX@.is_prefix_of(packet) || FEATURES_ACK_PREFIX@.is_prefix_of(packet)
}

/// What the session knows after one more packet.
pub open spec fn ingested(
    state: SessionModel,
    packet: Seq<u8>,
    capture_packets: bool,
) -> SessionModel {
    let raw_packets = if capture_packets {
        state.raw_packets.push(hex_text(packet))
    } else {
        state.raw_packets
    };
    if is_acknowledgement(packet) {
        SessionModel { raw_packets, ..state }
    } else {
        SessionModel {
            battery: newer(battery_of(packet), state.battery),
            metadata: newer(metadata_of(packet), state.metadata),
            magic_keys: newer(magic_keys_of(packet), state.magic_keys),
            noise_control_mode: newer(noise_control_of(packet), state.noise_control_mode),
            conversational_awareness_enabled: newer(
                conversational_awareness_of(packet),
                state.conversational_awareness_enabled,
            ),
            raw_packets,
        }
    }
}

pub fn ingest_packet(packet: &[u8], state: &mut SessionState, capture_packets: bool)
    ensures
        final(state)@ == ingested(old(state)@, packet@, capture_packets),
{
    let ghost before = state@;
    if capture_packets {
        state.raw_packets.push(hex_encode(packet));
        assert(state@.raw_packets =~= before.raw_packets.push(hex_text(packet@)));
    }
    if has_prefix(packet, HANDSHAKE_ACK_PREFIX.as_slice()) || has_prefix(
        packet,
        FEATURES_ACK_PREFIX.as_slice(),
    ) {
        return ;
    }
    if let Some(battery) = parse_battery_packet(packet) {
        state.battery = Some(battery);
    }
    if let Some(metadata) = parse_metadata_packet(packet) {
        state.metadata = Some(metadata);
    }
    if let Some(keys) = parse_magic_keys_packet(packet) {
        state.magic_keys = Some(keys);
    }
    if let Some(mode) = parse_noise_control_mode(packet) {
        state.noise_control_mode = Some(mode);
    }
    if let Some(enabled) = parse_conversational_awareness(packet) {
        state.conversational_awareness_enabled = Some(enabled);
    }
}

} // verus!
