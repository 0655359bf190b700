//! The status of a device.

use vstd::prelude::*;

use crate::aap::{
    optional_battery, optional_keys, optional_metadata, BatteryModel, BatteryStatus, MagicKeys,
    MagicKeysModel, Metadata, MetadataModel, SessionModel, SessionState,
};
use crate::bluez::{
    info_get, info_model, info_says_yes, info_text, says_yes, BluetoothInfo, Device, DeviceModel,
};
use crate::link::{is_default_sink, optional_sink_ref, sink_is_default};
use crate::pulse::{Card, CardModel, Sink, SinkModel};
use crate::text::{optional_text, texts};

verus! {

/// What is known of a device.
#[derive(Debug, Clone, PartialEq, Eq)]
pub struct StatusPayload {
    pub name: String,
    pub alias: String,
    pub mac: String,
    pub paired: bool,
    pub trusted: bool,
    pub connected: bool,
    pub breder_connected: bool,
    pub sink: Option<String>,
    pub sink_state: Option<String>,
    pub card: Option<String>,
    pub default_sink: Option<String>,
    pub default_is_airpods: bool,
    pub battery: Option<BatteryStatus>,
    pub metadata: Option<Metadata>,
    pub magic_keys: Option<MagicKeys>,
    pub noise_control_mode: Option<u8>,
    pub conversational_awareness_enabled: Option<bool>,
    pub raw_packets: Option<Vec<String>>,
}

/// What a status holds.
#[verifier::ext_equal]
pub struct StatusModel {
    pub name: Seq<char>,
    pub alias: Seq<char>,
    pub mac: Seq<char>,
    pub paired: bool,
    pub trusted: bool,
    pub connected: bool,
    pub breder_connected: bool,
    pub sink: Option<Seq<char>>,
    pub sink_state: Option<Seq<char>>,
    pub card: Option<Seq<char>>,
    pub default_sink: Option<Seq<char>>,
    pub default_is_airpods: bool,
    pub battery: Option<BatteryModel>,
    pub metadata: Option<MetadataModel>,
    pub magic_keys: Option<MagicKeysModel>,
    pub noise_control_mode: Option<u8>,
    pub conversational_awareness_enabled: Option<bool>,
    pub raw_packets: Option<Seq<Seq<char>>>,
}

impl View for StatusPayload {
    type V = StatusModel;

    open spec fn view(&self) -> StatusModel {
        StatusModel {
            name: self.name@,
            alias: self.alias@,
            mac: self.mac@,
            paired: self.paired,
            trusted: self.trusted,
            connected: self.connected,
            breder_connected: self.breder_connected,
            sink: optional_text(self.sink),
            sink_state: optional_text(self.sink_state),
            card: optional_text(self.card),
            default_sink: optional_text(self.default_sink),
            default_is_airpods: self.default_is_airpods,
            battery: optional_battery(self.battery),
            metadata: optional_metadata(self.metadata),
            magic_keys: optional_keys(self.magic_keys),
            noise_control_mode: self.noise_control_mode,
            conversational_awareness_enabled: self.conversational_awareness_enabled,
            raw_packets: match self.raw_packets {
                Some(packets) => Some(texts(packets@)),
                None => None,
            },
        }
    }
}

/// The value, or `fallback` if there is none.
pub open spec fn text_or(value: Option<Seq<char>>, fallback: Seq<char>) -> Seq<char> {
    match value {
        Some(value) => value,
        None => fallback,
    }
}

/// What a reference to a card that may be missing holds.
pub open spec fn optional_card_ref(card: Option<&Card>) -> Option<CardModel> {
    match card {
        Some(card) => Some(card@),
        None => None,
    }
}

/// The status of a device that the Bluetooth daemon describes as `info`, with its
/// sink and its card, if it has them, and the default sink.
pub open spec fn status_of(
    device: DeviceModel,
    info: Map<Seq<char>, Seq<char>>,
    sink: Option<SinkModel>,
    card: Option<CardModel>,
    default_sink: Option<Seq<char>>,
) -> StatusModel {
    StatusModel {
        name: text_or(info_text(info, "Name"@), device.name),
        alias: text_or(info_text(info, "Alias"@), device.name),
        mac: device.mac,
        paired: says_yes(info, "Paired"@),
        trusted: says_yes(info, "Trusted"@),
        connected: says_yes(info, "Connected"@),
        breder_connected: says_yes(info, "BREDR.Connected"@),
        sink: match sink {
            Some(sink) => Some(sink.name),
            None => None,
        },
        sink_state: match sink {
            Some(sink) => Some(sink.state),
            None => None,
        },
        card: match card {
            Some(card) => Some(card.name),
            None => None,
        },
        default_sink,
        default_is_airpods: sink_is_default(sink, default_sink),
        battery: None,
        metadata: None,
        magic_keys: None,
        noise_control_mode: None,
        conversational_awareness_enabled: None,
        raw_packets: None,
    }
}

fn info_or(info: &BluetoothInfo, key: &str, fallback: &str) -> (r: String)
    ensures
        r@ == text_or(info_text(info_model(info@), key@), fallback@),
{
    match info_get(info, key) {
        Some(value) => value,
        None => fallback.to_owned(),
    }
}

pub fn build_status(
    device: &Device,
    info: &BluetoothInfo,
    sink: Option<&Sink>,
    card: Option<&Card>,
    default_sink: Option<String>,
) -> (r: StatusPayload)
    ensures
        r@ == status_of(
            device@,
            info_model(info@),
            optional_sink_ref(sink),
            optional_card_ref(card),
            optional_text(default_sink),
        ),
{
    let default_is_airpods = match &default_sink {
        Some(current) => is_default_sink(sink, Some(current.as_str())),
        None => false,
    };
    StatusPayload {
        name: info_or(info, "Name", device.name.as_str()),
        alias: info_or(info, "Alias", device.name.as_str()),
        mac: device.mac.clone(),
        paired: info_says_yes(info, "Paired"),
        trusted: info_says_yes(info, "Trusted"),
        connected: info_says_yes(info, "Connected"),
        breder_connected: info_says_yes(info, "BREDR.Connected"),
        sink: match sink {
            Some(sink) => Some(sink.name.clone()),
            None => None,
        },
        sink_state: match sink {
            Some(sink) => Some(sink.state.clone()),
            None => None,
        },
        card: match card {
            Some(card) => Some(card.name.clone()),
            None => None,
        },
        default_sink,
        default_is_airpods,
        battery: None,
        metadata: None,
        magic_keys: None,
        noise_control_mode: None,
        conversational_awareness_enabled: None,
        raw_packets: None,
    }
}

/// The status with what a session has learned.
pub open spec fn with_session(status: StatusModel, state: SessionModel) -> StatusModel {
    StatusModel {
        battery: state.battery,
        metadata: state.metadata,
        magic_keys: state.magic_keys,
        noise_control_mode: state.noise_control_mode,
        conversational_awareness_enabled: state.conversational_awareness_enabled,
        raw_packets: Some(state.raw_packets),
        ..status
    }
}

impl StatusPayload {
    pub fn apply_session_state(&mut self, state: SessionState)
        ensures
            final(self)@ == with_session(old(self)@, state@),
    {
        self.battery = state.battery;
        self.metadata = state.metadata;
        self.magic_keys = state.magic_keys;
        self.noise_control_mode = state.noise_control_mode;
        self.conversational_awareness_enabled = state.conversational_awareness_enabled;
        self.raw_packets = Some(state.raw_packets);
    }
}

// ---------------------------------------------------------------------------
// What is asked of a device
// ---------------------------------------------------------------------------

/// What needs a connected device.
#[derive(Debug, Clone, Copy, PartialEq, Eq, Structural)]
pub enum Purpose {
    Status,
    Battery,
    Keys,
    Monitor,
}

/// The message about a device that is not connected.
pub open spec fn unconnected_message(purpose: Purpose) -> Seq<char> {
    match purpose {
        Purpose::Status => "AirPods are not connected, so AAP status is unavailable."@,
        Purpose::Battery => "AirPods must be connected before querying AAP battery."@,
        Purpose::Keys => "AirPods must be connected before requesting AAP keys."@,
        Purpose::Monitor => "AirPods must be connected before starting monitor."@,
    }
}

pub fn require_connected(purpose: Purpose, connected: bool) -> (r: Result<(), &'static str>)
    ensures
        match r {
            Ok(_) => connected,
            Err(message) => !connected && message@ == unconnected_message(purpose),
        },
{
    if connected {
        return Ok(());
    }
    match purpose {
        Purpose::Status => Err("AirPods are not connected, so AAP status is unavailable."),
        Purpose::Battery => Err("AirPods must be connected before querying AAP battery."),
        Purpose::Keys => Err("AirPods must be connected before requesting AAP keys."),
        Purpose::Monitor => Err("AirPods must be connected before starting monitor."),
    }
}

/// The sink of a device, which has to be there.
pub fn require_sink(sink: Option<Sink>) -> (r: Result<Sink, &'static str>)
    ensures
        match r {
            Ok(found) => sink == Some(found),
            Err(message) => sink is None && message@
                == "No AirPods sink exists yet. Connect first."@,
        },
{
    match sink {
        Some(sink) => Ok(sink),
        None => Err("No AirPods sink exists yet. Connect first."),
    }
}

/// The battery report of a session, which has to be there.
pub fn require_battery(state: &SessionState) -> (r: Result<&BatteryStatus, &'static str>)
    ensures
        match r {
            Ok(battery) => state@.battery == Some(battery@),
            Err(message) => state@.battery is None && message@
                == "No battery packet received from the AirPods."@,
        },
{
    match &state.battery {
        Some(battery) => Ok(battery),
        None => Err("No battery packet received from the AirPods."),
    }
}

/// The keys of a session, which have to be there.
pub fn require_keys(state: &SessionState) -> (r: Result<&MagicKeys, &'static str>)
    ensures
        match r {
            Ok(keys) => state@.magic_keys == Some(keys@),
            Err(message) => state@.magic_keys is None && message@
                == "No Magic Cloud Keys packet received from the AirPods."@,
        },
{
    match &state.magic_keys {
        Some(keys) => Ok(keys),
        None => Err("No Magic Cloud Keys packet received from the AirPods."),
    }
}

/// A device that was to be disconnected has to be.
pub fn require_disconnected(disconnected: bool) -> (r: Result<(), &'static str>)
    ensures
        match r {
            Ok(_) => disconnected,
            Err(message) => !disconnected && message@ == "Failed to disconnect device"@,
        },
{
    if disconnected {
        Ok(())
    } else {
        Err("Failed to disconnect device")
    }
}

// ---------------------------------------------------------------------------
// What the status promises
// ---------------------------------------------------------------------------

/// The device is the default output if and only if it has a sink and the name of
/// that sink is the name of the default sink.
pub proof fn law_default_means_same_sink(
    device: DeviceModel,
    info: Map<Seq<char>, Seq<char>>,
    sink: Option<SinkModel>,
    card: Option<CardModel>,
    default_sink: Option<Seq<char>>,
)
    ensures
        ({
            let status = status_of(device, info, sink, card, default_sink);
            status.default_is_airpods == (status.sink is Some && status.sink
                == status.default_sink)
        }),
{
}

} // verus!
