//! What is written down of a device.
//!
//! A record of a watched device is written together with the time, which the writer adds.

use vstd::prelude::*;

use crate::aap::{
    optional_battery, optional_keys, optional_metadata, BatteryModel, BatteryStatus, MagicKeys,
    MagicKeysModel, Metadata, MetadataModel, SessionModel, SessionState,
};
use crate::bluez::{Device, DeviceModel};
use crate::text::texts;

verus! {

/// The record of a device that is not connected.
#[derive(Debug, Clone, PartialEq, Eq)]
pub struct AbsentRecord<'a> {
    pub name: &'a str,
    pub mac: &'a str,
    pub connected: bool,
}

pub fn absent_record<'a>(device: &'a Device) -> (r: AbsentRecord<'a>)
    ensures
        r.name@ == device@.name,
        r.mac@ == device@.mac,
        !r.connected,
{
    AbsentRecord { name: device.name.as_str(), mac: device.mac.as_str(), connected: false }
}

/// The record of a session that ended with an error.
#[derive(Debug, Clone, PartialEq, Eq)]
pub struct ErrorRecord<'a> {
    pub name: &'a str,
    pub mac: &'a str,
    pub connected: bool,
    pub error: &'a str,
}

pub fn error_record<'a>(device: &'a Device, connected: bool, error: &'a str) -> (r: ErrorRecord<
    'a,
>)
    ensures
        r.name@ == device@.name,
        r.mac@ == device@.mac,
        r.connected == connected,
        r.error@ == error@,
{
    ErrorRecord { name: device.name.as_str(), mac: device.mac.as_str(), connected, error }
}

/// What a device has told, under its name and its address.
#[derive(Debug, Clone, PartialEq, Eq)]
pub struct BatteryPayload<'a> {
    pub name: &'a str,
    pub mac: &'a str,
    pub battery: &'a Option<BatteryStatus>,
    pub metadata: &'a Option<Metadata>,
    pub magic_keys: &'a Option<MagicKeys>,
    pub noise_control_mode: Option<u8>,
    pub conversational_awareness_enabled: Option<bool>,
    pub raw_packets: &'a Vec<String>,
}

/// What such a payload holds.
#[verifier::ext_equal]
pub struct BatteryPayloadModel {
    pub name: Seq<char>,
    pub mac: Seq<char>,
    pub battery: Option<BatteryModel>,
    pub metadata: Option<MetadataModel>,
    pub magic_keys: Option<MagicKeysModel>,
    pub noise_control_mode: Option<u8>,
    pub conversational_awareness_enabled: Option<bool>,
    pub raw_packets: Seq<Seq<char>>,
}

impl<'a> View for BatteryPayload<'a> {
    type V = BatteryPayloadModel;

    open spec fn view(&self) -> BatteryPayloadModel {
        BatteryPayloadModel {
            name: self.name@,
            mac: self.mac@,
            battery: optional_battery(*self.battery),
            metadata: optional_metadata(*self.metadata),
            magic_keys: optional_keys(*self.magic_keys),
            noise_control_mode: self.noise_control_mode,
            conversational_awareness_enabled: self.conversational_awareness_enabled,
            raw_packets: texts(self.raw_packets@),
        }
    }
}

/// All that a session has learned of a device.
pub open spec fn told(device: DeviceModel, state: SessionModel) -> BatteryPayloadModel {
    BatteryPayloadModel {
        name: device.name,
        mac: device.mac,
        battery: state.battery,
        metadata: state.metadata,
        magic_keys: state.magic_keys,
        noise_control_mode: state.noise_control_mode,
        conversational_awareness_enabled: state.conversational_awareness_enabled,
        raw_packets: state.raw_packets,
    }
}

pub fn battery_payload<'a>(device: &'a Device, state: &'a SessionState) -> (r: BatteryPayload<
    'a,
>)
    ensures
        r@ == told(device@, state@),
{
    BatteryPayload {
        name: device.name.as_str(),
        mac: device.mac.as_str(),
        battery: &state.battery,
        metadata: &state.metadata,
        magic_keys: &state.magic_keys,
        noise_control_mode: state.noise_control_mode,
        conversational_awareness_enabled: state.conversational_awareness_enabled,
        raw_packets: &state.raw_packets,
    }
}

/// The record of a connected device: what it has told.
#[derive(Debug, Clone, PartialEq, Eq)]
pub struct UpdateRecord<'a> {
    pub connected: bool,
    pub told: BatteryPayload<'a>,
}

pub fn update_record<'a>(device: &'a Device, state: &'a SessionState) -> (r: UpdateRecord<'a>)
    ensures
        r.connected,
        r.told@ == told(device@, state@),
{
    UpdateRecord { connected: true, told: battery_payload(device, state) }
}

/// The keys of a device, and the packets of the session if they are wanted.
#[derive(Debug, Clone, PartialEq, Eq)]
pub struct KeysPayload<'a> {
    pub name: &'a str,
    pub mac: &'a str,
    pub irk: &'a str,
    pub enc_key: &'a str,
    pub raw_packets: Option<&'a Vec<String>>,
}

/// What such a payload holds.
#[verifier::ext_equal]
pub struct KeysPayloadModel {
    pub name: Seq<char>,
    pub mac: Seq<char>,
    pub irk: Seq<char>,
    pub enc_key: Seq<char>,
    pub raw_packets: Option<Seq<Seq<char>>>,
}

impl<'a> View for KeysPayload<'a> {
    type V = KeysPayloadModel;

    open spec fn view(&self) -> KeysPayloadModel {
        KeysPayloadModel {
            name: self.name@,
            mac: self.mac@,
            irk: self.irk@,
            enc_key: self.enc_key@,
            raw_packets: match self.raw_packets {
                Some(packets) => Some(texts(packets@)),
                None => None,
            },
        }
    }
}

pub fn keys_payload<'a>(
    device: &'a Device,
    keys: &'a MagicKeys,
    raw_packets: &'a Vec<String>,
    with_packets: bool,
) -> (r: KeysPayload<'a>)
    ensures
        r@ == (KeysPayloadModel {
            name: device@.name,
            mac: device@.mac,
            irk: keys@.irk,
            enc_key: keys@.enc_key,
            raw_packets: if with_packets {
                Some(texts(raw_packets@))
            } else {
                None
            },
        }),
{
    KeysPayload {
        name: device.name.as_str(),
        mac: device.mac.as_str(),
        irk: keys.irk.as_str(),
        enc_key: keys.enc_key.as_str(),
        raw_packets: if with_packets {
            Some(raw_packets)
        } else {
            None
        },
    }
}

} // verus!
