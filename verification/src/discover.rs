//! Which device a command is about.
//!
//! Discovery alternates between questions to the system and decisions.  A
//! [`Discovery`] says what is to be asked next, or how it ended; one function per
//! question takes the answer.

use vstd::prelude::*;

use crate::bluez::{
    airpods_like_name, device_models, info_get, info_model, info_text, is_airpods_like, mac_colon,
    normalize_mac_colon, BluetoothInfo, Device, DeviceModel,
};
use crate::text::{concat2, contains_text, lower, occurs_in, optional_str, to_lower};

verus! {

/// What discovery does next, or how it ended.
#[derive(Debug, Clone, PartialEq, Eq)]
pub enum Discovery {
    /// Ask what is known of the device with this address, then [`device_of_info`].
    QueryInfo { mac: String },
    /// Ask for the known devices, then [`after_devices`].
    ListDevices,
    /// Ask for the address in the environment, then [`after_environment`].
    ReadEnvironment { devices: Vec<Device> },
    /// Ask which of the devices are connected, then [`after_connected`].
    QueryConnected { matches: Vec<Device>, by_name: bool },
    Chosen { device: Device },
    Failed { message: String },
}

/// What a step of discovery holds.
#[verifier::ext_equal]
pub enum DiscoveryModel {
    QueryInfo { mac: Seq<char> },
    ListDevices,
    ReadEnvironment { devices: Seq<DeviceModel> },
    QueryConnected { matches: Seq<DeviceModel>, by_name: bool },
    Chosen { device: DeviceModel },
    Failed { message: Seq<char> },
}

impl View for Discovery {
    type V = DiscoveryModel;

    open spec fn view(&self) -> DiscoveryModel {
        match self {
            Discovery::QueryInfo { mac } => DiscoveryModel::QueryInfo { mac: mac@ },
            Discovery::ListDevices => DiscoveryModel::ListDevices,
            Discovery::ReadEnvironment { devices } => DiscoveryModel::ReadEnvironment {
                devices: device_models(devices@),
            },
            Discovery::QueryConnected { matches, by_name } => DiscoveryModel::QueryConnected {
                matches: device_models(matches@),
                by_name: *by_name,
            },
            Discovery::Chosen { device } => DiscoveryModel::Chosen { device: device@ },
            Discovery::Failed { message } => DiscoveryModel::Failed { message: message@ },
        }
    }
}

/// A requested address goes before everything else.
pub open spec fn started(requested_mac: Option<Seq<char>>) -> DiscoveryModel {
    match requested_mac {
        Some(mac) => DiscoveryModel::QueryInfo { mac: mac_colon(mac) },
        None => DiscoveryModel::ListDevices,
    }
}

pub fn start(requested_mac: Option<&str>) -> (r: Discovery)
    ensures
        r@ == started(optional_str(requested_mac)),
{
    match requested_mac {
        Some(mac) => Discovery::QueryInfo { mac: normalize_mac_colon(mac) },
        None => Discovery::ListDevices,
    }
}

/// The device with a known address: its name, or else its alias, or else its address.
pub open spec fn device_known_as(mac: Seq<char>, info: Map<Seq<char>, Seq<char>>) -> DeviceModel {
    DeviceModel {
        mac,
        name: match info_text(info, "Name"@) {
            Some(name) => name,
            None => match info_text(info, "Alias"@) {
                Some(alias) => alias,
                None => mac,
            },
        },
    }
}

pub fn device_of_info(mac: String, info: &BluetoothInfo) -> (r: Device)
    ensures
        r@ == device_known_as(mac@, info_model(info@)),
{
    let name: String = match info_get(info, "Name") {
        Some(name) => name,
        None => match info_get(info, "Alias") {
            Some(alias) => alias,
            None => mac.clone(),
        },
    };
    Device { mac, name }
}

/// The devices whose name holds the requested one, whatever the case of the letters.
pub open spec fn name_matches(requested_name: Seq<char>) -> spec_fn(DeviceModel) -> bool {
    |device: DeviceModel| occurs_in(lower(requested_name), lower(device.name))
}

/// The devices that are like AirPods by their name.
pub open spec fn airpods_like() -> spec_fn(DeviceModel) -> bool {
    |device: DeviceModel| is_airpods_like(device.name)
}

pub open spec fn no_match_message(requested_name: Seq<char>) -> Seq<char> {
    "No Bluetooth device matched name: "@ + requested_name
}

pub open spec fn no_candidate_message() -> Seq<char> {
    "No AirPods-like devices found. Pair first or pass --mac / AIRPODS_MAC."@
}

pub open spec fn ambiguous_message(by_name: bool) -> Seq<char> {
    if by_name {
        "Multiple devices matched the requested name. Use --mac to choose one explicitly."@
    } else {
        "Multiple AirPods-like devices found. Use --mac to choose one explicitly."@
    }
}

/// One device is chosen, none is a failure, and of several the connected one counts.
pub open spec fn narrowed(
    matches: Seq<DeviceModel>,
    by_name: bool,
    none_message: Seq<char>,
) -> DiscoveryModel {
    if matches.len() == 0 {
        DiscoveryModel::Failed { message: none_message }
    } else if matches.len() == 1 {
        DiscoveryModel::Chosen { device: matches[0] }
    } else {
        DiscoveryModel::QueryConnected { matches, by_name }
    }
}

/// What follows from the known devices.
pub open spec fn devices_listed(
    devices: Seq<DeviceModel>,
    requested_name: Option<Seq<char>>,
) -> DiscoveryModel {
    match requested_name {
        Some(name) => narrowed(devices.filter(name_matches(name)), true, no_match_message(name)),
        None => DiscoveryModel::ReadEnvironment { devices },
    }
}

fn narrow(matches: Vec<Device>, by_name: bool, none_message: String) -> (r: Discovery)
    ensures
        r@ == narrowed(device_models(matches@), by_name, none_message@),
{
    assert(device_models(matches@).len() == matches@.len());
    if matches.len() == 0 {
        Discovery::Failed { message: none_message }
    } else if matches.len() == 1 {
        assert(device_models(matches@)[0] == matches@[0]@);
        Discovery::Chosen { device: matches[0].copied() }
    } else {
        Discovery::QueryConnected { matches, by_name }
    }
}

fn filter_by_name(devices: &Vec<Device>, requested_name: &str) -> (r: Vec<Device>)
    ensures
        device_models(r@) == device_models(devices@).filter(name_matches(requested_name@)),
{
    let lowered = to_lower(requested_name);
    let ghost models = device_models(devices@);
    let ghost pred = name_matches(requested_name@);
    let mut r: Vec<Device> = Vec::new();
    let mut i: usize = 0;
    proof {
        reveal(Seq::filter);
        assert(device_models(r@) == models.take(0).filter(pred));
    }
    while i < devices.len()
        invariant
            i <= devices@.len(),
            models == device_models(devices@),
            pred == name_matches(requested_name@),
            lowered@ == lower(requested_name@),
            device_models(r@) == models.take(i as int).filter(pred),
        decreases devices@.len() - i,
    {
        let ghost before = r@;
        proof {
            reveal(Seq::filter);
            assert(models.take(i + 1).drop_last() == models.take(i as int));
            assert(models.take(i + 1).last() == devices@[i as int]@);
        }
        if contains_text(to_lower(devices[i].name.as_str()).as_str(), lowered.as_str()) {
            r.push(devices[i].copied());
            assert(device_models(r@) == device_models(before).push(devices@[i as int]@));
        }
        i += 1;
    }
    assert(models.take(models.len() as int) == models);
    r
}

/// The devices that are like AirPods by their name, in their order.
pub fn airpods_like_devices(devices: &Vec<Device>) -> (r: Vec<Device>)
    ensures
        device_models(r@) == device_models(devices@).filter(airpods_like()),
{
    let ghost models = device_models(devices@);
    let ghost pred = airpods_like();
    let mut r: Vec<Device> = Vec::new();
    let mut i: usize = 0;
    proof {
        reveal(Seq::filter);
        assert(device_models(r@) == models.take(0).filter(pred));
    }
    while i < devices.len()
        invariant
            i <= devices@.len(),
            models == device_models(devices@),
            pred == airpods_like(),
            device_models(r@) == models.take(i as int).filter(pred),
        decreases devices@.len() - i,
    {
        let ghost before = r@;
        proof {
            reveal(Seq::filter);
            assert(models.take(i + 1).drop_last() == models.take(i as int));
            assert(models.take(i + 1).last() == devices@[i as int]@);
        }
        if airpods_like_name(devices[i].name.as_str()) {
            r.push(devices[i].copied());
            assert(device_models(r@) == device_models(before).push(devices@[i as int]@));
        }
        i += 1;
    }
    assert(models.take(models.len() as int) == models);
    r
}

pub fn after_devices(devices: Vec<Device>, requested_name: Option<&str>) -> (r: Discovery)
    ensures
        r@ == devices_listed(device_models(devices@), optional_str(requested_name)),
{
    match requested_name {
        Some(name) => narrow(
            filter_by_name(&devices, name),
            true,
            concat2("No Bluetooth device matched name: ", name),
        ),
        None => Discovery::ReadEnvironment { devices },
    }
}

/// What follows from the address in the environment.
pub open spec fn environment_read(
    devices: Seq<DeviceModel>,
    environment_mac: Option<Seq<char>>,
) -> DiscoveryModel {
    match environment_mac {
        Some(mac) => DiscoveryModel::QueryInfo { mac: mac_colon(mac) },
        None => narrowed(devices.filter(airpods_like()), false, no_candidate_message()),
    }
}

pub fn after_environment(devices: &Vec<Device>, environment_mac: Option<&str>) -> (r: Discovery)
    ensures
        r@ == environment_read(device_models(devices@), optional_str(environment_mac)),
{
    match environment_mac {
        Some(mac) => Discovery::QueryInfo { mac: normalize_mac_colon(mac) },
        None => narrow(
            airpods_like_devices(devices),
            false,
            "No AirPods-like devices found. Pair first or pass --mac / AIRPODS_MAC.".to_owned(),
        ),
    }
}

/// The connected ones among the first `n` devices; where no answer is given, a
/// device is not connected.
pub open spec fn connected_among(matches: Seq<DeviceModel>, connected: Seq<bool>, n: int) -> Seq<
    DeviceModel,
>
    decreases n,
{
    if n <= 0 {
        Seq::empty()
    } else if n <= connected.len() && connected[n - 1] {
        connected_among(matches, connected, n - 1).push(matches[n - 1])
    } else {
        connected_among(matches, connected, n - 1)
    }
}

/// What follows from which of the devices are connected: the only connected one
/// is chosen.
pub open spec fn connected_known(
    matches: Seq<DeviceModel>,
    connected: Seq<bool>,
    by_name: bool,
) -> DiscoveryModel {
    let linked = connected_among(matches, connected, matches.len() as int);
    if linked.len() == 1 {
        DiscoveryModel::Chosen { device: linked[0] }
    } else {
        DiscoveryModel::Failed { message: ambiguous_message(by_name) }
    }
}

pub fn after_connected(
    matches: &Vec<Device>,
    connected: &Vec<bool>,
    by_name: bool,
) -> (r: Discovery)
    ensures
        r@ == connected_known(device_models(matches@), connected@, by_name),
{
    let ghost models = device_models(matches@);
    let mut linked: Vec<Device> = Vec::new();
    let mut i: usize = 0;
    assert(device_models(linked@) == connected_among(models, connected@, 0));
    while i < matches.len()
        invariant
            i <= matches@.len(),
            models == device_models(matches@),
            device_models(linked@) == connected_among(models, connected@, i as int),
        decreases matches@.len() - i,
    {
        let ghost before = linked@;
        assert(models[i as int] == matches@[i as int]@);
        if i < connected.len() && connected[i] {
            linked.push(matches[i].copied());
            assert(device_models(linked@) == device_models(before).push(matches@[i as int]@));
        }
        i += 1;
    }
    assert(device_models(linked@).len() == linked@.len());
    if linked.len() == 1 {
        assert(device_models(linked@)[0] == linked@[0]@);
        Discovery::Chosen { device: linked[0].copied() }
    } else if by_name {
        Discovery::Failed {
            message: "Multiple devices matched the requested name. Use --mac to choose one explicitly.".to_owned(),
        }
    } else {
        Discovery::Failed {
            message: "Multiple AirPods-like devices found. Use --mac to choose one explicitly.".to_owned(),
        }
    }
}

} // verus!
