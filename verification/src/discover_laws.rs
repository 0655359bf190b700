//! What discovery promises, whatever the system answers.

use vstd::prelude::*;

use crate::bluez::{mac_colon, DeviceModel};
use crate::discover::{
    airpods_like, ambiguous_message, connected_among, connected_known, device_known_as,
    devices_listed, environment_read, name_matches, no_candidate_message, no_match_message, started,
    DiscoveryModel,
};

verus! {

/// The answers of the system to the questions of discovery.
pub struct System {
    /// What is known of the device with an address.
    pub info: spec_fn(Seq<char>) -> Map<Seq<char>, Seq<char>>,
    /// The known devices.
    pub devices: Seq<DeviceModel>,
    /// The address in the environment.
    pub environment_mac: Option<Seq<char>>,
    /// Whether the device with an address is connected.
    pub connected: spec_fn(Seq<char>) -> bool,
}

/// Which of the devices are connected.
pub open spec fn connections(system: System, matches: Seq<DeviceModel>) -> Seq<bool> {
    Seq::new(matches.len(), |i: int| (system.connected)(matches[i].mac))
}

/// How discovery ends, when the system answers every question that it asks.
pub open spec fn discovered(
    system: System,
    requested_mac: Option<Seq<char>>,
    requested_name: Option<Seq<char>>,
) -> DiscoveryModel {
    let first = started(requested_mac);
    let second = if first is ListDevices {
        devices_listed(system.devices, requested_name)
    } else {
        first
    };
    let third = match second {
        DiscoveryModel::ReadEnvironment { devices } => environment_read(
            devices,
            system.environment_mac,
        ),
        _ => second,
    };
    match third {
        DiscoveryModel::QueryInfo { mac } => DiscoveryModel::Chosen {
            device: device_known_as(mac, (system.info)(mac)),
        },
        DiscoveryModel::QueryConnected { matches, by_name } => connected_known(
            matches,
            connections(system, matches),
            by_name,
        ),
        _ => third,
    }
}

/// A requested address always names the device, whatever else is asked for or known.
pub proof fn law_requested_address_wins(
    system: System,
    requested_mac: Seq<char>,
    requested_name: Option<Seq<char>>,
)
    ensures
        discovered(system, Some(requested_mac), requested_name) == (DiscoveryModel::Chosen {
            device: device_known_as(
                mac_colon(requested_mac),
                (system.info)(mac_colon(requested_mac)),
            ),
        }),
{
}

/// Without a request, the address in the environment names the device.
pub proof fn law_environment_is_the_default(system: System, environment_mac: Seq<char>)
    requires
        system.environment_mac == Some(environment_mac),
    ensures
        discovered(system, None, None) == discovered(system, Some(environment_mac), None),
{
}

/// Discovery ends with a device or with a message, never with an open question.
pub proof fn law_discovery_ends(
    system: System,
    requested_mac: Option<Seq<char>>,
    requested_name: Option<Seq<char>>,
)
    ensures
        discovered(system, requested_mac, requested_name) is Chosen || discovered(
            system,
            requested_mac,
            requested_name,
        ) is Failed,
{
}

/// The device with the number `i` is the only connected one.
pub open spec fn only_connected(system: System, matches: Seq<DeviceModel>, i: int) -> bool {
    &&& 0 <= i < matches.len()
    &&& forall|j: int|
        0 <= j < matches.len() ==> ((system.connected)((#[trigger] matches[j]).mac) <==> j == i)
}

/// `device` is the only one of `matches`, or the only connected one of several.
pub open spec fn singled_out(
    system: System,
    matches: Seq<DeviceModel>,
    device: DeviceModel,
) -> bool {
    ||| matches == seq![device]
    ||| matches.len() > 1 && exists|i: int|
        #[trigger] only_connected(system, matches, i) && matches[i] == device
}

/// Nobody among several is connected, or more than one is.
pub open spec fn undecided(system: System, matches: Seq<DeviceModel>) -> bool {
    matches.len() > 1 && forall|i: int| !#[trigger] only_connected(system, matches, i)
}

proof fn lemma_none_connected(matches: Seq<DeviceModel>, connected: Seq<bool>, n: int)
    requires
        0 <= n <= matches.len(),
        matches.len() == connected.len(),
    ensures
        connected_among(matches, connected, n).len() == 0 <==> forall|j: int|
            0 <= j < n ==> !#[trigger] connected[j],
    decreases n,
{
    if n > 0 {
        lemma_none_connected(matches, connected, n - 1);
    }
}

proof fn lemma_one_connected(matches: Seq<DeviceModel>, connected: Seq<bool>, n: int) -> (i: int)
    requires
        0 <= n <= matches.len(),
        matches.len() == connected.len(),
        connected_among(matches, connected, n).len() == 1,
    ensures
        0 <= i < n,
        connected_among(matches, connected, n)[0] == matches[i],
        forall|j: int| 0 <= j < n ==> (#[trigger] connected[j] <==> j == i),
    decreases n,
{
    if connected[n - 1] {
        lemma_none_connected(matches, connected, n - 1);
        n - 1
    } else {
        lemma_one_connected(matches, connected, n - 1)
    }
}

proof fn lemma_exactly_one(matches: Seq<DeviceModel>, connected: Seq<bool>, n: int, i: int)
    requires
        0 <= i < n <= matches.len(),
        matches.len() == connected.len(),
        forall|j: int| 0 <= j < n ==> (#[trigger] connected[j] <==> j == i),
    ensures
        connected_among(matches, connected, n).len() == 1,
    decreases n,
{
    lemma_none_connected(matches, connected, n - 1);
    if i < n - 1 {
        assert(!connected[n - 1]);
        lemma_exactly_one(matches, connected, n - 1, i);
    } else {
        assert forall|j: int| 0 <= j < n - 1 implies !#[trigger] connected[j] by {}
    }
}

/// The decision among several devices is for the only connected one, if there is one.
proof fn lemma_decision(system: System, matches: Seq<DeviceModel>, by_name: bool)
    requires
        matches.len() > 1,
    ensures
        match connected_known(matches, connections(system, matches), by_name) {
            DiscoveryModel::Chosen { device } => singled_out(system, matches, device),
            DiscoveryModel::Failed { message } => undecided(system, matches) && message
                == ambiguous_message(by_name),
            _ => false,
        },
{
    let connected = connections(system, matches);
    let n = matches.len() as int;
    if connected_among(matches, connected, n).len() == 1 {
        let i = lemma_one_connected(matches, connected, n);
        assert forall|j: int| 0 <= j < matches.len() implies ((system.connected)(
            (#[trigger] matches[j]).mac,
        ) <==> j == i) by {
            assert(connected[j] == (system.connected)(matches[j].mac));
        }
        assert(only_connected(system, matches, i));
    } else {
        assert forall|i: int| !#[trigger] only_connected(system, matches, i) by {
            if only_connected(system, matches, i) {
                assert forall|j: int| 0 <= j < n implies (#[trigger] connected[j] <==> j == i) by {
                    assert(connected[j] == (system.connected)(matches[j].mac));
                }
                lemma_exactly_one(matches, connected, n, i);
            }
        }
    }
}

/// How discovery ends among the devices that come into question.
pub open spec fn ends_among(
    system: System,
    matches: Seq<DeviceModel>,
    by_name: bool,
    none_message: Seq<char>,
    end: DiscoveryModel,
) -> bool {
    match end {
        DiscoveryModel::Chosen { device } => singled_out(system, matches, device),
        DiscoveryModel::Failed { message } => {
            ||| matches.len() == 0 && message == none_message
            ||| undecided(system, matches) && message == ambiguous_message(by_name)
        },
        _ => false,
    }
}

/// With a requested name, the device is the only one whose name holds it, or the
/// only connected one of those.  Otherwise discovery fails and says which of the
/// two it was.
pub proof fn law_requested_name(system: System, requested_name: Seq<char>)
    ensures
        ends_among(
            system,
            system.devices.filter(name_matches(requested_name)),
            true,
            no_match_message(requested_name),
            discovered(system, None, Some(requested_name)),
        ),
{
    let matches = system.devices.filter(name_matches(requested_name));
    if matches.len() > 1 {
        lemma_decision(system, matches, true);
    } else if matches.len() == 1 {
        assert(matches == seq![matches[0]]);
    }
}

/// Without any request, the device is the only one that is like AirPods by its
/// name, or the only connected one of those.  Otherwise discovery fails and says
/// which of the two it was.
pub proof fn law_automatic_choice(system: System)
    requires
        system.environment_mac is None,
    ensures
        ends_among(
            system,
            system.devices.filter(airpods_like()),
            false,
            no_candidate_message(),
            discovered(system, None, None),
        ),
{
    let matches = system.devices.filter(airpods_like());
    if matches.len() > 1 {
        lemma_decision(system, matches, false);
    } else if matches.len() == 1 {
        assert(matches == seq![matches[0]]);
    }
}

} // verus!
