//! Which device is chosen, in terms of the names and the answers of the system alone.

use vstd::prelude::*;

use crate::bluez::{mac_colon, DeviceModel};
use crate::discover::{
    airpods_like, connected_among, connected_known, device_known_as, name_matches, DiscoveryModel,
};
use crate::discover_laws::{connections, discovered, System};
use crate::lookup_laws::{law_airpods_words, lemma_same_place};
use crate::text::{lower, occurs_in};
use crate::text_laws::law_occurs;

verus! {

/// A device is known by its name, or else by its alias, or else by its address.
pub proof fn law_known_names(mac: Seq<char>, info: Map<Seq<char>, Seq<char>>)
    ensures
        device_known_as(mac, info).mac == mac,
        info.contains_key("Name"@) ==> device_known_as(mac, info).name == info["Name"@],
        !info.contains_key("Name"@) && info.contains_key("Alias"@) ==> device_known_as(
            mac,
            info,
        ).name == info["Alias"@],
        !info.contains_key("Name"@) && !info.contains_key("Alias"@) ==> device_known_as(
            mac,
            info,
        ).name == mac,
{
}

/// A requested address, or without any request the one in the environment, is taken in its
/// colon form, and the device is named by what is known under that form.
pub proof fn law_address_names_device(
    system: System,
    mac: Seq<char>,
    requested_name: Option<Seq<char>>,
)
    ensures
        ({
            let address = mac_colon(mac);
            let info = (system.info)(address);
            let name = if info.contains_key("Name"@) {
                info["Name"@]
            } else if info.contains_key("Alias"@) {
                info["Alias"@]
            } else {
                address
            };
            let chosen = DiscoveryModel::Chosen { device: DeviceModel { mac: address, name } };
            &&& discovered(system, Some(mac), requested_name) == chosen
            &&& system.environment_mac == Some(mac) ==> discovered(system, None, None) == chosen
        }),
{
}

/// The name of the device holds the text, whatever the case of the letters.
pub open spec fn is_named(text: Seq<char>) -> spec_fn(DeviceModel) -> bool {
    |device: DeviceModel|
        exists|a: Seq<char>, w: Seq<char>, b: Seq<char>|
            device.name == #[trigger] (a + w + b) && lower(w) == lower(text)
}

/// The name of the device holds `AirPods` or `Beats`, whatever the case of the letters.
pub open spec fn is_pods() -> spec_fn(DeviceModel) -> bool {
    |device: DeviceModel|
        exists|a: Seq<char>, w: Seq<char>, b: Seq<char>|
            device.name == #[trigger] (a + w + b) && (lower(w) == "airpods"@ || lower(w)
                == "beats"@)
}

/// The device is connected.
pub open spec fn is_linked(system: System) -> spec_fn(DeviceModel) -> bool {
    |device: DeviceModel| (system.connected)(device.mac)
}

proof fn lemma_named(text: Seq<char>)
    ensures
        name_matches(text) == is_named(text),
{
    assert forall|device: DeviceModel| #[trigger] name_matches(text)(device) == is_named(text)(
        device,
    ) by {
        let name = device.name;
        let word = lower(text);
        law_occurs(word, lower(name));
        if exists|a: Seq<char>, w: Seq<char>, b: Seq<char>|
            name == #[trigger] (a + w + b) && lower(w) == word {
            let (a, w, b) = choose|a: Seq<char>, w: Seq<char>, b: Seq<char>|
                name == #[trigger] (a + w + b) && lower(w) == word;
            assert(lower(name) =~= lower(a) + lower(w) + lower(b));
        }
        if occurs_in(word, lower(name)) {
            lemma_same_place(name, word);
        }
    }
    assert(name_matches(text) =~= is_named(text));
}

proof fn lemma_pods()
    ensures
        airpods_like() == is_pods(),
{
    assert forall|device: DeviceModel| #[trigger] airpods_like()(device) == is_pods()(device) by {
        law_airpods_words(device.name);
    }
    assert(airpods_like() =~= is_pods());
}

/// The devices with a name are those whose name holds it, and the devices like AirPods those
/// whose name holds one of the two words, each in their order.
pub proof fn law_devices_by_name(devices: Seq<DeviceModel>, text: Seq<char>)
    ensures
        devices.filter(name_matches(text)) == devices.filter(is_named(text)),
        devices.filter(airpods_like()) == devices.filter(is_pods()),
{
    lemma_named(text);
    lemma_pods();
}

proof fn lemma_linked(system: System, matches: Seq<DeviceModel>, n: int)
    requires
        0 <= n <= matches.len(),
    ensures
        connected_among(matches, connections(system, matches), n) == matches.take(n).filter(
            is_linked(system),
        ),
    decreases n,
{
    reveal(Seq::filter);
    if n > 0 {
        lemma_linked(system, matches, n - 1);
        assert(matches.take(n).drop_last() =~= matches.take(n - 1));
        assert(matches.take(n).last() == matches[n - 1]);
    } else {
        assert(matches.take(0) =~= Seq::<DeviceModel>::empty());
    }
}

/// With a requested name, nobody with that name is a failure, the only one is chosen, and
/// of several the only connected one is; otherwise it is a failure too.
pub proof fn law_choice_by_name(system: System, name: Seq<char>)
    ensures
        ({
            let hits = system.devices.filter(is_named(name));
            let linked = hits.filter(is_linked(system));
            let end = discovered(system, None, Some(name));
            &&& hits.len() == 0 ==> end == (DiscoveryModel::Failed {
                message: "No Bluetooth device matched name: "@ + name,
            })
            &&& hits.len() == 1 ==> end == (DiscoveryModel::Chosen { device: hits[0] })
            &&& hits.len() > 1 && linked.len() == 1 ==> end == (DiscoveryModel::Chosen {
                device: linked[0],
            })
            &&& hits.len() > 1 && linked.len() != 1 ==> end == (DiscoveryModel::Failed {
                message:
                    "Multiple devices matched the requested name. Use --mac to choose one explicitly."@,
            })
        }),
{
    lemma_named(name);
    let hits = system.devices.filter(is_named(name));
    lemma_linked(system, hits, hits.len() as int);
    assert(hits.take(hits.len() as int) =~= hits);
}

/// Without a request and without an address in the environment, nobody like AirPods is a
/// failure, the only one is chosen, and of several the only connected one is; otherwise it
/// is a failure too.
pub proof fn law_choice_of_pods(system: System)
    requires
        system.environment_mac is None,
    ensures
        ({
            let hits = system.devices.filter(is_pods());
            let linked = hits.filter(is_linked(system));
            let end = discovered(system, None, None);
            &&& hits.len() == 0 ==> end == (DiscoveryModel::Failed {
                message: "No AirPods-like devices found. Pair first or pass --mac / AIRPODS_MAC."@,
            })
            &&& hits.len() == 1 ==> end == (DiscoveryModel::Chosen { device: hits[0] })
            &&& hits.len() > 1 && linked.len() == 1 ==> end == (DiscoveryModel::Chosen {
                device: linked[0],
            })
            &&& hits.len() > 1 && linked.len() != 1 ==> end == (DiscoveryModel::Failed {
                message: "Multiple AirPods-like devices found. Use --mac to choose one explicitly."@,
            })
        }),
{
    lemma_pods();
    let hits = system.devices.filter(is_pods());
    lemma_linked(system, hits, hits.len() as int);
    assert(hits.take(hits.len() as int) =~= hits);
}

/// The answer for a device says that it is connected.
pub open spec fn answered(connected: Seq<bool>, i: int) -> bool {
    0 <= i < connected.len() && connected[i]
}

proof fn lemma_count(matches: Seq<DeviceModel>, connected: Seq<bool>, n: int, i: int)
    requires
        0 <= n <= matches.len(),
        forall|j: int| 0 <= j < n && j != i ==> !#[trigger] answered(connected, j),
    ensures
        0 <= i < n && answered(connected, i) ==> connected_among(matches, connected, n) == seq![
            matches[i],
        ],
        !(0 <= i < n && answered(connected, i)) ==> connected_among(matches, connected, n).len()
            == 0,
    decreases n,
{
    if n > 0 {
        lemma_count(matches, connected, n - 1, i);
        if n - 1 != i {
            assert(!answered(connected, n - 1));
        } else {
            assert(answered(connected, i) ==> connected[n - 1]);
        }
    }
}

proof fn lemma_at_least(matches: Seq<DeviceModel>, connected: Seq<bool>, n: int, i: int, j: int)
    requires
        0 <= i < n <= matches.len(),
        i <= j < n,
        answered(connected, i),
        answered(connected, j),
    ensures
        connected_among(matches, connected, n).len() >= 1,
        i < j ==> connected_among(matches, connected, n).len() >= 2,
    decreases n,
{
    if j < n - 1 {
        lemma_at_least(matches, connected, n - 1, i, j);
    } else if i < j {
        lemma_at_least(matches, connected, n - 1, i, i);
    }
}

/// Of several devices the one with the number `i` is chosen if it is connected and no other
/// one is known to be.
pub proof fn law_only_connected_is_chosen(
    matches: Seq<DeviceModel>,
    connected: Seq<bool>,
    by_name: bool,
    i: int,
)
    requires
        0 <= i < matches.len(),
        answered(connected, i),
        forall|j: int| 0 <= j < matches.len() && j != i ==> !#[trigger] answered(connected, j),
    ensures
        connected_known(matches, connected, by_name) == (DiscoveryModel::Chosen {
            device: matches[i],
        }),
{
    lemma_count(matches, connected, matches.len() as int, i);
}

/// Of several devices none is chosen if none is known to be connected, or if two are.
pub proof fn law_nobody_is_chosen(
    matches: Seq<DeviceModel>,
    connected: Seq<bool>,
    by_name: bool,
    i: int,
    j: int,
)
    requires
        (forall|k: int| 0 <= k < matches.len() ==> !#[trigger] answered(connected, k)) || (0 <= i
            < j < matches.len() && answered(connected, i) && answered(connected, j)),
    ensures
        connected_known(matches, connected, by_name) == (DiscoveryModel::Failed {
            message: if by_name {
                "Multiple devices matched the requested name. Use --mac to choose one explicitly."@
            } else {
                "Multiple AirPods-like devices found. Use --mac to choose one explicitly."@
            },
        }),
{
    if forall|k: int| 0 <= k < matches.len() ==> !#[trigger] answered(connected, k) {
        lemma_count(matches, connected, matches.len() as int, -1);
    } else {
        lemma_at_least(matches, connected, matches.len() as int, i, j);
    }
}

} // verus!
