//! Where the record of a device is kept.

use vstd::prelude::*;

use crate::bluez::{mac_underscore, normalize_mac_underscore};
use crate::text::{concat2, concat3};

verus! {

/// The variable that a directory starts from.
#[derive(Debug, Clone, Copy, PartialEq, Eq, Structural)]
pub enum StateBase {
    XdgStateHome,
    Home,
}

/// Picks where the state directory starts from, out of the variables that are set.
pub fn state_base(xdg_state_home: bool, home: bool) -> (r: Result<StateBase, &'static str>)
    ensures
        match r {
            Ok(StateBase::XdgStateHome) => xdg_state_home,
            Ok(StateBase::Home) => !xdg_state_home && home,
            Err(message) => !xdg_state_home && !home && message@ == "HOME is not set"@,
        },
{
    if xdg_state_home {
        Ok(StateBase::XdgStateHome)
    } else if home {
        Ok(StateBase::Home)
    } else {
        Err("HOME is not set")
    }
}

/// The variable's name.
pub fn base_variable(base: StateBase) -> (r: &'static str)
    ensures
        r@ == match base {
            StateBase::XdgStateHome => "XDG_STATE_HOME"@,
            StateBase::Home => "HOME"@,
        },
{
    match base {
        StateBase::XdgStateHome => "XDG_STATE_HOME",
        StateBase::Home => "HOME",
    }
}

/// The directories that lead from the variable's value to the state directory.
pub open spec fn state_path(base: StateBase) -> Seq<Seq<char>> {
    match base {
        StateBase::XdgStateHome => seq!["linux-airpods-cli"@],
        StateBase::Home => seq![".local"@, "state"@, "linux-airpods-cli"@],
    }
}

pub fn state_dir(base: StateBase) -> (r: Vec<&'static str>)
    ensures
        r@.map_values(|part: &'static str| part@) == state_path(base),
{
    let mut r: Vec<&'static str> = Vec::new();
    match base {
        StateBase::XdgStateHome => {},
        StateBase::Home => {
            r.push(".local");
            r.push("state");
        },
    }
    r.push("linux-airpods-cli");
    assert(r@.map_values(|part: &'static str| part@) =~= state_path(base));
    r
}

/// The name of the file with the record of a device.
pub open spec fn cache_name(mac: Seq<char>) -> Seq<char> {
    "linux-airpods-cli-"@ + mac_underscore(mac) + ".json"@
}

pub fn default_cache_file(mac: &str) -> (r: String)
    ensures
        r@ == cache_name(mac@),
{
    let mac = normalize_mac_underscore(mac);
    concat3("linux-airpods-cli-", mac.as_str(), ".json")
}

/// The extension of the file that a record is written to before it takes its place.
pub fn temporary_extension(extension: Option<&str>) -> (r: String)
    ensures
        r@ == match extension {
            Some(extension) => extension@ + ".tmp"@,
            None => "tmp"@,
        },
{
    match extension {
        Some(extension) => concat2(extension, ".tmp"),
        None => "tmp".to_owned(),
    }
}

} // verus!
