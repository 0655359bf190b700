//! The logic of a small AirPods command line tool for Linux.
//!
//! Running commands, talking to the control channel and writing files is left to the
//! program around this library.  What is here reads what the tools of the system
//! print ([`bluez`], [`pulse`], [`property`]) and what the device says ([`aap`]),
//! decides what is to be done next ([`discover`], [`connect`], [`link`], [`unlink`],
//! [`route`], [`sink_wait`], [`wake`], [`inquiry`], [`opening`], [`session`], [`monitor`]),
//! and says what is shown ([`status`], [`report`], [`record`]).  The modules whose names end
//! in `laws`, and the functions whose names start with `law`, state what holds of all that.

use vstd::prelude::*;

pub mod aap;
pub mod aap_laws;
pub mod adapters;
pub mod bluez;
pub mod cache;
pub mod choice_laws;
pub mod command;
pub mod command_laws;
pub mod connect;
pub mod course_laws;
pub mod description_laws;
pub mod discover;
pub mod discover_laws;
pub mod flow_laws;
pub mod inquiry;
pub mod link;
pub mod listing_laws;
pub mod lookup_laws;
pub mod monitor;
pub mod name_laws;
pub mod opening;
pub mod output_laws;
pub mod packet_laws;
pub mod property;
pub mod pulse;
pub mod record;
pub mod report;
pub mod route;
pub mod session;
pub mod session_laws;
pub mod sink_wait;
pub mod socket;
pub mod status;
pub mod text;
pub mod text_laws;
pub mod timing;
pub mod unlink;
pub mod wake;
pub mod wav;

pub use crate::bluez::{
    airpods_like_name, normalize_mac_colon, normalize_mac_underscore, parse_bluetooth_devices,
    parse_bluetooth_info, Device,
};
pub use crate::pulse::{parse_short_cards, parse_short_sinks, Card, Sink};

verus! {

} // verus!
