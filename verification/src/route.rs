//! Making the sink of a connected device the default one.
//!
//! A [`RouteStep`] says what is to be done next; [`route_next`] takes what came of it.

use vstd::prelude::*;

use crate::command::{set_default_sink_command, CommandLine, CommandModel};

verus! {

/// What is to be done next, or how the flow ended.
#[derive(Debug, Clone, Copy, PartialEq, Eq, Structural)]
pub enum RouteStep {
    FindSink,
    SetDefault,
    MoveStreams,
    /// Show the name of the sink.
    Report,
    /// The device has no sink.
    NoSink,
}

/// What came of a step.
#[derive(Debug, Clone, Copy, PartialEq, Eq, Structural)]
pub enum RouteEvent {
    Done,
    /// Whether the device has a sink.
    Sink { found: bool },
}

/// The step after `step`.  An event that answers another question repeats the step.
pub open spec fn step_after(move_streams: bool, step: RouteStep, event: RouteEvent) -> RouteStep {
    match (step, event) {
        (RouteStep::FindSink, RouteEvent::Sink { found }) => if found {
            RouteStep::SetDefault
        } else {
            RouteStep::NoSink
        },
        (RouteStep::SetDefault, RouteEvent::Done) => if move_streams {
            RouteStep::MoveStreams
        } else {
            RouteStep::Report
        },
        (RouteStep::MoveStreams, RouteEvent::Done) => RouteStep::Report,
        _ => step,
    }
}

/// The first step.
pub fn route_start() -> (r: RouteStep)
    ensures
        r == RouteStep::FindSink,
{
    RouteStep::FindSink
}

pub fn route_next(move_streams: bool, step: RouteStep, event: RouteEvent) -> (r: RouteStep)
    ensures
        r == step_after(move_streams, step, event),
{
    match (step, event) {
        (RouteStep::FindSink, RouteEvent::Sink { found }) => if found {
            RouteStep::SetDefault
        } else {
            RouteStep::NoSink
        },
        (RouteStep::SetDefault, RouteEvent::Done) => if move_streams {
            RouteStep::MoveStreams
        } else {
            RouteStep::Report
        },
        (RouteStep::MoveStreams, RouteEvent::Done) => RouteStep::Report,
        _ => step,
    }
}

/// The command that takes a step, where one command takes it.
pub fn route_command(step: RouteStep, sink_name: &str) -> (r: Option<CommandLine>)
    ensures
        match r {
            Some(command) => step is SetDefault && command@ == (CommandModel {
                args: seq!["pactl"@, "set-default-sink"@, sink_name@],
                timeout_seconds: 10,
                check: true,
            }),
            None => !(step is SetDefault),
        },
{
    match step {
        RouteStep::SetDefault => Some(set_default_sink_command(sink_name)),
        _ => None,
    }
}

// ---------------------------------------------------------------------------
// What the flow promises
// ---------------------------------------------------------------------------

/// What comes of a step, when the device has a sink or not.
pub open spec fn reply(has_sink: bool, step: RouteStep) -> RouteEvent {
    match step {
        RouteStep::FindSink => RouteEvent::Sink { found: has_sink },
        _ => RouteEvent::Done,
    }
}

/// The steps that are taken from `step` on, at most `n` of them.
pub open spec fn steps_from(move_streams: bool, has_sink: bool, step: RouteStep, n: nat) -> Seq<
    RouteStep,
>
    decreases n,
{
    if n == 0 || step is Report || step is NoSink {
        seq![step]
    } else {
        seq![step] + steps_from(
            move_streams,
            has_sink,
            step_after(move_streams, step, reply(has_sink, step)),
            (n - 1) as nat,
        )
    }
}

/// The flow takes exactly these steps: without a sink nothing is changed, and with one it
/// becomes the default sink, the streams are moved after that if and only if that is
/// wanted, and its name is shown.
pub proof fn law_route_steps(move_streams: bool, has_sink: bool)
    ensures
        steps_from(move_streams, has_sink, RouteStep::FindSink, 3) == seq![RouteStep::FindSink]
            + if !has_sink {
            seq![RouteStep::NoSink]
        } else if move_streams {
            seq![RouteStep::SetDefault, RouteStep::MoveStreams, RouteStep::Report]
        } else {
            seq![RouteStep::SetDefault, RouteStep::Report]
        },
{
    reveal_with_fuel(steps_from, 4);
}

} // verus!
