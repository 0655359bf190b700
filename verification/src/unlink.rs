//! Disconnecting a device and taking the sound away from it.
//!
//! An [`UnlinkStep`] says what is to be done next; [`unlink_next`] takes what came of
//! it.

use vstd::prelude::*;

use crate::link::{is_default_sink, optional_sink_ref, sink_is_default};
use crate::pulse::{fallback_sink, is_fallback, Sink, SinkModel};
use crate::text::optional_str;

verus! {

/// What is done besides disconnecting.
#[derive(Debug, Clone, Copy, PartialEq, Eq, Structural)]
pub struct UnlinkPlan {
    /// Make another sink the default one, if the device had it.
    pub fallback: bool,
    /// Move the running streams to that sink.
    pub move_streams: bool,
}

/// What is to be done next, or how the flow ended.
#[derive(Debug, Clone, Copy, PartialEq, Eq, Structural)]
pub enum UnlinkStep {
    /// See whether the sink of the device is the default one.
    AskDefault,
    /// Disconnect the device, the sink of which was the default one or not.
    Disconnect { was_default: bool },
    FindFallback,
    SetDefault,
    MoveStreams,
    Report,
    Failed,
}

/// What came of a step.
#[derive(Debug, Clone, Copy, PartialEq, Eq, Structural)]
pub enum UnlinkEvent {
    Done,
    /// Whether the sink of the device is the default one.
    Default { is_device: bool },
    /// Whether the device is disconnected now.
    Disconnected { succeeded: bool },
    /// Whether there is a sink to fall back to.
    Fallback { found: bool },
}

/// The step after `step`.  An event that answers another question repeats the step.
pub open spec fn step_after(plan: UnlinkPlan, step: UnlinkStep, event: UnlinkEvent) -> UnlinkStep {
    match (step, event) {
        (UnlinkStep::AskDefault, UnlinkEvent::Default { is_device }) => UnlinkStep::Disconnect {
            was_default: is_device,
        },
        (UnlinkStep::Disconnect { was_default }, UnlinkEvent::Disconnected { succeeded }) =>
            if !succeeded {
                UnlinkStep::Failed
            } else if was_default && plan.fallback {
                UnlinkStep::FindFallback
            } else {
                UnlinkStep::Report
            },
        (UnlinkStep::FindFallback, UnlinkEvent::Fallback { found }) => if found {
            UnlinkStep::SetDefault
        } else {
            UnlinkStep::Report
        },
        (UnlinkStep::SetDefault, UnlinkEvent::Done) => if plan.move_streams {
            UnlinkStep::MoveStreams
        } else {
            UnlinkStep::Report
        },
        (UnlinkStep::MoveStreams, UnlinkEvent::Done) => UnlinkStep::Report,
        _ => step,
    }
}

/// The first step.
pub fn unlink_start() -> (r: UnlinkStep)
    ensures
        r == UnlinkStep::AskDefault,
{
    UnlinkStep::AskDefault
}

pub fn unlink_next(plan: UnlinkPlan, step: UnlinkStep, event: UnlinkEvent) -> (r: UnlinkStep)
    ensures
        r == step_after(plan, step, event),
{
    match (step, event) {
        (UnlinkStep::AskDefault, UnlinkEvent::Default { is_device }) => UnlinkStep::Disconnect {
            was_default: is_device,
        },
        (UnlinkStep::Disconnect { was_default }, UnlinkEvent::Disconnected { succeeded }) =>
            if !succeeded {
                UnlinkStep::Failed
            } else if was_default && plan.fallback {
                UnlinkStep::FindFallback
            } else {
                UnlinkStep::Report
            },
        (UnlinkStep::FindFallback, UnlinkEvent::Fallback { found }) => if found {
            UnlinkStep::SetDefault
        } else {
            UnlinkStep::Report
        },
        (UnlinkStep::SetDefault, UnlinkEvent::Done) => if plan.move_streams {
            UnlinkStep::MoveStreams
        } else {
            UnlinkStep::Report
        },
        (UnlinkStep::MoveStreams, UnlinkEvent::Done) => UnlinkStep::Report,
        _ => step,
    }
}

/// Answers the first question: the sink of the device, if it has one, against the
/// default sink.
pub fn default_event(sink: Option<&Sink>, default_sink: Option<&str>) -> (r: UnlinkEvent)
    ensures
        r == (UnlinkEvent::Default {
            is_device: sink_is_default(optional_sink_ref(sink), optional_str(default_sink)),
        }),
{
    UnlinkEvent::Default { is_device: is_default_sink(sink, default_sink) }
}

// ---------------------------------------------------------------------------
// What disconnecting promises
// ---------------------------------------------------------------------------

/// The answers of the system to the steps.
pub struct Answers {
    pub was_default: bool,
    pub disconnects: bool,
    pub has_fallback: bool,
}

/// What comes of a step.
pub open spec fn reply(answers: Answers, step: UnlinkStep) -> UnlinkEvent {
    match step {
        UnlinkStep::AskDefault => UnlinkEvent::Default { is_device: answers.was_default },
        UnlinkStep::Disconnect { .. } => UnlinkEvent::Disconnected {
            succeeded: answers.disconnects,
        },
        UnlinkStep::FindFallback => UnlinkEvent::Fallback { found: answers.has_fallback },
        _ => UnlinkEvent::Done,
    }
}

/// The steps that are taken from `step` on, at most `n` of them.
pub open spec fn steps_from(plan: UnlinkPlan, answers: Answers, step: UnlinkStep, n: nat) -> Seq<
    UnlinkStep,
>
    decreases n,
{
    if n == 0 || step is Report || step is Failed {
        seq![step]
    } else {
        seq![step] + steps_from(
            plan,
            answers,
            step_after(plan, step, reply(answers, step)),
            (n - 1) as nat,
        )
    }
}

/// Disconnecting takes exactly these steps.  Another sink becomes the default one if
/// and only if the device was disconnected, its sink was the default one, falling
/// back is wanted and there is a sink to fall back to; streams move only with it, and
/// only if that is wanted.
pub proof fn law_unlink_steps(plan: UnlinkPlan, answers: Answers)
    ensures
        steps_from(plan, answers, UnlinkStep::AskDefault, 5) == seq![
            UnlinkStep::AskDefault,
            UnlinkStep::Disconnect { was_default: answers.was_default },
        ] + if !answers.disconnects {
            seq![UnlinkStep::Failed]
        } else if !(answers.was_default && plan.fallback) {
            seq![UnlinkStep::Report]
        } else if !answers.has_fallback {
            seq![UnlinkStep::FindFallback, UnlinkStep::Report]
        } else if !plan.move_streams {
            seq![UnlinkStep::FindFallback, UnlinkStep::SetDefault, UnlinkStep::Report]
        } else {
            seq![
                UnlinkStep::FindFallback,
                UnlinkStep::SetDefault,
                UnlinkStep::MoveStreams,
                UnlinkStep::Report,
            ]
        },
{
    reveal_with_fuel(steps_from, 6);
}

/// The sink that sound falls back to is one of the listed ones, is no Bluetooth
/// sink and is not the sink of the device; there is none only if no listed sink
/// will do.
pub proof fn law_fallback_is_no_bluetooth_sink(
    sinks: Seq<SinkModel>,
    exclude_name: Option<Seq<char>>,
)
    ensures
        match fallback_sink(sinks, exclude_name) {
            Some(sink) => sinks.contains(sink) && !"bluez_"@.is_prefix_of(sink.name)
                && exclude_name != Some(sink.name),
            None => forall|i: int|
                0 <= i < sinks.len() ==> !is_fallback((#[trigger] sinks[i]).name, exclude_name),
        },
    decreases sinks.len(),
{
    if sinks.len() > 0 && !is_fallback(sinks[0].name, exclude_name) {
        let rest = sinks.drop_first();
        law_fallback_is_no_bluetooth_sink(rest, exclude_name);
        match fallback_sink(rest, exclude_name) {
            Some(sink) => {
                let i = choose|i: int| 0 <= i < rest.len() && rest[i] == sink;
                assert(sinks[i + 1] == sink);
            },
            None => {
                assert forall|i: int| 0 <= i < sinks.len() implies !is_fallback(
                    (#[trigger] sinks[i]).name,
                    exclude_name,
                ) by {
                    if i > 0 {
                        assert(rest[i - 1] == sinks[i]);
                    }
                }
            },
        }
    } else if sinks.len() > 0 {
        assert(sinks[0] == fallback_sink(sinks, exclude_name)->0);
    }
}

} // verus!
