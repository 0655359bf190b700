//! The flows that bring the sound to a device.
//!
//! A [`LinkStep`] says what is to be done next; [`link_next`] takes what came of it.

use vstd::prelude::*;

use crate::command::{
    attempt_outcome, attempt_trouble, command_result, effective_code, failure_message,
    restart_audio_command, CommandAttempt,
};
use crate::connect::{law_connect_steps, ConnectStep};
use crate::pulse::{Sink, SinkModel};
use crate::text::{joined, optional_str, same_text};

verus! {

/// What a flow is to do.
#[derive(Debug, Clone, Copy, PartialEq, Eq, Structural)]
pub struct LinkPlan {
    /// Recover a broken connection, in place of making a new one.
    pub fix: bool,
    /// Restart the audio services on the way.
    pub restart_audio: bool,
    /// Make the sink of the device the default one.
    pub set_default: bool,
    /// Move the running streams to it.
    pub move_streams: bool,
}

pub fn connect_plan(set_default: bool, move_streams: bool) -> (r: LinkPlan)
    ensures
        r == (LinkPlan { fix: false, restart_audio: false, set_default, move_streams }),
{
    LinkPlan { fix: false, restart_audio: false, set_default, move_streams }
}

pub fn fix_plan(restart_audio: bool, move_streams: bool) -> (r: LinkPlan)
    ensures
        r == (LinkPlan { fix: true, restart_audio, set_default: true, move_streams }),
{
    LinkPlan { fix: true, restart_audio, set_default: true, move_streams }
}

/// A device may be paired while it is connected: on request, and never in a recovery.
pub open spec fn pairing(plan: LinkPlan, requested: bool) -> bool {
    !plan.fix && requested
}

pub fn may_pair(plan: LinkPlan, requested: bool) -> (r: bool)
    ensures
        r == pairing(plan, requested),
{
    !plan.fix && requested
}

/// Why a flow failed.
#[derive(Debug, Clone, Copy, PartialEq, Eq, Structural)]
pub enum LinkFailure {
    /// The device could not be connected.
    NotConnected,
    /// The device is connected, but has no sink.
    NoSink,
}

/// What is to be done next, or how the flow ended.
#[derive(Debug, Clone, Copy, PartialEq, Eq, Structural)]
pub enum LinkStep {
    ScanOff,
    Disconnect,
    RestartAudio,
    PauseAfterRestart,
    Connect,
    SelectProfile,
    AwaitSink,
    SetDefault,
    MoveStreams,
    Report,
    Failed { failure: LinkFailure },
}

/// What came of a step.
#[derive(Debug, Clone, Copy, PartialEq, Eq, Structural)]
pub enum LinkEvent {
    Done,
    /// There is nothing to restart the audio services with.
    RestartSkipped,
    /// Whether the device is connected now.
    Connected { succeeded: bool },
    /// Whether the sink of the device appeared.
    Sink { found: bool },
}

/// The first step of a flow.
pub open spec fn first_step(plan: LinkPlan) -> LinkStep {
    if plan.fix {
        LinkStep::ScanOff
    } else {
        LinkStep::Connect
    }
}

/// The step after `step`.  An event that answers another question repeats the step.
pub open spec fn step_after(plan: LinkPlan, step: LinkStep, event: LinkEvent) -> LinkStep {
    match (step, event) {
        (LinkStep::ScanOff, LinkEvent::Done) => LinkStep::Disconnect,
        (LinkStep::Disconnect, LinkEvent::Done) => if plan.restart_audio {
            LinkStep::RestartAudio
        } else {
            LinkStep::Connect
        },
        (LinkStep::RestartAudio, LinkEvent::Done) => LinkStep::PauseAfterRestart,
        (LinkStep::RestartAudio, LinkEvent::RestartSkipped) => LinkStep::Connect,
        (LinkStep::PauseAfterRestart, LinkEvent::Done) => LinkStep::Connect,
        (LinkStep::Connect, LinkEvent::Connected { succeeded }) => if succeeded {
            LinkStep::SelectProfile
        } else {
            LinkStep::Failed { failure: LinkFailure::NotConnected }
        },
        (LinkStep::SelectProfile, LinkEvent::Done) => LinkStep::AwaitSink,
        (LinkStep::AwaitSink, LinkEvent::Sink { found }) => if !found {
            LinkStep::Failed { failure: LinkFailure::NoSink }
        } else if plan.set_default {
            LinkStep::SetDefault
        } else {
            LinkStep::Report
        },
        (LinkStep::SetDefault, LinkEvent::Done) => if plan.move_streams {
            LinkStep::MoveStreams
        } else {
            LinkStep::Report
        },
        (LinkStep::MoveStreams, LinkEvent::Done) => LinkStep::Report,
        _ => step,
    }
}

pub fn link_start(plan: LinkPlan) -> (r: LinkStep)
    ensures
        r == first_step(plan),
{
    if plan.fix {
        LinkStep::ScanOff
    } else {
        LinkStep::Connect
    }
}

pub fn link_next(plan: LinkPlan, step: LinkStep, event: LinkEvent) -> (r: LinkStep)
    ensures
        r == step_after(plan, step, event),
{
    match (step, event) {
        (LinkStep::ScanOff, LinkEvent::Done) => LinkStep::Disconnect,
        (LinkStep::Disconnect, LinkEvent::Done) => if plan.restart_audio {
            LinkStep::RestartAudio
        } else {
            LinkStep::Connect
        },
        (LinkStep::RestartAudio, LinkEvent::Done) => LinkStep::PauseAfterRestart,
        (LinkStep::RestartAudio, LinkEvent::RestartSkipped) => LinkStep::Connect,
        (LinkStep::PauseAfterRestart, LinkEvent::Done) => LinkStep::Connect,
        (LinkStep::Connect, LinkEvent::Connected { succeeded }) => if succeeded {
            LinkStep::SelectProfile
        } else {
            LinkStep::Failed { failure: LinkFailure::NotConnected }
        },
        (LinkStep::SelectProfile, LinkEvent::Done) => LinkStep::AwaitSink,
        (LinkStep::AwaitSink, LinkEvent::Sink { found }) => if !found {
            LinkStep::Failed { failure: LinkFailure::NoSink }
        } else if plan.set_default {
            LinkStep::SetDefault
        } else {
            LinkStep::Report
        },
        (LinkStep::SetDefault, LinkEvent::Done) => if plan.move_streams {
            LinkStep::MoveStreams
        } else {
            LinkStep::Report
        },
        (LinkStep::MoveStreams, LinkEvent::Done) => LinkStep::Report,
        _ => step,
    }
}

/// What came of the restart of the audio services.  It is passed over where the command
/// cannot be started; a command that was started has to end in time and succeed.
pub fn after_restart(attempt: CommandAttempt) -> (r: Result<LinkEvent, String>)
    ensures
        match r {
            Ok(LinkEvent::RestartSkipped) => attempt is NotStarted,
            Ok(LinkEvent::Done) => attempt is Exited && effective_code(attempt->code) == 0,
            Ok(_) => false,
            Err(message) => match attempt_trouble(attempt) {
                Some(trouble) => !(attempt is NotStarted) && message@ == trouble
                    + restart_display(),
                None => effective_code(attempt->code) != 0 && message@ == failure_message(
                    restart_display(),
                    attempt_outcome(attempt),
                ),
            },
        },
{
    match attempt {
        CommandAttempt::NotStarted => Ok(LinkEvent::RestartSkipped),
        attempt => {
            let command = restart_audio_command();
            assert(command@.args.len() == command.args@.len());
            match command_result(&command.args, command.check, attempt) {
                Ok(_) => Ok(LinkEvent::Done),
                Err(message) => Err(message),
            }
        },
    }
}

/// The command that restarts the audio services, as messages show it.
pub open spec fn restart_display() -> Seq<char> {
    joined(
        seq![
            "systemctl"@,
            "--user"@,
            "restart"@,
            "wireplumber"@,
            "pipewire"@,
            "pipewire-pulse"@,
        ],
        " "@,
    )
}

/// The message about a device that is connected, but has no sink.
pub fn no_sink_message(plan: LinkPlan) -> (r: &'static str)
    ensures
        r@ == if plan.fix {
            "Reconnect succeeded, but no AirPods sink appeared."@
        } else {
            "Bluetooth connected, but no PipeWire sink appeared."@
        },
{
    if plan.fix {
        "Reconnect succeeded, but no AirPods sink appeared."
    } else {
        "Bluetooth connected, but no PipeWire sink appeared."
    }
}

// ---------------------------------------------------------------------------
// The default sink
// ---------------------------------------------------------------------------

/// The sink of the device is the default one.
pub open spec fn sink_is_default(
    sink: Option<SinkModel>,
    default_sink: Option<Seq<char>>,
) -> bool {
    sink is Some && default_sink == Some(sink->0.name)
}

/// What a reference to a sink that may be missing holds.
pub open spec fn optional_sink_ref(sink: Option<&Sink>) -> Option<SinkModel> {
    match sink {
        Some(sink) => Some(sink@),
        None => None,
    }
}

pub fn is_default_sink(sink: Option<&Sink>, default_sink: Option<&str>) -> (r: bool)
    ensures
        r == sink_is_default(optional_sink_ref(sink), optional_str(default_sink)),
{
    match (sink, default_sink) {
        (Some(sink), Some(current)) => same_text(sink.name.as_str(), current),
        _ => false,
    }
}

// ---------------------------------------------------------------------------
// What the flows promise
// ---------------------------------------------------------------------------

/// The answers of the system to the steps.
pub struct Answers {
    /// The audio services can be restarted.
    pub restarts: bool,
    pub connects: bool,
    pub sink_appears: bool,
}

/// What comes of a step.
pub open spec fn reply(answers: Answers, step: LinkStep) -> LinkEvent {
    match step {
        LinkStep::RestartAudio => if answers.restarts {
            LinkEvent::Done
        } else {
            LinkEvent::RestartSkipped
        },
        LinkStep::Connect => LinkEvent::Connected { succeeded: answers.connects },
        LinkStep::AwaitSink => LinkEvent::Sink { found: answers.sink_appears },
        _ => LinkEvent::Done,
    }
}

/// The steps that are taken from `step` on, at most `n` of them.
pub open spec fn steps_from(plan: LinkPlan, answers: Answers, step: LinkStep, n: nat) -> Seq<
    LinkStep,
>
    decreases n,
{
    if n == 0 || step is Report || step is Failed {
        seq![step]
    } else {
        seq![step] + steps_from(
            plan,
            answers,
            step_after(plan, step, reply(answers, step)),
            (n - 1) as nat,
        )
    }
}

/// All the steps of a flow.
pub open spec fn flow(plan: LinkPlan, answers: Answers) -> Seq<LinkStep> {
    steps_from(plan, answers, first_step(plan), 9)
}

/// The restart of the audio services, and the pause after it; there is no pause where
/// nothing could be restarted.
pub open spec fn restarting(restarts: bool) -> Seq<LinkStep> {
    if restarts {
        seq![LinkStep::RestartAudio, LinkStep::PauseAfterRestart]
    } else {
        seq![LinkStep::RestartAudio]
    }
}

/// The beginning of a flow: what comes before the device is connected.
pub open spec fn preparation(plan: LinkPlan, restarts: bool) -> Seq<LinkStep> {
    if plan.fix {
        seq![LinkStep::ScanOff, LinkStep::Disconnect] + if plan.restart_audio {
            restarting(restarts)
        } else {
            Seq::empty()
        }
    } else {
        Seq::empty()
    }
}

/// The end of a flow: what comes after the device is connected and has its sink.
pub open spec fn routing(plan: LinkPlan) -> Seq<LinkStep> {
    if !plan.set_default {
        Seq::empty()
    } else if plan.move_streams {
        seq![LinkStep::SetDefault, LinkStep::MoveStreams]
    } else {
        seq![LinkStep::SetDefault]
    }
}

/// Every flow takes exactly these steps.  The default sink is set only on request
/// and streams are moved only on request, and both only after the device is
/// connected and its sink has appeared.  A restart that cannot be made changes nothing
/// but that there is no pause after it.
pub proof fn law_flow_steps(plan: LinkPlan, answers: Answers)
    ensures
        flow(plan, answers) == preparation(plan, answers.restarts) + if !answers.connects {
            seq![
                LinkStep::Connect,
                LinkStep::Failed { failure: LinkFailure::NotConnected },
            ]
        } else if !answers.sink_appears {
            seq![
                LinkStep::Connect,
                LinkStep::SelectProfile,
                LinkStep::AwaitSink,
                LinkStep::Failed { failure: LinkFailure::NoSink },
            ]
        } else {
            seq![LinkStep::Connect, LinkStep::SelectProfile, LinkStep::AwaitSink] + routing(plan)
                + seq![LinkStep::Report]
        },
{
    reveal_with_fuel(steps_from, 10);
    let steps = flow(plan, answers);
    if plan.fix {
        if plan.restart_audio && answers.restarts {
            assert(steps.take(5) == seq![
                LinkStep::ScanOff,
                LinkStep::Disconnect,
                LinkStep::RestartAudio,
                LinkStep::PauseAfterRestart,
                LinkStep::Connect,
            ]);
        } else if plan.restart_audio {
            assert(steps.take(4) == seq![
                LinkStep::ScanOff,
                LinkStep::Disconnect,
                LinkStep::RestartAudio,
                LinkStep::Connect,
            ]);
        } else {
            assert(steps.take(3) == seq![
                LinkStep::ScanOff,
                LinkStep::Disconnect,
                LinkStep::Connect,
            ]);
        }
    }
}

/// Recovery stops scanning, disconnects, restarts the audio services unless that
/// is not wanted or cannot be done, reconnects, waits for the sink, makes it the default
/// one, and moves the streams unless that is not wanted, in this order.
pub proof fn law_fix_order(restart_audio: bool, restarts: bool, move_streams: bool)
    ensures
        flow(
            LinkPlan { fix: true, restart_audio, set_default: true, move_streams },
            Answers { restarts, connects: true, sink_appears: true },
        ) == seq![LinkStep::ScanOff, LinkStep::Disconnect] + (if restart_audio {
            restarting(restarts)
        } else {
            Seq::empty()
        }) + seq![
            LinkStep::Connect,
            LinkStep::SelectProfile,
            LinkStep::AwaitSink,
            LinkStep::SetDefault,
        ] + (if move_streams {
            seq![LinkStep::MoveStreams]
        } else {
            Seq::empty()
        }) + seq![LinkStep::Report],
{
    law_flow_steps(
        LinkPlan { fix: true, restart_audio, set_default: true, move_streams },
        Answers { restarts, connects: true, sink_appears: true },
    );
}

/// A recovery never pairs the device, whatever is requested and whatever the system
/// answers.
pub proof fn law_recovery_never_pairs(
    restart_audio: bool,
    move_streams: bool,
    requested: bool,
    answers: crate::connect::Answers,
    i: int,
)
    requires
        0 <= i < connecting(
            LinkPlan { fix: true, restart_audio, set_default: true, move_streams },
            requested,
            answers,
        ).len(),
    ensures
        ({
            let step = connecting(
                LinkPlan { fix: true, restart_audio, set_default: true, move_streams },
                requested,
                answers,
            )[i];
            !(step is Pair) && !(step is Trust) && !(step is Reconnect)
        }),
{
    law_connect_steps(false, answers);
}

/// The steps that connect the device in a flow.
pub open spec fn connecting(
    plan: LinkPlan,
    requested: bool,
    answers: crate::connect::Answers,
) -> Seq<ConnectStep> {
    crate::connect::steps_from(pairing(plan, requested), answers, ConnectStep::ScanOff, 6)
}

/// A connection that is to leave the default sink alone neither sets it nor moves
/// streams.
pub proof fn law_default_sink_left_alone(move_streams: bool, answers: Answers, i: int)
    requires
        0 <= i < flow(
            LinkPlan { fix: false, restart_audio: false, set_default: false, move_streams },
            answers,
        ).len(),
    ensures
        ({
            let step = flow(
                LinkPlan { fix: false, restart_audio: false, set_default: false, move_streams },
                answers,
            )[i];
            !(step is SetDefault) && !(step is MoveStreams)
        }),
{
    law_flow_steps(
        LinkPlan { fix: false, restart_audio: false, set_default: false, move_streams },
        answers,
    );
}

} // verus!
