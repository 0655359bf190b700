//! Connecting and disconnecting a device.
//!
//! A [`ConnectStep`] says what is to be done next; [`connect_next`] takes what came
//! of it.

use vstd::prelude::*;

use crate::command::{
    connect_command, pair_command, scan_off_command, trust_command, CommandLine, CommandModel,
    CommandOutcome, CommandResult,
};
use crate::text::{
    chars_of, contains_text, lower, occurs_in, optional_text, text_of, to_lower, trim, trimmed,
};

verus! {

/// `value`, or `fallback` if it is empty.
pub open spec fn value_or(value: Seq<char>, fallback: Seq<char>) -> Seq<char> {
    if value.len() == 0 {
        fallback
    } else {
        value
    }
}

pub fn non_empty_or(value: &str, fallback: &str) -> (r: String)
    ensures
        r@ == value_or(value@, fallback@),
{
    if value.is_empty() {
        fallback.to_owned()
    } else {
        value.to_owned()
    }
}

/// Both outputs of a command, one after the other, in lower case.
pub open spec fn combined_output(outcome: CommandOutcome) -> Seq<char> {
    lower(outcome.stdout + "\n"@ + outcome.stderr)
}

fn combine(result: &CommandResult) -> (r: String)
    ensures
        r@ == combined_output(result@),
{
    let mut both = result.stdout.clone();
    both.append("\n");
    both.append(result.stderr.as_str());
    to_lower(both.as_str())
}

/// An attempt to connect succeeded if the command did, or if it says so.
pub open spec fn attempt_succeeded(outcome: CommandOutcome) -> bool {
    outcome.code == 0 || occurs_in("connection successful"@, combined_output(outcome))
}

pub fn connect_succeeded(result: &CommandResult) -> (r: bool)
    ensures
        r == attempt_succeeded(result@),
{
    result.code == 0 || contains_text(combine(result).as_str(), "connection successful")
}

/// A device is disconnected if the command succeeded, or if it says so, or if the
/// device was not connected.
pub open spec fn disconnected_after(outcome: CommandOutcome) -> bool {
    outcome.code == 0 || occurs_in("successful"@, combined_output(outcome)) || occurs_in(
        "not connected"@,
        combined_output(outcome),
    )
}

pub fn do_disconnect(result: &CommandResult) -> (r: bool)
    ensures
        r == disconnected_after(result@),
{
    if result.code == 0 {
        return true;
    }
    let combined = combine(result);
    contains_text(combined.as_str(), "successful") || contains_text(
        combined.as_str(),
        "not connected",
    )
}

/// How an attempt to connect a device ended.
#[derive(Debug, Clone, Copy, PartialEq, Eq, Structural)]
pub enum ConnectOutcome {
    AlreadyConnected,
    Connected,
    PairedDuringConnect,
    Failed,
    FailedAfterPairing,
}

/// What is to be done next, or that nothing is left to be done.
#[derive(Debug, Clone, Copy, PartialEq, Eq, Structural)]
pub enum ConnectStep {
    ScanOff,
    AskConnected,
    Connect,
    Pair,
    Trust,
    Reconnect,
    Finished { outcome: ConnectOutcome },
}

/// What came of a step.
#[derive(Debug, Clone, Copy, PartialEq, Eq, Structural)]
pub enum ConnectEvent {
    /// The step was taken, and its result does not matter.
    Done,
    /// Whether the device is connected.
    Connected { connected: bool },
    /// Whether the attempt to connect succeeded.
    Attempt { succeeded: bool },
}

/// The step after `step`.  An event that answers another question repeats the step.
pub open spec fn step_after(pair: bool, step: ConnectStep, event: ConnectEvent) -> ConnectStep {
    match (step, event) {
        (ConnectStep::ScanOff, ConnectEvent::Done) => ConnectStep::AskConnected,
        (ConnectStep::AskConnected, ConnectEvent::Connected { connected }) => if connected {
            ConnectStep::Finished { outcome: ConnectOutcome::AlreadyConnected }
        } else {
            ConnectStep::Connect
        },
        (ConnectStep::Connect, ConnectEvent::Attempt { succeeded }) => if succeeded {
            ConnectStep::Finished { outcome: ConnectOutcome::Connected }
        } else if pair {
            ConnectStep::Pair
        } else {
            ConnectStep::Finished { outcome: ConnectOutcome::Failed }
        },
        (ConnectStep::Pair, ConnectEvent::Done) => ConnectStep::Trust,
        (ConnectStep::Trust, ConnectEvent::Done) => ConnectStep::Reconnect,
        (ConnectStep::Reconnect, ConnectEvent::Attempt { succeeded }) => if succeeded {
            ConnectStep::Finished { outcome: ConnectOutcome::PairedDuringConnect }
        } else {
            ConnectStep::Finished { outcome: ConnectOutcome::FailedAfterPairing }
        },
        _ => step,
    }
}

/// The first step.
pub fn connect_start() -> (r: ConnectStep)
    ensures
        r == ConnectStep::ScanOff,
{
    ConnectStep::ScanOff
}

pub fn connect_next(pair: bool, step: ConnectStep, event: ConnectEvent) -> (r: ConnectStep)
    ensures
        r == step_after(pair, step, event),
{
    match (step, event) {
        (ConnectStep::ScanOff, ConnectEvent::Done) => ConnectStep::AskConnected,
        (ConnectStep::AskConnected, ConnectEvent::Connected { connected }) => if connected {
            ConnectStep::Finished { outcome: ConnectOutcome::AlreadyConnected }
        } else {
            ConnectStep::Connect
        },
        (ConnectStep::Connect, ConnectEvent::Attempt { succeeded }) => if succeeded {
            ConnectStep::Finished { outcome: ConnectOutcome::Connected }
        } else if pair {
            ConnectStep::Pair
        } else {
            ConnectStep::Finished { outcome: ConnectOutcome::Failed }
        },
        (ConnectStep::Pair, ConnectEvent::Done) => ConnectStep::Trust,
        (ConnectStep::Trust, ConnectEvent::Done) => ConnectStep::Reconnect,
        (ConnectStep::Reconnect, ConnectEvent::Attempt { succeeded }) => if succeeded {
            ConnectStep::Finished { outcome: ConnectOutcome::PairedDuringConnect }
        } else {
            ConnectStep::Finished { outcome: ConnectOutcome::FailedAfterPairing }
        },
        _ => step,
    }
}

/// The arguments of the command that takes a step, where a command takes it.
pub open spec fn step_args(step: ConnectStep, mac: Seq<char>) -> Option<CommandModel> {
    match step {
        ConnectStep::ScanOff => Some(
            CommandModel {
                args: seq!["bluetoothctl"@, "scan"@, "off"@],
                timeout_seconds: 8,
                check: false,
            },
        ),
        ConnectStep::Connect | ConnectStep::Reconnect => Some(
            CommandModel {
                args: seq!["bluetoothctl"@, "connect"@, mac],
                timeout_seconds: 20,
                check: false,
            },
        ),
        ConnectStep::Pair => Some(
            CommandModel {
                args: seq!["bluetoothctl"@, "pair"@, mac],
                timeout_seconds: 25,
                check: false,
            },
        ),
        ConnectStep::Trust => Some(
            CommandModel {
                args: seq!["bluetoothctl"@, "trust"@, mac],
                timeout_seconds: 10,
                check: false,
            },
        ),
        _ => None,
    }
}

/// The command that takes a step.
pub fn step_command(step: ConnectStep, mac: &str) -> (r: Option<CommandLine>)
    ensures
        match r {
            Some(command) => step_args(step, mac@) == Some(command@),
            None => step_args(step, mac@) is None,
        },
{
    match step {
        ConnectStep::ScanOff => Some(scan_off_command()),
        ConnectStep::Connect | ConnectStep::Reconnect => Some(connect_command(mac)),
        ConnectStep::Pair => Some(pair_command(mac)),
        ConnectStep::Trust => Some(trust_command(mac)),
        _ => None,
    }
}

/// The outcomes that leave the device connected.
pub open spec fn is_connected_outcome(outcome: ConnectOutcome) -> bool {
    outcome is AlreadyConnected || outcome is Connected || outcome is PairedDuringConnect
}

pub fn leaves_connected(outcome: ConnectOutcome) -> (r: bool)
    ensures
        r == is_connected_outcome(outcome),
{
    match outcome {
        ConnectOutcome::AlreadyConnected
        | ConnectOutcome::Connected
        | ConnectOutcome::PairedDuringConnect => true,
        ConnectOutcome::Failed | ConnectOutcome::FailedAfterPairing => false,
    }
}

/// Why the device could not be connected, if it could not: what the last attempt
/// printed.
pub open spec fn connect_failure(outcome: ConnectOutcome, printed: CommandOutcome) -> Option<
    Seq<char>,
> {
    match outcome {
        ConnectOutcome::Failed => Some(
            value_or(trimmed(combined_output(printed)), "connect failed"@),
        ),
        ConnectOutcome::FailedAfterPairing => Some(
            value_or(trimmed(combined_output(printed)), "connect failed after pair"@),
        ),
        _ => None,
    }
}

pub fn connect_error(outcome: ConnectOutcome, result: &CommandResult) -> (r: Option<String>)
    ensures
        optional_text(r) == connect_failure(outcome, result@),
{
    let chars = chars_of(combine(result).as_str());
    let printed = text_of(trim(chars.as_slice()));
    match outcome {
        ConnectOutcome::Failed => Some(non_empty_or(printed.as_str(), "connect failed")),
        ConnectOutcome::FailedAfterPairing => Some(
            non_empty_or(printed.as_str(), "connect failed after pair"),
        ),
        _ => None,
    }
}

// ---------------------------------------------------------------------------
// What connecting promises
// ---------------------------------------------------------------------------

/// The answers of the system to the steps.
pub struct Answers {
    pub connected: bool,
    pub first_attempt: bool,
    pub second_attempt: bool,
}

/// What comes of a step.
pub open spec fn reply(answers: Answers, step: ConnectStep) -> ConnectEvent {
    match step {
        ConnectStep::AskConnected => ConnectEvent::Connected { connected: answers.connected },
        ConnectStep::Connect => ConnectEvent::Attempt { succeeded: answers.first_attempt },
        ConnectStep::Reconnect => ConnectEvent::Attempt { succeeded: answers.second_attempt },
        _ => ConnectEvent::Done,
    }
}

/// The steps that are taken from `step` on, at most `n` of them.
pub open spec fn steps_from(pair: bool, answers: Answers, step: ConnectStep, n: nat) -> Seq<
    ConnectStep,
>
    decreases n,
{
    if n == 0 || step is Finished {
        seq![step]
    } else {
        seq![step] + steps_from(
            pair,
            answers,
            step_after(pair, step, reply(answers, step)),
            (n - 1) as nat,
        )
    }
}

/// Connecting takes exactly these steps: scanning stops first, a connected device
/// is left alone, and the device is paired only on request and only if the direct
/// attempt failed.
pub proof fn law_connect_steps(pair: bool, answers: Answers)
    ensures
        steps_from(pair, answers, ConnectStep::ScanOff, 6) == seq![
            ConnectStep::ScanOff,
            ConnectStep::AskConnected,
        ] + if answers.connected {
            seq![ConnectStep::Finished { outcome: ConnectOutcome::AlreadyConnected }]
        } else if answers.first_attempt {
            seq![
                ConnectStep::Connect,
                ConnectStep::Finished { outcome: ConnectOutcome::Connected },
            ]
        } else if !pair {
            seq![
                ConnectStep::Connect,
                ConnectStep::Finished { outcome: ConnectOutcome::Failed },
            ]
        } else {
            seq![
                ConnectStep::Connect,
                ConnectStep::Pair,
                ConnectStep::Trust,
                ConnectStep::Reconnect,
                ConnectStep::Finished {
                    outcome: if answers.second_attempt {
                        ConnectOutcome::PairedDuringConnect
                    } else {
                        ConnectOutcome::FailedAfterPairing
                    },
                },
            ]
        },
{
    reveal_with_fuel(steps_from, 7);
}

/// Connecting leaves the device connected if and only if it was connected, or an
/// attempt that was made succeeded.
pub proof fn law_connect_outcome(pair: bool, answers: Answers)
    ensures
        ({
            let end = steps_from(pair, answers, ConnectStep::ScanOff, 6).last();
            &&& end is Finished
            &&& is_connected_outcome(end->outcome) == (answers.connected || answers.first_attempt
                || pair && answers.second_attempt)
        }),
{
    law_connect_steps(pair, answers);
}

} // verus!
