//! Asking a device for what only it knows.
//!
//! An [`InquiryStep`] says what is to be done next; [`inquiry_next`] takes what came
//! of it.

use vstd::prelude::*;

use crate::status::Purpose;

verus! {

/// What is asked, and whether the sink of the device is woken first.
#[derive(Debug, Clone, Copy, PartialEq, Eq, Structural)]
pub struct Inquiry {
    pub purpose: Purpose,
    pub wake: bool,
}

/// What is to be done next, or how the inquiry ended.
#[derive(Debug, Clone, Copy, PartialEq, Eq, Structural)]
pub enum InquiryStep {
    AskConnected,
    Wake,
    /// Open a session and query the device.
    Query { request_keys: bool },
    Report,
    NotConnected,
    NothingReceived,
}

/// What came of a step.
#[derive(Debug, Clone, Copy, PartialEq, Eq, Structural)]
pub enum InquiryEvent {
    Connected { connected: bool },
    Done,
    /// What the query brought.
    Learned { battery: bool, keys: bool },
}

/// The query that serves a purpose asks for keys only if they are the purpose.
pub open spec fn query_step(purpose: Purpose) -> InquiryStep {
    InquiryStep::Query { request_keys: purpose is Keys }
}

/// The query brought what it was made for.  A status is shown whatever it brought.
pub open spec fn served(purpose: Purpose, battery: bool, keys: bool) -> bool {
    match purpose {
        Purpose::Battery => battery,
        Purpose::Keys => keys,
        Purpose::Status | Purpose::Monitor => true,
    }
}

/// The step after `step`.  An event that answers another question repeats the step.
pub open spec fn step_after(
    inquiry: Inquiry,
    step: InquiryStep,
    event: InquiryEvent,
) -> InquiryStep {
    match (step, event) {
        (InquiryStep::AskConnected, InquiryEvent::Connected { connected }) => if !connected {
            InquiryStep::NotConnected
        } else if inquiry.wake {
            InquiryStep::Wake
        } else {
            query_step(inquiry.purpose)
        },
        (InquiryStep::Wake, InquiryEvent::Done) => query_step(inquiry.purpose),
        (InquiryStep::Query { .. }, InquiryEvent::Learned { battery, keys }) => if served(
            inquiry.purpose,
            battery,
            keys,
        ) {
            InquiryStep::Report
        } else {
            InquiryStep::NothingReceived
        },
        _ => step,
    }
}

/// The first step.
pub fn inquiry_start() -> (r: InquiryStep)
    ensures
        r == InquiryStep::AskConnected,
{
    InquiryStep::AskConnected
}

fn make_query(purpose: Purpose) -> (r: InquiryStep)
    ensures
        r == query_step(purpose),
{
    match purpose {
        Purpose::Keys => InquiryStep::Query { request_keys: true },
        Purpose::Status | Purpose::Battery | Purpose::Monitor => InquiryStep::Query {
            request_keys: false,
        },
    }
}

pub fn inquiry_next(inquiry: Inquiry, step: InquiryStep, event: InquiryEvent) -> (r: InquiryStep)
    ensures
        r == step_after(inquiry, step, event),
{
    match (step, event) {
        (InquiryStep::AskConnected, InquiryEvent::Connected { connected }) => if !connected {
            InquiryStep::NotConnected
        } else if inquiry.wake {
            InquiryStep::Wake
        } else {
            make_query(inquiry.purpose)
        },
        (InquiryStep::Wake, InquiryEvent::Done) => make_query(inquiry.purpose),
        (InquiryStep::Query { .. }, InquiryEvent::Learned { battery, keys }) => {
            let enough: bool = match inquiry.purpose {
                Purpose::Battery => battery,
                Purpose::Keys => keys,
                Purpose::Status | Purpose::Monitor => true,
            };
            if enough {
                InquiryStep::Report
            } else {
                InquiryStep::NothingReceived
            }
        },
        _ => step,
    }
}

// ---------------------------------------------------------------------------
// What an inquiry promises
// ---------------------------------------------------------------------------

/// What the system and the device answer.
pub struct Answers {
    pub connected: bool,
    pub battery: bool,
    pub keys: bool,
}

/// What comes of a step.
pub open spec fn reply(answers: Answers, step: InquiryStep) -> InquiryEvent {
    match step {
        InquiryStep::AskConnected => InquiryEvent::Connected { connected: answers.connected },
        InquiryStep::Query { .. } => InquiryEvent::Learned {
            battery: answers.battery,
            keys: answers.keys,
        },
        _ => InquiryEvent::Done,
    }
}

/// A step after which nothing is left to be done.
pub open spec fn is_end(step: InquiryStep) -> bool {
    step is Report || step is NotConnected || step is NothingReceived
}

/// The steps that are taken from `step` on, at most `n` of them.
pub open spec fn steps_from(inquiry: Inquiry, answers: Answers, step: InquiryStep, n: nat) -> Seq<
    InquiryStep,
>
    decreases n,
{
    if n == 0 || is_end(step) {
        seq![step]
    } else {
        seq![step] + steps_from(
            inquiry,
            answers,
            step_after(inquiry, step, reply(answers, step)),
            (n - 1) as nat,
        )
    }
}

/// An inquiry takes exactly these steps: a device that is not connected is not asked
/// anything, its sink is woken only on request, and the query asks for keys only if
/// they are the purpose.
pub proof fn law_inquiry_steps(inquiry: Inquiry, answers: Answers)
    ensures
        steps_from(inquiry, answers, InquiryStep::AskConnected, 3) == seq![
            InquiryStep::AskConnected,
        ] + if !answers.connected {
            seq![InquiryStep::NotConnected]
        } else {
            (if inquiry.wake {
                seq![InquiryStep::Wake]
            } else {
                Seq::empty()
            }) + seq![
                InquiryStep::Query { request_keys: inquiry.purpose is Keys },
                if served(inquiry.purpose, answers.battery, answers.keys) {
                    InquiryStep::Report
                } else {
                    InquiryStep::NothingReceived
                },
            ]
        },
{
    reveal_with_fuel(steps_from, 4);
}

} // verus!
