//! Opening the control channel.
//!
//! An [`OpenStep`] says what is to be done next; [`open_next`] takes whether it succeeded.

use vstd::prelude::*;

use crate::socket::invalid_mac_message;
use crate::text::{concat2, concat3};

verus! {

/// What went wrong.
#[derive(Debug, Clone, Copy, PartialEq, Eq, Structural)]
pub enum OpenFailure {
    Socket,
    LinkMode,
    Timeout,
    Address,
    Connect,
}

/// What is to be done next, or how it ended.
#[derive(Debug, Clone, Copy, PartialEq, Eq, Structural)]
pub enum OpenStep {
    CreateSocket,
    /// Ask for an authenticated and encrypted link.
    SetLinkMode,
    SetReceiveTimeout,
    SetSendTimeout,
    ReadAddress,
    Connect,
    /// Close the socket, after a failure.
    Close { failure: OpenFailure },
    Opened,
    Failed { failure: OpenFailure },
}

/// The step after `step`, which succeeded or not.
pub open spec fn step_after(step: OpenStep, succeeded: bool) -> OpenStep {
    match step {
        OpenStep::CreateSocket => if succeeded {
            OpenStep::SetLinkMode
        } else {
            OpenStep::Failed { failure: OpenFailure::Socket }
        },
        OpenStep::SetLinkMode => if succeeded {
            OpenStep::SetReceiveTimeout
        } else {
            OpenStep::Close { failure: OpenFailure::LinkMode }
        },
        OpenStep::SetReceiveTimeout => if succeeded {
            OpenStep::SetSendTimeout
        } else {
            OpenStep::Close { failure: OpenFailure::Timeout }
        },
        OpenStep::SetSendTimeout => if succeeded {
            OpenStep::ReadAddress
        } else {
            OpenStep::Close { failure: OpenFailure::Timeout }
        },
        OpenStep::ReadAddress => if succeeded {
            OpenStep::Connect
        } else {
            OpenStep::Close { failure: OpenFailure::Address }
        },
        OpenStep::Connect => if succeeded {
            OpenStep::Opened
        } else {
            OpenStep::Close { failure: OpenFailure::Connect }
        },
        OpenStep::Close { failure } => OpenStep::Failed { failure },
        OpenStep::Opened | OpenStep::Failed { .. } => step,
    }
}

/// The first step.
pub fn open_start() -> (r: OpenStep)
    ensures
        r == OpenStep::CreateSocket,
{
    OpenStep::CreateSocket
}

pub fn open_next(step: OpenStep, succeeded: bool) -> (r: OpenStep)
    ensures
        r == step_after(step, succeeded),
{
    match (step, succeeded) {
        (OpenStep::CreateSocket, true) => OpenStep::SetLinkMode,
        (OpenStep::CreateSocket, false) => OpenStep::Failed { failure: OpenFailure::Socket },
        (OpenStep::SetLinkMode, true) => OpenStep::SetReceiveTimeout,
        (OpenStep::SetLinkMode, false) => OpenStep::Close { failure: OpenFailure::LinkMode },
        (OpenStep::SetReceiveTimeout, true) => OpenStep::SetSendTimeout,
        (OpenStep::SetReceiveTimeout, false) => OpenStep::Close { failure: OpenFailure::Timeout },
        (OpenStep::SetSendTimeout, true) => OpenStep::ReadAddress,
        (OpenStep::SetSendTimeout, false) => OpenStep::Close { failure: OpenFailure::Timeout },
        (OpenStep::ReadAddress, true) => OpenStep::Connect,
        (OpenStep::ReadAddress, false) => OpenStep::Close { failure: OpenFailure::Address },
        (OpenStep::Connect, true) => OpenStep::Opened,
        (OpenStep::Connect, false) => OpenStep::Close { failure: OpenFailure::Connect },
        (OpenStep::Close { failure }, _) => OpenStep::Failed { failure },
        (OpenStep::Opened, _) | (OpenStep::Failed { .. }, _) => step,
    }
}

/// The message about a channel that could not be opened; `cause` is what the system says.
pub open spec fn failure_text(failure: OpenFailure, mac: Seq<char>, cause: Seq<char>) -> Seq<
    char,
> {
    match failure {
        OpenFailure::Socket => "Failed to open AAP socket"@,
        OpenFailure::LinkMode => "Failed configuring AAP socket security"@,
        OpenFailure::Timeout => "Failed configuring AAP socket timeout"@,
        OpenFailure::Address => invalid_mac_message(mac),
        OpenFailure::Connect => "Failed to open AAP session to "@ + mac + ": "@ + cause,
    }
}

pub fn open_error(failure: OpenFailure, mac: &str, cause: &str) -> (r: String)
    ensures
        r@ == failure_text(failure, mac@, cause@),
{
    match failure {
        OpenFailure::Socket => "Failed to open AAP socket".to_owned(),
        OpenFailure::LinkMode => "Failed configuring AAP socket security".to_owned(),
        OpenFailure::Timeout => "Failed configuring AAP socket timeout".to_owned(),
        OpenFailure::Address => concat2("Invalid Bluetooth MAC address: ", mac),
        OpenFailure::Connect => {
            let mut message = concat3("Failed to open AAP session to ", mac, ": ");
            message.append(cause);
            message
        },
    }
}

// ---------------------------------------------------------------------------
// What opening promises
// ---------------------------------------------------------------------------

/// The steps, in their order, where all succeed.
pub open spec fn course() -> Seq<OpenStep> {
    seq![
        OpenStep::CreateSocket,
        OpenStep::SetLinkMode,
        OpenStep::SetReceiveTimeout,
        OpenStep::SetSendTimeout,
        OpenStep::ReadAddress,
        OpenStep::Connect,
    ]
}

/// What it means that one of these steps fails.
pub open spec fn failures() -> Seq<OpenFailure> {
    seq![
        OpenFailure::Socket,
        OpenFailure::LinkMode,
        OpenFailure::Timeout,
        OpenFailure::Timeout,
        OpenFailure::Address,
        OpenFailure::Connect,
    ]
}

/// The steps that are taken from `step` on, at most `n` of them, when the steps succeed
/// for which `succeeds` says so.
pub open spec fn steps_from(succeeds: spec_fn(OpenStep) -> bool, step: OpenStep, n: nat) -> Seq<
    OpenStep,
>
    decreases n,
{
    if n == 0 || step is Opened || step is Failed {
        seq![step]
    } else {
        seq![step] + steps_from(succeeds, step_after(step, succeeds(step)), (n - 1) as nat)
    }
}

/// Where every step succeeds, the channel is open after exactly these steps: it is
/// connected only after the link mode and both timeouts were set.
pub proof fn law_open_succeeds(succeeds: spec_fn(OpenStep) -> bool)
    requires
        forall|i: int| 0 <= i < 6 ==> succeeds(#[trigger] course()[i]),
    ensures
        steps_from(succeeds, OpenStep::CreateSocket, 7) == course().push(OpenStep::Opened),
{
    reveal_with_fuel(steps_from, 8);
    assert(succeeds(course()[0]) && succeeds(course()[1]) && succeeds(course()[2]));
    assert(succeeds(course()[3]) && succeeds(course()[4]) && succeeds(course()[5]));
    assert(steps_from(succeeds, OpenStep::CreateSocket, 7) =~= course().push(OpenStep::Opened));
}

/// Where a step fails, no further step of the course is taken.  A socket that was made is
/// closed, once and at once, and the failure is that of the step.
pub proof fn law_open_fails(succeeds: spec_fn(OpenStep) -> bool, at: int)
    requires
        0 <= at < 6,
        forall|i: int| 0 <= i < at ==> succeeds(#[trigger] course()[i]),
        !succeeds(course()[at]),
    ensures
        steps_from(succeeds, OpenStep::CreateSocket, 7) == course().take(at + 1) + (if at == 0 {
            Seq::empty()
        } else {
            seq![OpenStep::Close { failure: failures()[at] }]
        }) + seq![OpenStep::Failed { failure: failures()[at] }],
{
    reveal_with_fuel(steps_from, 8);
    assert(0 < at ==> succeeds(course()[0]));
    assert(1 < at ==> succeeds(course()[1]));
    assert(2 < at ==> succeeds(course()[2]));
    assert(3 < at ==> succeeds(course()[3]));
    assert(4 < at ==> succeeds(course()[4]));
}

} // verus!
