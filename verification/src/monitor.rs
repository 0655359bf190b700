//! Watching a device and keeping a record of what it says.
//!
//! A [`MonitorStep`] says what is to be done next; [`monitor_next`] takes what came
//! of it.

use vstd::prelude::*;

use crate::timing::{at_least, elapsed, longer, span};

verus! {

/// The least pause before a new attempt, and the least time between two requests.
pub const INTERVAL_LEAST: u128 = 100_000_000;

/// How a device is watched.
#[derive(Debug, Clone, Copy, PartialEq, Eq, Structural)]
pub struct MonitorPlan {
    /// Record the device once, and end.
    pub once: bool,
    /// Wake the sink of the device before a session.
    pub wake: bool,
    /// How often notifications are requested while the device is silent.
    pub refresh_interval: u128,
    /// The pause before a new attempt.
    pub retry_interval: u128,
}

/// What is to be done next, or how the watch ended.  `last` is the time of the last
/// request for notifications.
#[derive(Debug, Clone, Copy, PartialEq, Eq, Structural)]
pub enum MonitorStep {
    AskConnected,
    /// Record that the device is not connected.
    RecordAbsent,
    Wake,
    Open,
    Query,
    /// Record what the query found.
    RecordFirst,
    Print,
    Read { last: u128 },
    /// Record what is known after a packet.
    RecordUpdate { last: u128 },
    /// Request notifications, at the time `now`.
    Refresh { now: u128 },
    AskStillConnected { last: u128 },
    AskAfterError,
    /// Record the error that ended the session.
    RecordError { connected: bool },
    Pause { length: u128 },
    Finished,
    /// The device was not connected.
    Absent,
    /// The session ended with an error.
    Failed,
}

/// What came of a step.
#[derive(Debug, Clone, Copy, PartialEq, Eq, Structural)]
pub enum MonitorEvent {
    Done { now: u128 },
    Connected { connected: bool },
    /// A packet was read.
    Packet { now: u128 },
    /// No packet came in time.
    Silence { now: u128 },
    Error,
}

/// The pause before a new attempt.
pub open spec fn retry_pause(plan: MonitorPlan) -> MonitorStep {
    MonitorStep::Pause { length: longer(plan.retry_interval, INTERVAL_LEAST) }
}

/// What follows a session that ended without an error.
pub open spec fn session_over(plan: MonitorPlan) -> MonitorStep {
    if plan.once {
        MonitorStep::Finished
    } else {
        retry_pause(plan)
    }
}

/// A step of the session that can end it with an error.
pub open spec fn can_fail(step: MonitorStep) -> bool {
    step is Open || step is Query || step is Print || step is Read || step is Refresh
}

/// The step after `step`.  An event that answers another question repeats the step.
pub open spec fn step_after(
    plan: MonitorPlan,
    step: MonitorStep,
    event: MonitorEvent,
) -> MonitorStep {
    match (step, event) {
        (MonitorStep::AskConnected, MonitorEvent::Connected { connected }) => if !connected {
            MonitorStep::RecordAbsent
        } else if plan.wake {
            MonitorStep::Wake
        } else {
            MonitorStep::Open
        },
        (MonitorStep::RecordAbsent, MonitorEvent::Done { now }) => if plan.once {
            MonitorStep::Absent
        } else {
            retry_pause(plan)
        },
        (MonitorStep::Wake, MonitorEvent::Done { now }) => MonitorStep::Open,
        (MonitorStep::Open, MonitorEvent::Done { now }) => MonitorStep::Query,
        (MonitorStep::Query, MonitorEvent::Done { now }) => MonitorStep::RecordFirst,
        (MonitorStep::RecordFirst, MonitorEvent::Done { now }) => if plan.once {
            MonitorStep::Print
        } else {
            MonitorStep::Read { last: now }
        },
        (MonitorStep::Print, MonitorEvent::Done { now }) => session_over(plan),
        (MonitorStep::Read { last }, MonitorEvent::Packet { now }) => MonitorStep::RecordUpdate {
            last,
        },
        (MonitorStep::Read { last }, MonitorEvent::Silence { now }) => if span(last, now) >= longer(
            plan.refresh_interval,
            INTERVAL_LEAST,
        ) {
            MonitorStep::Refresh { now }
        } else {
            MonitorStep::AskStillConnected { last }
        },
        (MonitorStep::RecordUpdate { last }, MonitorEvent::Done { now }) =>
            MonitorStep::AskStillConnected { last },
        (MonitorStep::Refresh { now }, MonitorEvent::Done { now: later }) =>
            MonitorStep::AskStillConnected { last: now },
        (MonitorStep::AskStillConnected { last }, MonitorEvent::Connected { connected }) =>
            if connected {
                MonitorStep::Read { last }
            } else {
                session_over(plan)
            },
        (MonitorStep::AskAfterError, MonitorEvent::Connected { connected }) =>
            MonitorStep::RecordError { connected },
        (MonitorStep::RecordError { connected }, MonitorEvent::Done { now }) => if plan.once {
            MonitorStep::Failed
        } else {
            retry_pause(plan)
        },
        (MonitorStep::Pause { length }, MonitorEvent::Done { now }) => MonitorStep::AskConnected,
        (step, MonitorEvent::Error) => if can_fail(step) {
            MonitorStep::AskAfterError
        } else {
            step
        },
        _ => step,
    }
}

/// The first step.
pub fn monitor_start() -> (r: MonitorStep)
    ensures
        r == MonitorStep::AskConnected,
{
    MonitorStep::AskConnected
}

fn pause_step(plan: MonitorPlan) -> (r: MonitorStep)
    ensures
        r == retry_pause(plan),
{
    MonitorStep::Pause { length: at_least(plan.retry_interval, INTERVAL_LEAST) }
}

fn over_step(plan: MonitorPlan) -> (r: MonitorStep)
    ensures
        r == session_over(plan),
{
    if plan.once {
        MonitorStep::Finished
    } else {
        pause_step(plan)
    }
}

pub fn monitor_next(plan: MonitorPlan, step: MonitorStep, event: MonitorEvent) -> (r: MonitorStep)
    ensures
        r == step_after(plan, step, event),
{
    match (step, event) {
        (MonitorStep::AskConnected, MonitorEvent::Connected { connected }) => if !connected {
            MonitorStep::RecordAbsent
        } else if plan.wake {
            MonitorStep::Wake
        } else {
            MonitorStep::Open
        },
        (MonitorStep::RecordAbsent, MonitorEvent::Done { .. }) => if plan.once {
            MonitorStep::Absent
        } else {
            pause_step(plan)
        },
        (MonitorStep::Wake, MonitorEvent::Done { .. }) => MonitorStep::Open,
        (MonitorStep::Open, MonitorEvent::Done { .. }) => MonitorStep::Query,
        (MonitorStep::Query, MonitorEvent::Done { .. }) => MonitorStep::RecordFirst,
        (MonitorStep::RecordFirst, MonitorEvent::Done { now }) => if plan.once {
            MonitorStep::Print
        } else {
            MonitorStep::Read { last: now }
        },
        (MonitorStep::Print, MonitorEvent::Done { .. }) => over_step(plan),
        (MonitorStep::Read { last }, MonitorEvent::Packet { .. }) => MonitorStep::RecordUpdate {
            last,
        },
        (MonitorStep::Read { last }, MonitorEvent::Silence { now }) => if elapsed(last, now)
            >= at_least(plan.refresh_interval, INTERVAL_LEAST) {
            MonitorStep::Refresh { now }
        } else {
            MonitorStep::AskStillConnected { last }
        },
        (MonitorStep::RecordUpdate { last }, MonitorEvent::Done { .. }) =>
            MonitorStep::AskStillConnected { last },
        (MonitorStep::Refresh { now }, MonitorEvent::Done { .. }) =>
            MonitorStep::AskStillConnected { last: now },
        (MonitorStep::AskStillConnected { last }, MonitorEvent::Connected { connected }) =>
            if connected {
                MonitorStep::Read { last }
            } else {
                over_step(plan)
            },
        (MonitorStep::AskAfterError, MonitorEvent::Connected { connected }) =>
            MonitorStep::RecordError { connected },
        (MonitorStep::RecordError { .. }, MonitorEvent::Done { .. }) => if plan.once {
            MonitorStep::Failed
        } else {
            pause_step(plan)
        },
        (MonitorStep::Pause { .. }, MonitorEvent::Done { .. }) => MonitorStep::AskConnected,
        (MonitorStep::Open, MonitorEvent::Error)
        | (MonitorStep::Query, MonitorEvent::Error)
        | (MonitorStep::Print, MonitorEvent::Error)
        | (MonitorStep::Read { .. }, MonitorEvent::Error)
        | (MonitorStep::Refresh { .. }, MonitorEvent::Error) => MonitorStep::AskAfterError,
        _ => step,
    }
}

// ---------------------------------------------------------------------------
// What watching promises
// ---------------------------------------------------------------------------

/// The step after all the events, the first one first.
pub open spec fn monitor_run(plan: MonitorPlan, events: Seq<MonitorEvent>) -> MonitorStep
    decreases events.len(),
{
    if events.len() == 0 {
        MonitorStep::AskConnected
    } else {
        step_after(plan, monitor_run(plan, events.drop_last()), events.last())
    }
}

/// An event that answers the question of a step.
pub open spec fn answers(step: MonitorStep, event: MonitorEvent) -> bool {
    match step {
        MonitorStep::AskConnected
        | MonitorStep::AskStillConnected { .. }
        | MonitorStep::AskAfterError => event is Connected,
        MonitorStep::Read { .. } => event is Packet || event is Silence || event is Error,
        _ => event is Done || event is Error && can_fail(step),
    }
}

/// Every event answers the step that it came of.
pub open spec fn all_answered(plan: MonitorPlan, events: Seq<MonitorEvent>) -> bool
    decreases events.len(),
{
    events.len() > 0 ==> answers(monitor_run(plan, events.drop_last()), events.last())
        && all_answered(plan, events.drop_last())
}

/// A step after which nothing is left to be done.
pub open spec fn is_end(step: MonitorStep) -> bool {
    step is Finished || step is Absent || step is Failed
}

/// How many steps are left at most when a device is recorded once; none is given for
/// the steps that are not taken then.
pub open spec fn steps_left(step: MonitorStep) -> Option<int> {
    match step {
        MonitorStep::AskConnected => Some(9),
        MonitorStep::Wake => Some(8),
        MonitorStep::Open => Some(7),
        MonitorStep::Query => Some(6),
        MonitorStep::RecordFirst => Some(5),
        MonitorStep::Print => Some(4),
        MonitorStep::AskAfterError => Some(3),
        MonitorStep::RecordError { .. } => Some(2),
        MonitorStep::RecordAbsent => Some(1),
        MonitorStep::Finished | MonitorStep::Absent | MonitorStep::Failed => Some(0),
        _ => None,
    }
}

/// Recording a device once ends after nine steps at most, without a pause and
/// without reading on after the query.
pub proof fn law_once_ends(plan: MonitorPlan, events: Seq<MonitorEvent>)
    requires
        plan.once,
        all_answered(plan, events),
    ensures
        ({
            let step = monitor_run(plan, events);
            &&& steps_left(step) is Some
            &&& steps_left(step)->0 <= 9 - events.len() || is_end(step)
            &&& events.len() >= 9 ==> is_end(step)
        }),
    decreases events.len(),
{
    if events.len() > 0 {
        law_once_ends(plan, events.drop_last());
    }
}

/// A watch that is not to end after the first record never ends.
pub proof fn law_watch_goes_on(plan: MonitorPlan, events: Seq<MonitorEvent>)
    requires
        !plan.once,
    ensures
        !is_end(monitor_run(plan, events)),
        !(monitor_run(plan, events) is Print),
    decreases events.len(),
{
    if events.len() > 0 {
        law_watch_goes_on(plan, events.drop_last());
    }
}

/// Every pause before a new attempt has the length that was asked for, and a tenth
/// of a second at least; after it the device is looked for from the start.
pub proof fn law_pauses(plan: MonitorPlan, events: Seq<MonitorEvent>, now: u128)
    ensures
        match monitor_run(plan, events) {
            MonitorStep::Pause { length } => length == longer(plan.retry_interval, INTERVAL_LEAST)
                && step_after(
                plan,
                monitor_run(plan, events),
                MonitorEvent::Done { now },
            ) is AskConnected,
            _ => true,
        },
    decreases events.len(),
{
    if events.len() > 0 {
        law_pauses(plan, events.drop_last(), now);
    }
}

/// A session is opened only after the device was found connected, and the sink is
/// woken first exactly if that is wanted.
pub proof fn law_session_needs_connection(plan: MonitorPlan, step: MonitorStep, event: MonitorEvent)
    requires
        !(step is Open),
        step_after(plan, step, event) is Open,
    ensures
        if step is Wake {
            event is Done
        } else {
            step is AskConnected && event == (MonitorEvent::Connected { connected: true })
                && !plan.wake
        },
{
}

/// Every packet that is read is recorded before anything else is done.
pub proof fn law_every_packet_is_recorded(plan: MonitorPlan, last: u128, now: u128)
    ensures
        step_after(plan, MonitorStep::Read { last }, MonitorEvent::Packet { now })
            is RecordUpdate,
{
}

/// Notifications are requested again only while the device is silent, and not before
/// the refresh interval has passed since the last request, which is a tenth of a
/// second at least; the request is remembered as the last one.
pub proof fn law_refresh_waits(
    plan: MonitorPlan,
    step: MonitorStep,
    event: MonitorEvent,
    later: u128,
)
    requires
        !(step is Refresh),
    ensures
        match step_after(plan, step, event) {
            MonitorStep::Refresh { now } => event == (MonitorEvent::Silence { now }) && (
            step matches MonitorStep::Read { last } && span(last, now) >= longer(
                plan.refresh_interval,
                INTERVAL_LEAST,
            )) && step_after(
                plan,
                step_after(plan, step, event),
                MonitorEvent::Done { now: later },
            ) == (MonitorStep::AskStillConnected { last: now }),
            _ => true,
        },
{
}

/// A failure of the session is always recorded, and ends the watch only if the device
/// was to be recorded once.
pub proof fn law_errors_are_recorded(
    plan: MonitorPlan,
    step: MonitorStep,
    connected: bool,
    now: u128,
)
    requires
        can_fail(step),
    ensures
        step_after(plan, step, MonitorEvent::Error) is AskAfterError,
        step_after(plan, MonitorStep::AskAfterError, MonitorEvent::Connected { connected })
            == (MonitorStep::RecordError { connected }),
        step_after(plan, MonitorStep::RecordError { connected }, MonitorEvent::Done { now })
            == if plan.once {
            MonitorStep::Failed
        } else {
            retry_pause(plan)
        },
{
}

} // verus!
