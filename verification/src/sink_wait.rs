//! Waiting for the sink of a device to appear.

use vstd::prelude::*;

use crate::timing::{after, at_least, later_by, longer};

verus! {

/// The least time that is waited for a sink.
pub const WAIT_LEAST: u128 = 100_000_000;

/// The least pause between two looks.
pub const PAUSE_LEAST: u128 = 50_000_000;

/// The pause between two looks after a device was connected.
pub const SINK_POLL: u128 = 500_000_000;

/// What is to be done next, or how the wait ended.
#[derive(Debug, Clone, Copy, PartialEq, Eq, Structural)]
pub enum WaitStep {
    Look,
    Pause { length: u128 },
    Found,
    GivenUp,
}

/// What came of a step.
#[derive(Debug, Clone, Copy, PartialEq, Eq, Structural)]
pub enum WaitEvent {
    /// Whether the sink is there.
    Seen { found: bool },
    /// The pause is over, at the time `now`.
    Woken { now: u128 },
}

/// A wait that ends at its deadline.
#[derive(Debug, Clone, Copy, PartialEq, Eq, Structural)]
pub struct SinkWait {
    pub deadline: u128,
    pub pause: u128,
    pub step: WaitStep,
}

/// Looking goes on until the deadline.
pub open spec fn looking(deadline: u128, now: u128) -> WaitStep {
    if now < deadline {
        WaitStep::Look
    } else {
        WaitStep::GivenUp
    }
}

pub open spec fn wait_started(now: u128, timeout: u128, poll_interval: u128) -> SinkWait {
    let deadline = after(now, longer(timeout, WAIT_LEAST));
    SinkWait { deadline, pause: longer(poll_interval, PAUSE_LEAST), step: looking(deadline, now) }
}

/// The wait after something came of its step.  An event that does not belong to the
/// step changes nothing.
pub open spec fn wait_advanced(wait: SinkWait, event: WaitEvent) -> SinkWait {
    match (wait.step, event) {
        (WaitStep::Look, WaitEvent::Seen { found }) => SinkWait {
            step: if found {
                WaitStep::Found
            } else {
                WaitStep::Pause { length: wait.pause }
            },
            ..wait
        },
        (WaitStep::Pause { .. }, WaitEvent::Woken { now }) => SinkWait {
            step: looking(wait.deadline, now),
            ..wait
        },
        _ => wait,
    }
}

fn look(deadline: u128, now: u128) -> (r: WaitStep)
    ensures
        r == looking(deadline, now),
{
    if now < deadline {
        WaitStep::Look
    } else {
        WaitStep::GivenUp
    }
}

/// Starts to wait at the time `now`.
pub fn wait_for_sink(now: u128, timeout: u128, poll_interval: u128) -> (r: SinkWait)
    ensures
        r == wait_started(now, timeout, poll_interval),
{
    let deadline: u128 = later_by(now, at_least(timeout, WAIT_LEAST));
    SinkWait { deadline, pause: at_least(poll_interval, PAUSE_LEAST), step: look(deadline, now) }
}

pub fn wait_next(wait: SinkWait, event: WaitEvent) -> (r: SinkWait)
    ensures
        r == wait_advanced(wait, event),
{
    let step = match (wait.step, event) {
        (WaitStep::Look, WaitEvent::Seen { found }) => if found {
            WaitStep::Found
        } else {
            WaitStep::Pause { length: wait.pause }
        },
        (WaitStep::Pause { .. }, WaitEvent::Woken { now }) => look(wait.deadline, now),
        _ => wait.step,
    };
    SinkWait { deadline: wait.deadline, pause: wait.pause, step }
}

// ---------------------------------------------------------------------------
// What waiting promises
// ---------------------------------------------------------------------------

/// The wait after all the events, the first one first.
pub open spec fn wait_run(wait: SinkWait, events: Seq<WaitEvent>) -> SinkWait
    decreases events.len(),
{
    if events.len() == 0 {
        wait
    } else {
        wait_advanced(wait_run(wait, events.drop_last()), events.last())
    }
}

/// The sink is looked for at once, unless the clock is at its end.
pub proof fn law_wait_looks_at_least_once(now: u128, timeout: u128, poll_interval: u128)
    requires
        now < u128::MAX,
    ensures
        wait_started(now, timeout, poll_interval).step is Look,
{
}

/// A wait that was begun in time ends with a sink only if a look found one, and is
/// given up only after a pause that ended at the deadline or later.  Its pauses are
/// all of the same length.
pub proof fn law_wait_outcome(
    now: u128,
    timeout: u128,
    poll_interval: u128,
    events: Seq<WaitEvent>,
)
    requires
        now < u128::MAX,
    ensures
        ({
            let start = wait_started(now, timeout, poll_interval);
            let end = wait_run(start, events);
            &&& end.deadline == start.deadline
            &&& match end.step {
                WaitStep::Look => true,
                WaitStep::Pause { length } => length == longer(poll_interval, PAUSE_LEAST),
                WaitStep::Found => events.contains(WaitEvent::Seen { found: true }),
                WaitStep::GivenUp => exists|i: int|
                    0 <= i < events.len() && ((#[trigger] events[i]) matches WaitEvent::Woken {
                        now: late,
                    } && late >= start.deadline),
            }
        }),
        wait_run(wait_started(now, timeout, poll_interval), events).pause == longer(
            poll_interval,
            PAUSE_LEAST,
        ),
    decreases events.len(),
{
    if events.len() > 0 {
        let earlier = events.drop_last();
        law_wait_outcome(now, timeout, poll_interval, earlier);
        let start = wait_started(now, timeout, poll_interval);
        let before = wait_run(start, earlier);
        let end = wait_run(start, events);
        assert(events.last() == events[events.len() - 1]);
        match before.step {
            WaitStep::Found => {
                let i = choose|i: int|
                    0 <= i < earlier.len() && earlier[i] == (WaitEvent::Seen { found: true });
                assert(events[i] == earlier[i]);
            },
            WaitStep::GivenUp => {
                let i = choose|i: int|
                    0 <= i < earlier.len() && ((#[trigger] earlier[i]) matches WaitEvent::Woken {
                        now: late,
                    } && late >= start.deadline);
                assert(events[i] == earlier[i]);
            },
            _ => {},
        }
    }
}

} // verus!
