//! The flows step by step: what is done, in which order, and when it is left undone.

use vstd::prelude::*;

use crate::inquiry::{Inquiry, InquiryEvent, InquiryStep};
use crate::link::{
    flow, pairing, sink_is_default, LinkEvent, LinkFailure, LinkPlan, LinkStep,
};
use crate::monitor::{can_fail, MonitorEvent, MonitorPlan, MonitorStep};
use crate::opening::{failure_text, OpenFailure, OpenStep};
use crate::pulse::SinkModel;
use crate::route::{RouteEvent, RouteStep};
use crate::sink_wait::{wait_advanced, wait_started, SinkWait, WaitEvent, WaitStep};
use crate::status::Purpose;
use crate::unlink::{UnlinkEvent, UnlinkPlan, UnlinkStep};
use crate::wake::{chosen_player, player_args, Player, WakeEvent, WakeStep};

verus! {

// ---------------------------------------------------------------------------
// Bringing the sound to a device
// ---------------------------------------------------------------------------

/// Making a connection: the device is connected, switched to high quality playback and its
/// sink awaited; the sink becomes the default one and the streams move to it as far as that
/// is wanted, and in this order.  A device that does not connect or has no sink ends it.
pub proof fn law_connect_flow(plan: LinkPlan, answers: crate::link::Answers)
    requires
        !plan.fix,
    ensures
        !answers.connects ==> flow(plan, answers) == seq![
            LinkStep::Connect,
            LinkStep::Failed { failure: LinkFailure::NotConnected },
        ],
        answers.connects && !answers.sink_appears ==> flow(plan, answers) == seq![
            LinkStep::Connect,
            LinkStep::SelectProfile,
            LinkStep::AwaitSink,
            LinkStep::Failed { failure: LinkFailure::NoSink },
        ],
        answers.connects && answers.sink_appears && !plan.set_default ==> flow(plan, answers)
            == seq![
            LinkStep::Connect,
            LinkStep::SelectProfile,
            LinkStep::AwaitSink,
            LinkStep::Report,
        ],
        answers.connects && answers.sink_appears && plan.set_default && !plan.move_streams
            ==> flow(plan, answers) == seq![
            LinkStep::Connect,
            LinkStep::SelectProfile,
            LinkStep::AwaitSink,
            LinkStep::SetDefault,
            LinkStep::Report,
        ],
        answers.connects && answers.sink_appears && plan.set_default && plan.move_streams ==> flow(
            plan,
            answers,
        ) == seq![
            LinkStep::Connect,
            LinkStep::SelectProfile,
            LinkStep::AwaitSink,
            LinkStep::SetDefault,
            LinkStep::MoveStreams,
            LinkStep::Report,
        ],
{
    crate::link::law_flow_steps(plan, answers);
}

/// A recovery: scanning stops, the device is disconnected, and the audio services are
/// restarted if that is wanted, with a pause after it if they could be.  From there on it
/// goes as any connection goes.
pub proof fn law_recovery_flow(plan: LinkPlan, answers: crate::link::Answers)
    requires
        plan.fix,
    ensures
        ({
            let connection = flow(LinkPlan { fix: false, ..plan }, answers);
            &&& !plan.restart_audio ==> flow(plan, answers) == seq![
                LinkStep::ScanOff,
                LinkStep::Disconnect,
            ] + connection
            &&& plan.restart_audio && answers.restarts ==> flow(plan, answers) == seq![
                LinkStep::ScanOff,
                LinkStep::Disconnect,
                LinkStep::RestartAudio,
                LinkStep::PauseAfterRestart,
            ] + connection
            &&& plan.restart_audio && !answers.restarts ==> flow(plan, answers) == seq![
                LinkStep::ScanOff,
                LinkStep::Disconnect,
                LinkStep::RestartAudio,
            ] + connection
        }),
{
    crate::link::law_flow_steps(plan, answers);
    crate::link::law_flow_steps(LinkPlan { fix: false, ..plan }, answers);
}

/// An event that answers another question repeats the step, and nothing follows the end of
/// a flow.
pub proof fn law_link_repeats(plan: LinkPlan, step: LinkStep, event: LinkEvent)
    requires
        match step {
            LinkStep::Connect => !(event is Connected),
            LinkStep::AwaitSink => !(event is Sink),
            LinkStep::RestartAudio => !(event is Done) && !(event is RestartSkipped),
            LinkStep::Report | LinkStep::Failed { .. } => true,
            _ => !(event is Done),
        },
    ensures
        crate::link::step_after(plan, step, event) == step,
{
}

/// A device may be paired if and only if that is requested and it is no recovery.
pub proof fn law_pairing_on_request(plan: LinkPlan, requested: bool)
    ensures
        pairing(plan, requested) <==> requested && plan.fix == false,
{
}

/// The sink of a device is the default one if and only if both are there and have the same
/// name.
pub proof fn law_default_by_name(sink: SinkModel, default_sink: Seq<char>)
    ensures
        sink_is_default(Some(sink), Some(default_sink)) <==> sink.name == default_sink,
        !sink_is_default(None, Some(default_sink)),
        !sink_is_default(Some(sink), None),
        !sink_is_default(None, None),
{
}

/// An event that answers another question repeats the step of a disconnection or of a
/// change of the default sink, and nothing follows their end.
pub proof fn law_unlink_repeats(
    plan: UnlinkPlan,
    step: UnlinkStep,
    event: UnlinkEvent,
    move_streams: bool,
    route: RouteStep,
    answer: RouteEvent,
)
    ensures
        match step {
            UnlinkStep::AskDefault => !(event is Default),
            UnlinkStep::Disconnect { .. } => !(event is Disconnected),
            UnlinkStep::FindFallback => !(event is Fallback),
            UnlinkStep::SetDefault | UnlinkStep::MoveStreams => !(event is Done),
            UnlinkStep::Report | UnlinkStep::Failed => true,
        } ==> crate::unlink::step_after(plan, step, event) == step,
        match route {
            RouteStep::FindSink => !(answer is Sink),
            RouteStep::SetDefault | RouteStep::MoveStreams => !(answer is Done),
            RouteStep::Report | RouteStep::NoSink => true,
        } ==> crate::route::step_after(move_streams, route, answer) == route,
{
}

// ---------------------------------------------------------------------------
// Waking a sink
// ---------------------------------------------------------------------------

/// Waking looks for the sink, writes the silence, looks for a player and plays, and ends
/// without having woken anything at the first of these that fails.
pub proof fn law_wake_steps(answers: crate::wake::Answers)
    ensures
        ({
            let steps = crate::wake::steps_from(answers, WakeStep::FindSink, 4);
            &&& !answers.has_sink ==> steps == seq![
                WakeStep::FindSink,
                WakeStep::Finished { woken: false },
            ]
            &&& answers.has_sink && !answers.writes ==> steps == seq![
                WakeStep::FindSink,
                WakeStep::WriteFile,
                WakeStep::Finished { woken: false },
            ]
            &&& answers.has_sink && answers.writes && !answers.paplay && !answers.pw_play
                ==> steps == seq![
                WakeStep::FindSink,
                WakeStep::WriteFile,
                WakeStep::AskPlayers,
                WakeStep::Finished { woken: false },
            ]
            &&& answers.has_sink && answers.writes && (answers.paplay || answers.pw_play)
                ==> steps == seq![
                WakeStep::FindSink,
                WakeStep::WriteFile,
                WakeStep::AskPlayers,
                WakeStep::Play {
                    player: if answers.paplay {
                        Player::Paplay
                    } else {
                        Player::PwPlay
                    },
                },
                WakeStep::Finished { woken: answers.code == Some(0i32) },
            ]
        }),
{
    reveal_with_fuel(crate::wake::steps_from, 5);
}

/// One player is told its sink by its arguments, the other one is not; the first one is
/// preferred.
pub proof fn law_players(sink: Seq<char>, paplay: bool, pw_play: bool)
    ensures
        player_args(Player::Paplay, sink) == seq!["paplay"@],
        player_args(Player::PwPlay, sink) == seq!["pw-play"@, "--target"@, sink],
        chosen_player(paplay, pw_play) is None <==> !paplay && !pw_play,
        chosen_player(paplay, pw_play) == Some(Player::Paplay) <==> paplay,
{
}

/// An event that answers another question repeats the step of waking.
pub proof fn law_wake_repeats(step: WakeStep, event: WakeEvent)
    requires
        match step {
            WakeStep::FindSink => !(event is Sink),
            WakeStep::WriteFile => !(event is File),
            WakeStep::AskPlayers => !(event is Players),
            WakeStep::Play { .. } => !(event is Played),
            WakeStep::Finished { .. } => true,
        },
    ensures
        crate::wake::step_after(step, event) == step,
{
}

// ---------------------------------------------------------------------------
// Asking a device
// ---------------------------------------------------------------------------

/// A query for the battery ends in a report if and only if a battery report came, one for
/// the keys if and only if the keys came, and one for the status in any case.
pub proof fn law_inquiry_ends(inquiry: Inquiry, answers: crate::inquiry::Answers)
    requires
        answers.connected,
    ensures
        ({
            let steps = crate::inquiry::steps_from(
                inquiry,
                answers,
                InquiryStep::AskConnected,
                3,
            );
            let asked = steps[steps.len() - 2];
            &&& steps.len() == if inquiry.wake {
                4int
            } else {
                3int
            }
            &&& inquiry.wake ==> steps[1] is Wake
            &&& asked is Query
            &&& asked->request_keys <==> inquiry.purpose == Purpose::Keys
            &&& steps.last() is Report || steps.last() is NothingReceived
            &&& inquiry.purpose == Purpose::Battery ==> (steps.last() is Report
                <==> answers.battery)
            &&& inquiry.purpose == Purpose::Keys ==> (steps.last() is Report <==> answers.keys)
            &&& inquiry.purpose == Purpose::Status || inquiry.purpose == Purpose::Monitor
                ==> steps.last() is Report
        }),
{
    crate::inquiry::law_inquiry_steps(inquiry, answers);
}

/// An event that answers another question repeats the step of an inquiry.
pub proof fn law_inquiry_repeats(inquiry: Inquiry, step: InquiryStep, event: InquiryEvent)
    requires
        match step {
            InquiryStep::AskConnected => !(event is Connected),
            InquiryStep::Wake => !(event is Done),
            InquiryStep::Query { .. } => !(event is Learned),
            _ => true,
        },
    ensures
        crate::inquiry::step_after(inquiry, step, event) == step,
{
}

// ---------------------------------------------------------------------------
// Opening the control channel
// ---------------------------------------------------------------------------

/// What each step of opening leads to: the next one if it succeeded, and if it failed the
/// end, after the socket was closed where there was one.
pub proof fn law_opening_steps(step: OpenStep, failure: OpenFailure, succeeded: bool)
    ensures
        ({
            let next = crate::opening::step_after(step, succeeded);
            &&& step is CreateSocket && succeeded ==> next is SetLinkMode
            &&& step is SetLinkMode && succeeded ==> next is SetReceiveTimeout
            &&& step is SetReceiveTimeout && succeeded ==> next is SetSendTimeout
            &&& step is SetSendTimeout && succeeded ==> next is ReadAddress
            &&& step is ReadAddress && succeeded ==> next is Connect
            &&& step is Connect && succeeded ==> next is Opened
            &&& step is CreateSocket && !succeeded ==> next == (OpenStep::Failed {
                failure: OpenFailure::Socket,
            })
            &&& step is SetLinkMode && !succeeded ==> next == (OpenStep::Close {
                failure: OpenFailure::LinkMode,
            })
            &&& (step is SetReceiveTimeout || step is SetSendTimeout) && !succeeded ==> next == (
            OpenStep::Close { failure: OpenFailure::Timeout })
            &&& step is ReadAddress && !succeeded ==> next == (OpenStep::Close {
                failure: OpenFailure::Address,
            })
            &&& step is Connect && !succeeded ==> next == (OpenStep::Close {
                failure: OpenFailure::Connect,
            })
            &&& step == (OpenStep::Close { failure }) ==> next == (OpenStep::Failed { failure })
            &&& step is Opened || step is Failed ==> next == step
        }),
{
}

/// What is said about a channel that could not be opened; the address and what the system
/// says stand where they explain something.
pub proof fn law_opening_failures(failure: OpenFailure, mac: Seq<char>, cause: Seq<char>)
    ensures
        match failure {
            OpenFailure::Socket => failure_text(failure, mac, cause)
                == "Failed to open AAP socket"@,
            OpenFailure::LinkMode => failure_text(failure, mac, cause)
                == "Failed configuring AAP socket security"@,
            OpenFailure::Timeout => failure_text(failure, mac, cause)
                == "Failed configuring AAP socket timeout"@,
            OpenFailure::Address => failure_text(failure, mac, cause)
                == "Invalid Bluetooth MAC address: "@ + mac,
            OpenFailure::Connect => failure_text(failure, mac, cause)
                == "Failed to open AAP session to "@ + mac + ": "@ + cause,
        },
{
}

// ---------------------------------------------------------------------------
// Watching a device
// ---------------------------------------------------------------------------

/// A watch asks first whether the device is connected.  One that is not is recorded as
/// absent, and that ends the watch if it was to record the device once.  One that is gets
/// its sink woken if that is wanted, a session, a query, and a record of what it said.
pub proof fn law_watch_begins(plan: MonitorPlan, connected: bool, now: u128)
    ensures
        ({
            let asked = crate::monitor::step_after(
                plan,
                MonitorStep::AskConnected,
                MonitorEvent::Connected { connected },
            );
            let done = MonitorEvent::Done { now };
            &&& asked is RecordAbsent <==> !connected
            &&& asked is Wake <==> connected && plan.wake
            &&& asked is Open <==> connected && !plan.wake
            &&& crate::monitor::step_after(plan, MonitorStep::RecordAbsent, done) is Absent
                <==> plan.once
            &&& crate::monitor::step_after(plan, MonitorStep::Wake, done) is Open
            &&& crate::monitor::step_after(plan, MonitorStep::Open, done) is Query
            &&& crate::monitor::step_after(plan, MonitorStep::Query, done) is RecordFirst
            &&& plan.once ==> crate::monitor::step_after(plan, MonitorStep::RecordFirst, done)
                is Print
            &&& !plan.once ==> crate::monitor::step_after(plan, MonitorStep::RecordFirst, done)
                == (MonitorStep::Read { last: now })
            &&& plan.once ==> crate::monitor::step_after(plan, MonitorStep::Print, done)
                is Finished
        }),
{
}

/// While a watch goes on, a packet is recorded, and silence leads to a new request for
/// notifications if and only if the refresh interval, or a tenth of a second where that is
/// longer, has passed since the last one.  After each of these the device has to be
/// connected still, or else the session is over.
pub proof fn law_watch_reads(plan: MonitorPlan, last: u128, now: u128, later: u128)
    requires
        last <= now,
    ensures
        ({
            let read = MonitorStep::Read { last };
            let silent = crate::monitor::step_after(plan, read, MonitorEvent::Silence { now });
            let due = now - last >= plan.refresh_interval && now - last >= 100_000_000;
            let done = MonitorEvent::Done { now: later };
            &&& crate::monitor::step_after(plan, read, MonitorEvent::Packet { now }) == (
            MonitorStep::RecordUpdate { last })
            &&& due ==> silent == (MonitorStep::Refresh { now })
            &&& !due ==> silent == (MonitorStep::AskStillConnected { last })
            &&& crate::monitor::step_after(plan, MonitorStep::RecordUpdate { last }, done) == (
            MonitorStep::AskStillConnected { last })
            &&& crate::monitor::step_after(plan, MonitorStep::Refresh { now }, done) == (
            MonitorStep::AskStillConnected { last: now })
            &&& crate::monitor::step_after(
                plan,
                MonitorStep::AskStillConnected { last },
                MonitorEvent::Connected { connected: true },
            ) == read
        }),
{
}

/// A session that is over ends a watch that was to record the device once.  Otherwise there
/// is a pause, as long as the retry interval and a tenth of a second at least, and the watch
/// begins anew; so it is with a device that is absent and with an error.
pub proof fn law_watch_pauses(
    plan: MonitorPlan,
    last: u128,
    length: u128,
    connected: bool,
    now: u128,
)
    ensures
        ({
            let done = MonitorEvent::Done { now };
            let over = crate::monitor::step_after(
                plan,
                MonitorStep::AskStillConnected { last },
                MonitorEvent::Connected { connected: false },
            );
            let absent = crate::monitor::step_after(plan, MonitorStep::RecordAbsent, done);
            let error = crate::monitor::step_after(
                plan,
                MonitorStep::RecordError { connected },
                done,
            );
            &&& plan.once ==> over is Finished && absent is Absent && error is Failed
            &&& !plan.once && plan.retry_interval >= 100_000_000 ==> over == (MonitorStep::Pause {
                length: plan.retry_interval,
            })
            &&& !plan.once && plan.retry_interval < 100_000_000 ==> over == (MonitorStep::Pause {
                length: 100_000_000,
            })
            &&& !plan.once ==> absent == over && error == over
            &&& crate::monitor::step_after(plan, MonitorStep::Pause { length }, done)
                is AskConnected
        }),
{
}

/// An error ends a session while it is opened, while the device is queried, read or asked
/// for notifications, and while what it said is shown; then it is seen whether the device
/// is connected, and the error recorded with that.  Nowhere else is an error taken.
pub proof fn law_watch_errors(plan: MonitorPlan, step: MonitorStep, connected: bool)
    ensures
        ({
            let failed = crate::monitor::step_after(plan, step, MonitorEvent::Error);
            let fails = step is Open || step is Query || step is Print || step is Read || step
                is Refresh;
            &&& fails ==> failed is AskAfterError
            &&& !fails ==> failed == step
            &&& can_fail(step) <==> fails
        }),
        crate::monitor::step_after(
            plan,
            MonitorStep::AskAfterError,
            MonitorEvent::Connected { connected },
        ) == (MonitorStep::RecordError { connected }),
{
}

/// An event that answers another question repeats the step, and nothing follows the end.
pub proof fn law_watch_repeats(plan: MonitorPlan, step: MonitorStep, event: MonitorEvent)
    requires
        !(event is Error),
        match step {
            MonitorStep::AskConnected
            | MonitorStep::AskStillConnected { .. }
            | MonitorStep::AskAfterError => !(event is Connected),
            MonitorStep::Read { .. } => !(event is Packet) && !(event is Silence),
            MonitorStep::Finished | MonitorStep::Absent | MonitorStep::Failed => true,
            _ => !(event is Done),
        },
    ensures
        crate::monitor::step_after(plan, step, event) == step,
{
}

// ---------------------------------------------------------------------------
// Waiting for a sink
// ---------------------------------------------------------------------------

/// A wait looks at once, lasts for the timeout or a tenth of a second, whichever is longer,
/// and pauses between two looks for the poll interval or a twentieth of a second, whichever
/// is longer.
pub proof fn law_wait_begins(now: u128, timeout: u128, poll_interval: u128)
    requires
        now + timeout + 100_000_000 <= 0xffff_ffff_ffff_ffff_ffff_ffff_ffff_ffff,
    ensures
        ({
            let wait = wait_started(now, timeout, poll_interval);
            &&& wait.step is Look
            &&& timeout >= 100_000_000 ==> wait.deadline == now + timeout
            &&& timeout < 100_000_000 ==> wait.deadline == now + 100_000_000
            &&& poll_interval >= 50_000_000 ==> wait.pause == poll_interval
            &&& poll_interval < 50_000_000 ==> wait.pause == 50_000_000
        }),
{
}

/// A look that finds the sink ends the wait, another one leads to a pause.  After a pause
/// the sink is looked for again if the deadline has not come, and otherwise given up.
pub proof fn law_wait_goes_on(wait: SinkWait, event: WaitEvent)
    ensures
        ({
            let next = wait_advanced(wait, event);
            &&& next.deadline == wait.deadline && next.pause == wait.pause
            &&& wait.step is Look && event == (WaitEvent::Seen { found: true }) ==> next.step
                is Found
            &&& wait.step is Look && event == (WaitEvent::Seen { found: false }) ==> next.step == (
            WaitStep::Pause { length: wait.pause })
            &&& wait.step is Pause ==> (event matches WaitEvent::Woken { now } ==> {
                &&& next.step is Look <==> now < wait.deadline
                &&& next.step is GivenUp <==> now >= wait.deadline
            })
            &&& wait.step is Found || wait.step is GivenUp ==> next.step == wait.step
            &&& wait.step is Look && event is Woken ==> next.step == wait.step
            &&& wait.step is Pause && event is Seen ==> next.step == wait.step
        }),
{
}

} // verus!
