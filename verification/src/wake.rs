//! Waking the sink of a device with a piece of silence.
//!
//! A [`WakeStep`] says what is to be done next; [`wake_next`] takes what came of it.

use vstd::prelude::*;

use crate::command::{command, CommandLine, CommandModel};

verus! {

/// A program that plays a sound file.
#[derive(Debug, Clone, Copy, PartialEq, Eq, Structural)]
pub enum Player {
    Paplay,
    PwPlay,
}

/// The arguments of a player up to the file.
pub open spec fn player_args(player: Player, sink: Seq<char>) -> Seq<Seq<char>> {
    match player {
        Player::Paplay => seq!["paplay"@],
        Player::PwPlay => seq!["pw-play"@, "--target"@, sink],
    }
}

/// The command that plays a file on a sink, up to the file.
pub fn player_command(player: Player, sink: &str) -> (r: CommandLine)
    ensures
        r@ == (CommandModel { args: player_args(player, sink@), timeout_seconds: 5, check: false }),
{
    let r = match player {
        Player::Paplay => command(["paplay"].as_slice(), 5, false),
        Player::PwPlay => command(["pw-play", "--target", sink].as_slice(), 5, false),
    };
    assert(r@.args =~= player_args(player, sink@));
    r
}

/// The variable that tells a player its sink, if it takes the sink that way.
pub fn player_variable(player: Player) -> (r: Option<&'static str>)
    ensures
        match player {
            Player::Paplay => r is Some && r->0@ == "PULSE_SINK"@,
            Player::PwPlay => r is None,
        },
{
    match player {
        Player::Paplay => Some("PULSE_SINK"),
        Player::PwPlay => None,
    }
}

/// What is to be done next, or whether the sink was woken.
#[derive(Debug, Clone, Copy, PartialEq, Eq, Structural)]
pub enum WakeStep {
    FindSink,
    WriteFile,
    AskPlayers,
    Play { player: Player },
    Finished { woken: bool },
}

/// What came of a step.
#[derive(Debug, Clone, Copy, PartialEq, Eq, Structural)]
pub enum WakeEvent {
    /// Whether the device has a sink.
    Sink { found: bool },
    /// Whether the silence could be written to a file.
    File { written: bool },
    /// Which players are installed.
    Players { paplay: bool, pw_play: bool },
    /// The exit code of the player; none if it could not be run.
    Played { code: Option<i32> },
}

/// The player that is used out of the installed ones.
pub open spec fn chosen_player(paplay: bool, pw_play: bool) -> Option<Player> {
    if paplay {
        Some(Player::Paplay)
    } else if pw_play {
        Some(Player::PwPlay)
    } else {
        None
    }
}

/// The step after `step`.  An event that answers another question repeats the step.
pub open spec fn step_after(step: WakeStep, event: WakeEvent) -> WakeStep {
    match (step, event) {
        (WakeStep::FindSink, WakeEvent::Sink { found }) => if found {
            WakeStep::WriteFile
        } else {
            WakeStep::Finished { woken: false }
        },
        (WakeStep::WriteFile, WakeEvent::File { written }) => if written {
            WakeStep::AskPlayers
        } else {
            WakeStep::Finished { woken: false }
        },
        (WakeStep::AskPlayers, WakeEvent::Players { paplay, pw_play }) => match chosen_player(
            paplay,
            pw_play,
        ) {
            Some(player) => WakeStep::Play { player },
            None => WakeStep::Finished { woken: false },
        },
        (WakeStep::Play { .. }, WakeEvent::Played { code }) => WakeStep::Finished {
            woken: code == Some(0i32),
        },
        _ => step,
    }
}

/// The first step.
pub fn wake_start() -> (r: WakeStep)
    ensures
        r == WakeStep::FindSink,
{
    WakeStep::FindSink
}

pub fn wake_next(step: WakeStep, event: WakeEvent) -> (r: WakeStep)
    ensures
        r == step_after(step, event),
{
    match (step, event) {
        (WakeStep::FindSink, WakeEvent::Sink { found }) => if found {
            WakeStep::WriteFile
        } else {
            WakeStep::Finished { woken: false }
        },
        (WakeStep::WriteFile, WakeEvent::File { written }) => if written {
            WakeStep::AskPlayers
        } else {
            WakeStep::Finished { woken: false }
        },
        (WakeStep::AskPlayers, WakeEvent::Players { paplay, pw_play }) => if paplay {
            WakeStep::Play { player: Player::Paplay }
        } else if pw_play {
            WakeStep::Play { player: Player::PwPlay }
        } else {
            WakeStep::Finished { woken: false }
        },
        (WakeStep::Play { .. }, WakeEvent::Played { code }) => WakeStep::Finished {
            woken: match code {
                Some(code) => code == 0,
                None => false,
            },
        },
        _ => step,
    }
}

// ---------------------------------------------------------------------------
// What waking promises
// ---------------------------------------------------------------------------

/// The answers of the system to the steps.
pub struct Answers {
    pub has_sink: bool,
    pub writes: bool,
    pub paplay: bool,
    pub pw_play: bool,
    pub code: Option<i32>,
}

/// What comes of a step.
pub open spec fn reply(answers: Answers, step: WakeStep) -> WakeEvent {
    match step {
        WakeStep::FindSink => WakeEvent::Sink { found: answers.has_sink },
        WakeStep::WriteFile => WakeEvent::File { written: answers.writes },
        WakeStep::AskPlayers => WakeEvent::Players {
            paplay: answers.paplay,
            pw_play: answers.pw_play,
        },
        _ => WakeEvent::Played { code: answers.code },
    }
}

/// The steps that are taken from `step` on, at most `n` of them.
pub open spec fn steps_from(answers: Answers, step: WakeStep, n: nat) -> Seq<WakeStep>
    decreases n,
{
    if n == 0 || step is Finished {
        seq![step]
    } else {
        seq![step] + steps_from(answers, step_after(step, reply(answers, step)), (n - 1) as nat)
    }
}

/// Waking ends after four steps at most.  The sink is woken if and only if there is
/// one, the silence was written, a player is installed, and it succeeded; nothing is
/// played before the silence was written.
pub proof fn law_waking(answers: Answers)
    ensures
        ({
            let steps = steps_from(answers, WakeStep::FindSink, 4);
            &&& steps.last() == (WakeStep::Finished {
                woken: answers.has_sink && answers.writes && (answers.paplay || answers.pw_play)
                    && answers.code == Some(0i32),
            })
            &&& steps.len() == 5 ==> steps[1] is WriteFile && answers.writes && steps[3]
                == (WakeStep::Play {
                player: if answers.paplay {
                    Player::Paplay
                } else {
                    Player::PwPlay
                },
            })
            &&& steps.len() < 5 ==> forall|i: int|
                0 <= i < steps.len() ==> !((#[trigger] steps[i]) is Play)
        }),
{
    reveal_with_fuel(steps_from, 5);
}

} // verus!
