//! Commands of the system: what is run, and what their results mean.

use vstd::prelude::*;
use vstd::slice::slice_subrange;

use crate::text::{
    chars_of, concat2, int_text, join, joined, signed_decimal, starts_with, text_of, texts, trim,
    trimmed,
};

verus! {

/// What a command left behind: its exit code and its two outputs.
#[derive(Debug, Clone, PartialEq, Eq)]
pub struct CommandResult {
    pub code: i32,
    pub stdout: String,
    pub stderr: String,
}

/// What a command result holds.
#[verifier::ext_equal]
pub struct CommandOutcome {
    pub code: int,
    pub stdout: Seq<char>,
    pub stderr: Seq<char>,
}

impl View for CommandResult {
    type V = CommandOutcome;

    open spec fn view(&self) -> CommandOutcome {
        CommandOutcome { code: self.code as int, stdout: self.stdout@, stderr: self.stderr@ }
    }
}

/// A command with its arguments, how long it may take, and whether a failure of
/// the command is an error.
#[derive(Debug, Clone, PartialEq, Eq)]
pub struct CommandLine {
    pub args: Vec<String>,
    pub timeout_seconds: u64,
    pub check: bool,
}

/// What a command line holds.
#[verifier::ext_equal]
pub struct CommandModel {
    pub args: Seq<Seq<char>>,
    pub timeout_seconds: int,
    pub check: bool,
}

impl View for CommandLine {
    type V = CommandModel;

    open spec fn view(&self) -> CommandModel {
        CommandModel {
            args: texts(self.args@),
            timeout_seconds: self.timeout_seconds as int,
            check: self.check,
        }
    }
}

/// What string slices hold.
pub open spec fn slice_texts(parts: Seq<&str>) -> Seq<Seq<char>> {
    parts.map_values(|p: &str| p@)
}

/// The command line with the given arguments.
pub(crate) fn command(args: &[&str], timeout_seconds: u64, check: bool) -> (r: CommandLine)
    ensures
        r@ == (CommandModel {
            args: slice_texts(args@),
            timeout_seconds: timeout_seconds as int,
            check,
        }),
{
    let mut owned: Vec<String> = Vec::new();
    let mut i: usize = 0;
    while i < args.len()
        invariant
            i <= args@.len(),
            owned@.len() == i,
            forall|j: int| 0 <= j < i ==> (#[trigger] owned@[j])@ == args@[j]@,
        decreases args@.len() - i,
    {
        owned.push(args[i].to_owned());
        i += 1;
    }
    assert(texts(owned@) =~= slice_texts(args@));
    CommandLine { args: owned, timeout_seconds, check }
}

/// The command as messages show it: its parts with blanks between them.
pub fn command_display(args: &Vec<String>) -> (r: String)
    ensures
        r@ == joined(texts(args@), " "@),
{
    join(args, " ")
}

/// Why a command failed: its error output without a leading `error: `, or else its
/// output, or else its exit code.
pub open spec fn failure_details(outcome: CommandOutcome) -> Seq<char> {
    let trimmed_error = trimmed(outcome.stderr);
    let details = if "error: "@.is_prefix_of(trimmed_error) {
        trimmed_error.skip("error: "@.len() as int)
    } else {
        trimmed_error
    };
    if details.len() > 0 {
        details
    } else if trimmed(outcome.stdout).len() > 0 {
        trimmed(outcome.stdout)
    } else {
        "exit code "@ + signed_decimal(outcome.code)
    }
}

fn command_failure(result: &CommandResult) -> (r: String)
    ensures
        r@ == failure_details(result@),
{
    let stderr = chars_of(result.stderr.as_str());
    let error = trim(stderr.as_slice());
    let prefix = chars_of("error: ");
    let details: &[char] = if starts_with(error, prefix.as_slice()) {
        slice_subrange(error, prefix.len(), error.len())
    } else {
        error
    };
    assert("error: "@.is_prefix_of(error@) ==> details@ == error@.skip("error: "@.len() as int));
    if details.len() > 0 {
        return text_of(details);
    }
    let stdout = chars_of(result.stdout.as_str());
    let output = trim(stdout.as_slice());
    if output.len() > 0 {
        text_of(output)
    } else {
        concat2("exit code ", int_text(result.code).as_str())
    }
}

/// The message about a failed command.
pub open spec fn failure_message(display: Seq<char>, outcome: CommandOutcome) -> Seq<char> {
    "Command failed: "@ + display + "\n"@ + failure_details(outcome)
}

/// Accepts the result of a command, unless failures count and it failed.
fn checked_result(display: &str, check: bool, result: CommandResult) -> (r: Result<
    CommandResult,
    String,
>)
    ensures
        match r {
            Ok(accepted) => !(check && result.code != 0) && accepted == result,
            Err(message) => check && result.code != 0 && message@ == failure_message(
                display@,
                result@,
            ),
        },
{
    if check && result.code != 0 {
        let mut message = concat2("Command failed: ", display);
        message.append("\n");
        message.append(command_failure(&result).as_str());
        Err(message)
    } else {
        Ok(result)
    }
}

/// What became of an attempt to run a command.
#[derive(Debug, Clone, PartialEq, Eq)]
pub enum CommandAttempt {
    NotStarted,
    NotAwaited,
    TimedOut,
    StdoutUnread,
    StderrUnread,
    /// The command ended; a command that was stopped by a signal has no exit code.
    Exited { code: Option<i32>, stdout: String, stderr: String },
}

/// The exit code that counts: a missing one counts as a failure.
pub open spec fn effective_code(code: Option<i32>) -> i32 {
    match code {
        Some(code) => code,
        None => 1,
    }
}

/// Why an attempt left no result, if it left none.
pub open spec fn attempt_trouble(attempt: CommandAttempt) -> Option<Seq<char>> {
    match attempt {
        CommandAttempt::NotStarted => Some("Failed to execute command: "@),
        CommandAttempt::NotAwaited => Some("Failed waiting for command: "@),
        CommandAttempt::TimedOut => Some("Command timed out: "@),
        CommandAttempt::StdoutUnread => Some("Failed reading stdout: "@),
        CommandAttempt::StderrUnread => Some("Failed reading stderr: "@),
        CommandAttempt::Exited { .. } => None,
    }
}

/// What an attempt left behind, if it left a result.
pub open spec fn attempt_outcome(attempt: CommandAttempt) -> CommandOutcome {
    CommandOutcome {
        code: effective_code(attempt->code) as int,
        stdout: attempt->stdout@,
        stderr: attempt->stderr@,
    }
}

/// The result of running a command: an error if there is no command, if it could not
/// be run to its end, or if failures count and it failed.
pub fn command_result(args: &Vec<String>, check: bool, attempt: CommandAttempt) -> (r: Result<
    CommandResult,
    String,
>)
    ensures
        ({
            let display = joined(texts(args@), " "@);
            match r {
                Ok(result) => args@.len() > 0 && attempt is Exited && !(check
                    && effective_code(attempt->code) != 0) && result@ == attempt_outcome(attempt),
                Err(message) => if args@.len() == 0 {
                    message@ == "No command provided"@
                } else {
                    match attempt_trouble(attempt) {
                        Some(trouble) => message@ == trouble + display,
                        None => check && effective_code(attempt->code) != 0 && message@
                            == failure_message(display, attempt_outcome(attempt)),
                    }
                },
            }
        }),
{
    if args.len() == 0 {
        return Err("No command provided".to_owned());
    }
    let display = command_display(args);
    match attempt {
        CommandAttempt::NotStarted => Err(
            concat2("Failed to execute command: ", display.as_str()),
        ),
        CommandAttempt::NotAwaited => Err(
            concat2("Failed waiting for command: ", display.as_str()),
        ),
        CommandAttempt::TimedOut => Err(concat2("Command timed out: ", display.as_str())),
        CommandAttempt::StdoutUnread => Err(concat2("Failed reading stdout: ", display.as_str())),
        CommandAttempt::StderrUnread => Err(concat2("Failed reading stderr: ", display.as_str())),
        CommandAttempt::Exited { code, stdout, stderr } => {
            let code: i32 = match code {
                Some(code) => code,
                None => 1,
            };
            checked_result(display.as_str(), check, CommandResult { code, stdout, stderr })
        },
    }
}

/// The message about a program that is not installed.
pub fn missing_command(name: &str) -> (r: String)
    ensures
        r@ == "Required command not found in PATH: "@ + name@,
{
    concat2("Required command not found in PATH: ", name)
}

// ---------------------------------------------------------------------------
// The commands
// ---------------------------------------------------------------------------

/// The known Bluetooth devices.
pub fn devices_command() -> (r: CommandLine)
    ensures
        r@ == (CommandModel {
            args: seq!["bluetoothctl"@, "devices"@],
            timeout_seconds: 10,
            check: true,
        }),
{
    let r = command(["bluetoothctl", "devices"].as_slice(), 10, true);
    assert(r@.args =~= seq!["bluetoothctl"@, "devices"@]);
    r
}

/// What the Bluetooth daemon knows of a device.
pub fn info_command(mac: &str) -> (r: CommandLine)
    ensures
        r@ == (CommandModel {
            args: seq!["bluetoothctl"@, "info"@, mac@],
            timeout_seconds: 10,
            check: false,
        }),
{
    let r = command(["bluetoothctl", "info", mac].as_slice(), 10, false);
    assert(r@.args =~= seq!["bluetoothctl"@, "info"@, mac@]);
    r
}

/// The objects of the Bluetooth daemon on the system bus.
pub fn tree_command() -> (r: CommandLine)
    ensures
        r@ == (CommandModel {
            args: seq!["busctl"@, "--system"@, "tree"@, "org.bluez"@],
            timeout_seconds: 10,
            check: false,
        }),
{
    let r = command(["busctl", "--system", "tree", "org.bluez"].as_slice(), 10, false);
    assert(r@.args =~= seq!["busctl"@, "--system"@, "tree"@, "org.bluez"@]);
    r
}

/// One property of a device object.
pub fn property_command(path: &str, prop: &str) -> (r: CommandLine)
    ensures
        r@ == (CommandModel {
            args: seq![
                "busctl"@,
                "--json=short"@,
                "--system"@,
                "get-property"@,
                "org.bluez"@,
                path@,
                "org.bluez.Device1"@,
                prop@,
            ],
            timeout_seconds: 10,
            check: false,
        }),
{
    let args = [
        "busctl",
        "--json=short",
        "--system",
        "get-property",
        "org.bluez",
        path,
        "org.bluez.Device1",
        prop,
    ];
    let r = command(args.as_slice(), 10, false);
    assert(r@.args =~= seq![
        "busctl"@,
        "--json=short"@,
        "--system"@,
        "get-property"@,
        "org.bluez"@,
        path@,
        "org.bluez.Device1"@,
        prop@,
    ]);
    r
}

/// The name of the default sink.
pub fn default_sink_command() -> (r: CommandLine)
    ensures
        r@ == (CommandModel {
            args: seq!["pactl"@, "get-default-sink"@],
            timeout_seconds: 10,
            check: false,
        }),
{
    let r = command(["pactl", "get-default-sink"].as_slice(), 10, false);
    assert(r@.args =~= seq!["pactl"@, "get-default-sink"@]);
    r
}

/// The sinks.
pub fn sinks_command() -> (r: CommandLine)
    ensures
        r@ == (CommandModel {
            args: seq!["pactl"@, "list"@, "short"@, "sinks"@],
            timeout_seconds: 10,
            check: true,
        }),
{
    let r = command(["pactl", "list", "short", "sinks"].as_slice(), 10, true);
    assert(r@.args =~= seq!["pactl"@, "list"@, "short"@, "sinks"@]);
    r
}

/// The cards.
pub fn cards_command() -> (r: CommandLine)
    ensures
        r@ == (CommandModel {
            args: seq!["pactl"@, "list"@, "short"@, "cards"@],
            timeout_seconds: 10,
            check: true,
        }),
{
    let r = command(["pactl", "list", "short", "cards"].as_slice(), 10, true);
    assert(r@.args =~= seq!["pactl"@, "list"@, "short"@, "cards"@]);
    r
}

/// The running streams.
pub fn sink_inputs_command() -> (r: CommandLine)
    ensures
        r@ == (CommandModel {
            args: seq!["pactl"@, "list"@, "short"@, "sink-inputs"@],
            timeout_seconds: 10,
            check: false,
        }),
{
    let r = command(["pactl", "list", "short", "sink-inputs"].as_slice(), 10, false);
    assert(r@.args =~= seq!["pactl"@, "list"@, "short"@, "sink-inputs"@]);
    r
}

/// Makes a sink the default one.
pub fn set_default_sink_command(sink_name: &str) -> (r: CommandLine)
    ensures
        r@ == (CommandModel {
            args: seq!["pactl"@, "set-default-sink"@, sink_name@],
            timeout_seconds: 10,
            check: true,
        }),
{
    let r = command(["pactl", "set-default-sink", sink_name].as_slice(), 10, true);
    assert(r@.args =~= seq!["pactl"@, "set-default-sink"@, sink_name@]);
    r
}

/// Switches a card to high quality playback.
pub fn set_profile_command(card_name: &str) -> (r: CommandLine)
    ensures
        r@ == (CommandModel {
            args: seq!["pactl"@, "set-card-profile"@, card_name@, "a2dp-sink"@],
            timeout_seconds: 10,
            check: false,
        }),
{
    let r = command(["pactl", "set-card-profile", card_name, "a2dp-sink"].as_slice(), 10, false);
    assert(r@.args =~= seq!["pactl"@, "set-card-profile"@, card_name@, "a2dp-sink"@]);
    r
}

/// Restarts the audio services of the user.
pub fn restart_audio_command() -> (r: CommandLine)
    ensures
        r@ == (CommandModel {
            args: seq![
                "systemctl"@,
                "--user"@,
                "restart"@,
                "wireplumber"@,
                "pipewire"@,
                "pipewire-pulse"@,
            ],
            timeout_seconds: 20,
            check: true,
        }),
{
    let args = ["systemctl", "--user", "restart", "wireplumber", "pipewire", "pipewire-pulse"];
    let r = command(args.as_slice(), 20, true);
    assert(r@.args =~= seq![
        "systemctl"@,
        "--user"@,
        "restart"@,
        "wireplumber"@,
        "pipewire"@,
        "pipewire-pulse"@,
    ]);
    r
}

/// Stops scanning for devices.
pub fn scan_off_command() -> (r: CommandLine)
    ensures
        r@ == (CommandModel {
            args: seq!["bluetoothctl"@, "scan"@, "off"@],
            timeout_seconds: 8,
            check: false,
        }),
{
    let r = command(["bluetoothctl", "scan", "off"].as_slice(), 8, false);
    assert(r@.args =~= seq!["bluetoothctl"@, "scan"@, "off"@]);
    r
}

/// Connects a device.
pub fn connect_command(mac: &str) -> (r: CommandLine)
    ensures
        r@ == (CommandModel {
            args: seq!["bluetoothctl"@, "connect"@, mac@],
            timeout_seconds: 20,
            check: false,
        }),
{
    let r = command(["bluetoothctl", "connect", mac].as_slice(), 20, false);
    assert(r@.args =~= seq!["bluetoothctl"@, "connect"@, mac@]);
    r
}

/// Pairs a device.
pub fn pair_command(mac: &str) -> (r: CommandLine)
    ensures
        r@ == (CommandModel {
            args: seq!["bluetoothctl"@, "pair"@, mac@],
            timeout_seconds: 25,
            check: false,
        }),
{
    let r = command(["bluetoothctl", "pair", mac].as_slice(), 25, false);
    assert(r@.args =~= seq!["bluetoothctl"@, "pair"@, mac@]);
    r
}

/// Trusts a device.
pub fn trust_command(mac: &str) -> (r: CommandLine)
    ensures
        r@ == (CommandModel {
            args: seq!["bluetoothctl"@, "trust"@, mac@],
            timeout_seconds: 10,
            check: false,
        }),
{
    let r = command(["bluetoothctl", "trust", mac].as_slice(), 10, false);
    assert(r@.args =~= seq!["bluetoothctl"@, "trust"@, mac@]);
    r
}

/// Disconnects a device.
pub fn disconnect_command(mac: &str) -> (r: CommandLine)
    ensures
        r@ == (CommandModel {
            args: seq!["bluetoothctl"@, "disconnect"@, mac@],
            timeout_seconds: 12,
            check: false,
        }),
{
    let r = command(["bluetoothctl", "disconnect", mac].as_slice(), 12, false);
    assert(r@.args =~= seq!["bluetoothctl"@, "disconnect"@, mac@]);
    r
}

/// Disconnects a device before it is connected anew.
pub fn reset_command(mac: &str) -> (r: CommandLine)
    ensures
        r@ == (CommandModel {
            args: seq!["bluetoothctl"@, "disconnect"@, mac@],
            timeout_seconds: 10,
            check: false,
        }),
{
    let r = command(["bluetoothctl", "disconnect", mac].as_slice(), 10, false);
    assert(r@.args =~= seq!["bluetoothctl"@, "disconnect"@, mac@]);
    r
}

/// Moves one stream to a sink.
pub fn move_stream_command(sink_input: i32, sink_name: &str) -> (r: CommandLine)
    ensures
        r@ == (CommandModel {
            args: seq![
                "pactl"@,
                "move-sink-input"@,
                signed_decimal(sink_input as int),
                sink_name@,
            ],
            timeout_seconds: 10,
            check: false,
        }),
{
    let id = int_text(sink_input);
    let r = command(["pactl", "move-sink-input", id.as_str(), sink_name].as_slice(), 10, false);
    assert(r@.args =~= seq![
        "pactl"@,
        "move-sink-input"@,
        signed_decimal(sink_input as int),
        sink_name@,
    ]);
    r
}

} // verus!
