//! What commands mean: why one failed, what an attempt to connect or disconnect came to,
//! and which command takes a step.

use vstd::prelude::*;

use crate::command::{
    attempt_outcome, attempt_trouble, effective_code, failure_details, failure_message,
    CommandAttempt, CommandOutcome,
};
use crate::connect::{
    attempt_succeeded, combined_output, connect_failure, disconnected_after, is_connected_outcome,
    step_after, step_args, value_or, ConnectEvent, ConnectOutcome, ConnectStep,
};
use crate::text::{is_white, lower, occurs_in, signed_decimal};
use crate::text_laws::{all_white, law_occurs, law_trimmed};

verus! {

// ---------------------------------------------------------------------------
// Failures
// ---------------------------------------------------------------------------

/// A command failed because of what it printed as an error, without white characters
/// around it and without the words `error: ` in front.
pub proof fn law_error_output_explains(
    outcome: CommandOutcome,
    before: Seq<char>,
    text: Seq<char>,
    behind: Seq<char>,
)
    requires
        all_white(before),
        all_white(behind),
        text.len() > 0,
        !is_white(text.last()),
    ensures
        outcome.stderr == before + ("error: "@ + text) + behind ==> failure_details(outcome)
            == text,
        outcome.stderr == before + text + behind && !is_white(text[0])
            && !"error: "@.is_prefix_of(text) ==> failure_details(outcome) == text,
{
    reveal_strlit("error: ");
    if outcome.stderr == before + ("error: "@ + text) + behind {
        let whole = "error: "@ + text;
        assert(whole.last() == text.last());
        law_trimmed(before, whole, behind);
        assert(whole.subrange(0, 7) =~= "error: "@);
        assert(whole.skip(7) =~= text);
    }
    if outcome.stderr == before + text + behind && !is_white(text[0]) {
        law_trimmed(before, text, behind);
    }
}

/// A command that printed nothing as an error failed because of what it printed, and one
/// that printed nothing at all because of its exit code.
pub proof fn law_output_explains(
    outcome: CommandOutcome,
    before: Seq<char>,
    text: Seq<char>,
    behind: Seq<char>,
)
    requires
        all_white(outcome.stderr),
        all_white(before),
        all_white(behind),
        text.len() > 0 ==> !is_white(text[0]) && !is_white(text.last()),
        outcome.stdout == before + text + behind,
    ensures
        text.len() > 0 ==> failure_details(outcome) == text,
        text.len() == 0 ==> failure_details(outcome) == "exit code "@ + signed_decimal(
            outcome.code,
        ),
{
    reveal_strlit("error: ");
    let nothing = Seq::<char>::empty();
    assert(outcome.stderr =~= outcome.stderr + nothing + nothing);
    law_trimmed(outcome.stderr, nothing, nothing);
    law_trimmed(before, text, behind);
}

/// The message about a failed command names the command and, on a line of its own, the
/// reason.
pub proof fn law_failure_message(display: Seq<char>, outcome: CommandOutcome)
    ensures
        failure_message(display, outcome) == "Command failed: "@ + display + seq!['\n']
            + failure_details(outcome),
{
    reveal_strlit("\n");
    assert("\n"@ =~= seq!['\n']);
}

/// An attempt that ended has the exit code and the output of the command; without an exit
/// code it counts as failed with code 1.
pub proof fn law_attempts(attempt: CommandAttempt)
    ensures
        match attempt {
            CommandAttempt::NotStarted => attempt_trouble(attempt) == Some(
                "Failed to execute command: "@,
            ),
            CommandAttempt::NotAwaited => attempt_trouble(attempt) == Some(
                "Failed waiting for command: "@,
            ),
            CommandAttempt::TimedOut => attempt_trouble(attempt) == Some("Command timed out: "@),
            CommandAttempt::StdoutUnread => attempt_trouble(attempt) == Some(
                "Failed reading stdout: "@,
            ),
            CommandAttempt::StderrUnread => attempt_trouble(attempt) == Some(
                "Failed reading stderr: "@,
            ),
            CommandAttempt::Exited { code, stdout, stderr } => {
                &&& attempt_trouble(attempt) is None
                &&& attempt_outcome(attempt).stdout == stdout@
                &&& attempt_outcome(attempt).stderr == stderr@
                &&& code matches Some(c) ==> attempt_outcome(attempt).code == c && effective_code(
                    code,
                ) == c
                &&& code is None ==> attempt_outcome(attempt).code == 1 && effective_code(code)
                    == 1
            },
        },
{
}

// ---------------------------------------------------------------------------
// Connecting and disconnecting
// ---------------------------------------------------------------------------

/// The output of a command holds the words, in upper or lower case letters.
pub open spec fn prints(outcome: CommandOutcome, words: Seq<char>) -> bool {
    exists|a: Seq<char>, b: Seq<char>|
        lower(outcome.stdout + seq!['\n'] + outcome.stderr) == #[trigger] (a + words + b)
}

proof fn lemma_prints(outcome: CommandOutcome, words: Seq<char>)
    ensures
        prints(outcome, words) <==> occurs_in(words, combined_output(outcome)),
{
    reveal_strlit("\n");
    assert("\n"@ =~= seq!['\n']);
    law_occurs(words, combined_output(outcome));
}

/// An attempt to connect succeeded if and only if the command did or printed that the
/// connection was successful.
pub proof fn law_connection_signs(outcome: CommandOutcome)
    ensures
        attempt_succeeded(outcome) <==> outcome.code == 0 || prints(
            outcome,
            "connection successful"@,
        ),
{
    lemma_prints(outcome, "connection successful"@);
}

/// A device is disconnected if and only if the command succeeded, or printed that it was
/// successful, or that the device was not connected.
pub proof fn law_disconnection_signs(outcome: CommandOutcome)
    ensures
        disconnected_after(outcome) <==> outcome.code == 0 || prints(outcome, "successful"@)
            || prints(outcome, "not connected"@),
{
    lemma_prints(outcome, "successful"@);
    lemma_prints(outcome, "not connected"@);
}

/// What counts as a sign counts on both outputs, and as it is usually written.
pub proof fn law_signs_anywhere(code: int, a: Seq<char>, b: Seq<char>, other: Seq<char>)
    ensures
        attempt_succeeded(
            CommandOutcome { code, stdout: a + "Connection successful"@ + b, stderr: other },
        ),
        attempt_succeeded(
            CommandOutcome { code, stdout: other, stderr: a + "Connection successful"@ + b },
        ),
        disconnected_after(
            CommandOutcome { code, stdout: a + "Successful disconnected"@ + b, stderr: other },
        ),
        disconnected_after(
            CommandOutcome { code, stdout: other, stderr: a + "Device not connected"@ + b },
        ),
{
    reveal_strlit("Connection successful");
    reveal_strlit("connection successful");
    reveal_strlit("Successful disconnected");
    reveal_strlit("Device not connected");
    reveal_strlit("successful");
    reveal_strlit("not connected");
    let one = a + "Connection successful"@ + b;
    assert(lower("Connection successful"@) =~= "connection successful"@);
    let first = CommandOutcome { code, stdout: one, stderr: other };
    assert(lower(one + seq!['\n'] + other) =~= lower(a) + "connection successful"@ + lower(
        b + seq!['\n'] + other,
    ));
    law_connection_signs(first);
    let second = CommandOutcome { code, stdout: other, stderr: one };
    assert(lower(other + seq!['\n'] + one) =~= lower(other + seq!['\n'] + a)
        + "connection successful"@ + lower(b));
    law_connection_signs(second);
    let two = a + "Successful disconnected"@ + b;
    let third = CommandOutcome { code, stdout: two, stderr: other };
    let rest = "Successful disconnected"@.skip(10);
    assert(lower("Successful disconnected"@.take(10)) =~= "successful"@);
    assert(lower(two + seq!['\n'] + other) =~= lower(a) + "successful"@ + lower(
        rest + b + seq!['\n'] + other,
    )) by {
        assert("Successful disconnected"@ =~= "Successful disconnected"@.take(10) + rest);
    }
    law_disconnection_signs(third);
    let three = a + "Device not connected"@ + b;
    let fourth = CommandOutcome { code, stdout: other, stderr: three };
    let front = "Device not connected"@.take(7);
    assert(lower("Device not connected"@.skip(7)) =~= "not connected"@);
    assert(lower(other + seq!['\n'] + three) =~= lower(other + seq!['\n'] + a + front)
        + "not connected"@ + lower(b)) by {
        assert("Device not connected"@ =~= front + "Device not connected"@.skip(7));
    }
    law_disconnection_signs(fourth);
}

/// A text stands for itself, and the fallback stands for an empty one.
pub proof fn law_value_or(value: Seq<char>, fallback: Seq<char>)
    ensures
        value.len() > 0 ==> value_or(value, fallback) == value,
        value.len() == 0 ==> value_or(value, fallback) == fallback,
{
}

/// A failed attempt is explained by all that it printed, in lower case and without white
/// characters around it, and where that is nothing by what was tried.  Nothing is to be
/// explained of an attempt that did not fail.
pub proof fn law_connect_failures(
    outcome: ConnectOutcome,
    printed: CommandOutcome,
    before: Seq<char>,
    text: Seq<char>,
    behind: Seq<char>,
)
    requires
        all_white(before),
        all_white(behind),
        text.len() > 0 ==> !is_white(text[0]) && !is_white(text.last()),
        lower(printed.stdout + seq!['\n'] + printed.stderr) == before + text + behind,
    ensures
        match outcome {
            ConnectOutcome::Failed => connect_failure(outcome, printed) == Some(
                if text.len() > 0 {
                    text
                } else {
                    "connect failed"@
                },
            ),
            ConnectOutcome::FailedAfterPairing => connect_failure(outcome, printed) == Some(
                if text.len() > 0 {
                    text
                } else {
                    "connect failed after pair"@
                },
            ),
            _ => connect_failure(outcome, printed) is None,
        },
        is_connected_outcome(outcome) <==> connect_failure(outcome, printed) is None,
{
    reveal_strlit("\n");
    assert("\n"@ =~= seq!['\n']);
    law_trimmed(before, text, behind);
}

/// An event that answers another question repeats the step, and nothing follows the end.
pub proof fn law_foreign_answers(pair: bool, step: ConnectStep, event: ConnectEvent)
    ensures
        match step {
            ConnectStep::ScanOff
            | ConnectStep::Pair
            | ConnectStep::Trust => !(event is Done) ==> step_after(pair, step, event) == step,
            ConnectStep::AskConnected => !(event is Connected) ==> step_after(pair, step, event)
                == step,
            ConnectStep::Connect | ConnectStep::Reconnect => !(event is Attempt) ==> step_after(
                pair,
                step,
                event,
            ) == step,
            ConnectStep::Finished { .. } => step_after(pair, step, event) == step,
        },
{
}

/// The commands that take the steps, for every address; a question and the end take none.
pub proof fn law_connect_commands(step: ConnectStep, mac: Seq<char>)
    ensures
        step is AskConnected || step is Finished <==> step_args(step, mac) is None,
        step_args(step, mac) matches Some(command) ==> {
            &&& !command.check
            &&& command.args.len() == 3
            &&& command.args[0] == "bluetoothctl"@
            &&& step is ScanOff ==> command.args[1] == "scan"@ && command.args[2] == "off"@
                && command.timeout_seconds == 8
            &&& step is Connect || step is Reconnect ==> command.args[1] == "connect"@
                && command.args[2] == mac && command.timeout_seconds == 20
            &&& step is Pair ==> command.args[1] == "pair"@ && command.args[2] == mac
                && command.timeout_seconds == 25
            &&& step is Trust ==> command.args[1] == "trust"@ && command.args[2] == mac
                && command.timeout_seconds == 10
        },
{
}

} // verus!
