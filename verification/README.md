# linux-airpods-cli

The logic of a small AirPods command line tool for Linux, written in Verus and
proved, with the tool around it.

- `src/` is the library.  It reads what `bluetoothctl`, `busctl` and `pactl` print and
  what the device says on its control channel, decides what is to be done next, and
  says what is shown.  Every function states what it returns; functions whose names
  start with `law` state what holds of several of them.
- `app/` is the `airpods` command: it runs the commands, owns the socket, the clock and
  the files, and follows the steps that the library gives.
- `tests/` runs the library on concrete values.

## How a command runs

Everything that alternates between the system and a decision is a small machine: a
step says what is to be done, and a `..._next` function takes what came of it and
returns the next step.  There is one for finding the device (`discover`), for connecting
it (`connect`), for the flows around that (`link`, `unlink`, `sink_wait`), for making its
sink the default one (`route`), for waking that sink (`wake`), for opening the control
channel (`opening`), for asking the device (`inquiry`, `session`) and for watching it
(`monitor`).

Times are nanoseconds on a clock of the caller.

## What is believed

The library calls `hex`, `regex`, `serde_json` and a few functions of the standard
library that have no specification.  Each such call stands behind one function marked
`external_body`, most of them in `src/adapters.rs` and `src/property.rs`, and the comment
above it says what is believed of it.  One function, `String::push`, is called as it is;
what is believed of it stands in an `assume_specification` in `src/text.rs`.
