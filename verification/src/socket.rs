//! The control channel's address, and what the calls on its socket mean.

use vstd::prelude::*;

use crate::text::{
    chars_of, concat2, find_char, hex_octet, parse_hex_octet, until_char, views,
};
use crate::timing::MILLISECOND;
use vstd::slice::slice_subrange;

verus! {

pub const AAP_PSM: u16 = 0x1001;

/// The level and the name of the socket option that holds the link mode.
pub const SOL_L2CAP: i32 = 6;

pub const L2CAP_LM: i32 = 0x03;

/// The link mode of the channel: the device has to be authenticated (2), and what is
/// said is encrypted (4).
pub const LINK_MODE: i32 = 0x0006;

/// The greatest packet that is read at once.
pub const PACKET_SIZE: usize = 4096;

/// The texts between the separators.
pub open spec fn split_at(s: Seq<char>, separator: char) -> Seq<Seq<char>>
    decreases s.len(),
{
    let n = until_char(s, separator) as int;
    if n < s.len() {
        seq![s.take(n)] + split_at(s.skip(n + 1), separator)
    } else {
        seq![s]
    }
}

fn split(s: &[char], separator: char) -> (r: Vec<&[char]>)
    ensures
        views(r@) == split_at(s@, separator),
{
    let mut r: Vec<&[char]> = Vec::new();
    let mut rest: &[char] = s;
    let mut n: usize = find_char(rest, separator);
    assert(views(r@) + split_at(rest@, separator) == split_at(s@, separator));
    while n < rest.len()
        invariant
            n == until_char(rest@, separator),
            n <= rest@.len(),
            views(r@) + split_at(rest@, separator) == split_at(s@, separator),
        decreases rest@.len(),
    {
        let ghost before = r@;
        let ghost old_rest = rest@;
        r.push(slice_subrange(rest, 0, n));
        rest = slice_subrange(rest, n + 1, rest.len());
        assert(rest@ == old_rest.skip(n + 1));
        assert(views(r@) == views(before).push(old_rest.take(n as int)));
        assert(views(r@) + split_at(rest@, separator) == views(before) + split_at(
            old_rest,
            separator,
        ));
        n = find_char(rest, separator);
    }
    let ghost before = r@;
    r.push(rest);
    assert(views(r@) == views(before).push(rest@));
    assert(split_at(rest@, separator) == seq![rest@]);
    r
}

/// The bytes of a Bluetooth address, the last part first: six numbers in base 16
/// with colons between them.
pub open spec fn bdaddr_of(mac: Seq<char>) -> Option<Seq<u8>> {
    let parts = split_at(mac, ':');
    if parts.len() == 6 && forall|i: int|
        0 <= i < 6 ==> #[trigger] hex_octet(parts[i]) is Some {
        Some(Seq::new(6, |i: int| hex_octet(parts[5 - i])->0))
    } else {
        None
    }
}

pub open spec fn invalid_mac_message(mac: Seq<char>) -> Seq<char> {
    "Invalid Bluetooth MAC address: "@ + mac
}

pub fn parse_bdaddr(mac: &str) -> (r: Result<[u8; 6], String>)
    ensures
        match r {
            Ok(bytes) => bdaddr_of(mac@) == Some(bytes@),
            Err(message) => bdaddr_of(mac@) is None && message@ == invalid_mac_message(mac@),
        },
{
    let chars = chars_of(mac);
    let parts = split(chars.as_slice(), ':');
    let ghost models = split_at(mac@, ':');
    assert(models.len() == parts@.len());
    if parts.len() != 6 {
        return Err(concat2("Invalid Bluetooth MAC address: ", mac));
    }
    let mut bytes: [u8; 6] = [0u8; 6];
    let mut i: usize = 0;
    while i < 6
        invariant
            i <= 6,
            parts@.len() == 6,
            models == views(parts@),
            models == split_at(mac@, ':'),
            forall|j: int| 0 <= j < i ==> hex_octet(#[trigger] models[5 - j]) == Some(bytes@[j]),
        decreases 6 - i,
    {
        assert(models[5 - i] == parts@[5 - i]@);
        match parse_hex_octet(parts[5 - i]) {
            Some(byte) => {
                bytes[i] = byte;
            },
            None => {
                assert(hex_octet(models[5 - i]) is None);
                return Err(concat2("Invalid Bluetooth MAC address: ", mac));
            },
        }
        i += 1;
    }
    proof {
        assert forall|k: int| 0 <= k < 6 implies #[trigger] hex_octet(models[k]) is Some by {
            let j = 5 - k;
            assert(hex_octet(models[5 - j]) == Some(bytes@[j]));
        }
        let expected = Seq::new(6, |i: int| hex_octet(models[5 - i])->0);
        assert forall|j: int| 0 <= j < 6 implies bytes@[j] == expected[j] by {
            assert(hex_octet(models[5 - j]) == Some(bytes@[j]));
        }
        assert(bytes@ =~= expected);
    }
    Ok(bytes)
}

/// The bytes of a number in the order of the channel: the low one first.
pub fn htobs(value: u16) -> (r: [u8; 2])
    ensures
        r@[0] == value % 256,
        r@[1] == value / 256,
{
    [(value % 256) as u8, (value / 256) as u8]
}

/// A span of time in whole milliseconds, as far as the call that waits can take it.
pub open spec fn whole_millis(timeout: u128) -> int {
    if timeout / MILLISECOND < i32::MAX {
        (timeout / MILLISECOND) as int
    } else {
        i32::MAX as int
    }
}

pub fn poll_millis(timeout: u128) -> (r: i32)
    ensures
        r == whole_millis(timeout),
{
    let millis: u128 = timeout / MILLISECOND;
    if millis < i32::MAX as u128 {
        millis as i32
    } else {
        i32::MAX
    }
}

/// What waiting for a packet came to.
#[derive(Debug, Clone, Copy, PartialEq, Eq, Structural)]
pub enum Waiting {
    Failed,
    TimedOut,
    Ready,
}

/// Judges the result of the call that waits: below zero for an error, zero for no
/// packet in time.
pub fn after_poll(result: i32) -> (r: Waiting)
    ensures
        r == if result < 0 {
            Waiting::Failed
        } else if result == 0 {
            Waiting::TimedOut
        } else {
            Waiting::Ready
        },
{
    if result < 0 {
        Waiting::Failed
    } else if result == 0 {
        Waiting::TimedOut
    } else {
        Waiting::Ready
    }
}

/// What reading a packet came to.
#[derive(Debug, Clone, Copy, PartialEq, Eq, Structural)]
pub enum Reading {
    Failed,
    Nothing,
    Packet { length: usize },
}

/// Judges the result of the call that reads: the length of the packet, or below
/// zero for an error.  An error that only says that there is nothing to read yet
/// is no failure.
pub fn after_recv(received: isize, not_yet: bool) -> (r: Reading)
    ensures
        r == if received >= 0 {
            Reading::Packet { length: received as usize }
        } else if not_yet {
            Reading::Nothing
        } else {
            Reading::Failed
        },
{
    if received >= 0 {
        Reading::Packet { length: received as usize }
    } else if not_yet {
        Reading::Nothing
    } else {
        Reading::Failed
    }
}

} // verus!
