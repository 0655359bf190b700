//! Times and spans of time, in nanoseconds.

use vstd::prelude::*;

verus! {

pub const MILLISECOND: u128 = 1_000_000;

pub const SECOND: u128 = 1_000_000_000;

/// The greater of two spans.
pub open spec fn longer(a: u128, b: u128) -> u128 {
    if a < b {
        b
    } else {
        a
    }
}

/// The lesser of two spans.
pub open spec fn shorter(a: u128, b: u128) -> u128 {
    if b < a {
        b
    } else {
        a
    }
}

/// The time that passed from `earlier` to `later`; nothing if `later` is not later.
pub open spec fn span(earlier: u128, later: u128) -> u128 {
    if earlier < later {
        (later - earlier) as u128
    } else {
        0
    }
}

/// The time `length` after `now`, or the last time that can be written.
pub open spec fn after(now: u128, length: u128) -> u128 {
    if now + length <= u128::MAX {
        (now + length) as u128
    } else {
        u128::MAX
    }
}

pub fn at_least(length: u128, least: u128) -> (r: u128)
    ensures
        r == longer(length, least),
{
    if length < least {
        least
    } else {
        length
    }
}

pub fn at_most(length: u128, most: u128) -> (r: u128)
    ensures
        r == shorter(length, most),
{
    if most < length {
        most
    } else {
        length
    }
}

pub fn elapsed(earlier: u128, later: u128) -> (r: u128)
    ensures
        r == span(earlier, later),
{
    if earlier < later {
        later - earlier
    } else {
        0
    }
}

pub fn later_by(now: u128, length: u128) -> (r: u128)
    ensures
        r == after(now, length),
{
    match now.checked_add(length) {
        Some(time) => time,
        None => u128::MAX,
    }
}

} // verus!
