//! Calls into other crates, each behind a function with a contract.

use vstd::prelude::*;

use crate::text::{is_white, optional_text};

verus! {

// ---------------------------------------------------------------------------
// Hexadecimal text
// ---------------------------------------------------------------------------

/// The lower case hexadecimal digit that is worth `d`.
pub open spec fn hex_digit(d: int) -> char {
    if d < 10 {
        (48 + d) as char
    } else {
        (87 + d) as char
    }
}

/// Two hexadecimal digits for each byte, the more significant one first.
pub open spec fn hex_text(data: Seq<u8>) -> Seq<char> {
    Seq::new(
        2 * data.len(),
        |i: int|
            if i % 2 == 0 {
                hex_digit(data[i / 2] as int / 16)
            } else {
                hex_digit(data[i / 2] as int % 16)
            },
    )
}

/// `hex::encode` writes every byte as two lower case hexadecimal digits.
#[verifier::external_body]
pub(crate) fn hex_encode(data: &[u8]) -> (r: String)
    ensures
        r@ == hex_text(data@),
{
    hex::encode(data)
}

// ---------------------------------------------------------------------------
// Bytes as text
// ---------------------------------------------------------------------------

/// What `String::from_utf8_lossy` makes of `raw`.
pub uninterp spec fn lossy_text(raw: Seq<u8>) -> Seq<char>;

/// `String::from_utf8_lossy` turns any bytes into text.  Bytes that are valid
/// UTF-8 become the characters that they encode; how many replacement characters
/// stand for bytes that are not is left to the name.
#[verifier::external_body]
pub(crate) fn decode_lossy(raw: &[u8]) -> (r: String)
    ensures
        r@ == lossy_text(raw@),
        vstd::utf8::valid_utf8(raw@) ==> r@ == vstd::utf8::decode_utf8(raw@),
{
    String::from_utf8_lossy(raw).into_owned()
}

// ---------------------------------------------------------------------------
// Regular expressions
// ---------------------------------------------------------------------------

/// A terminal colour sequence: escape, an opening bracket, parameters, `m`.
pub const COLOUR_PATTERN: &'static str = r"\x1b\[[0-9;]*m";

/// The lines and blanks that a tree listing draws in front of an entry.
pub const TREE_PATTERN: &'static str = r"^[\s├└─]+";

/// The number of characters that `s` starts with which are digits or semicolons.
pub open spec fn parameter_len(s: Seq<char>) -> nat
    decreases s.len(),
{
    if s.len() > 0 && ('0' <= s[0] <= '9' || s[0] == ';') {
        1 + parameter_len(s.drop_first())
    } else {
        0
    }
}

/// The length of the colour sequence that `s` starts with, or 0 if it starts with none.
pub open spec fn colour_len(s: Seq<char>) -> nat {
    if s.len() >= 3 && s[0] == '\u{1b}' && s[1] == '[' {
        let end = 2 + parameter_len(s.skip(2)) as int;
        if end < s.len() && s[end] == 'm' {
            (end + 1) as nat
        } else {
            0
        }
    } else {
        0
    }
}

/// `s` without its colour sequences.
pub open spec fn without_colour(s: Seq<char>) -> Seq<char>
    decreases s.len(),
{
    if s.len() == 0 {
        s
    } else if colour_len(s) > 0 {
        without_colour(s.skip(colour_len(s) as int))
    } else {
        seq![s[0]] + without_colour(s.drop_first())
    }
}

/// The number of characters that `s` starts with which are white or draw a tree.
pub open spec fn tree_len(s: Seq<char>) -> nat
    decreases s.len(),
{
    if s.len() > 0 && (is_white(s[0]) || s[0] == '├' || s[0] == '└' || s[0] == '─') {
        1 + tree_len(s.drop_first())
    } else {
        0
    }
}

/// `s` without the tree drawing that it starts with.
pub open spec fn without_tree(s: Seq<char>) -> Seq<char> {
    s.skip(tree_len(s) as int)
}

/// `Regex::replace_all` replaces every match of `pattern`, from left to right.  The
/// matches of the colour pattern, which `Regex::new` accepts, are the colour sequences.
#[verifier::external_body]
pub(crate) fn replace_all(pattern: &str, text: &str, replacement: &str) -> (r: Option<String>)
    requires
        pattern@ == COLOUR_PATTERN@,
        replacement@.len() == 0,
    ensures
        optional_text(r) == Some(without_colour(text@)),
{
    match regex::Regex::new(pattern) {
        Ok(regex) => Some(regex.replace_all(text, replacement).into_owned()),
        Err(_) => None,
    }
}

/// `Regex::replace` replaces the first match of `pattern`.  The tree pattern, which
/// `Regex::new` accepts, matches at the start only, the longest run of white and drawing
/// characters.
#[verifier::external_body]
pub(crate) fn replace_first(pattern: &str, text: &str, replacement: &str) -> (r: Option<String>)
    requires
        pattern@ == TREE_PATTERN@,
        replacement@.len() == 0,
    ensures
        optional_text(r) == Some(without_tree(text@)),
{
    match regex::Regex::new(pattern) {
        Ok(regex) => Some(regex.replace(text, replacement).into_owned()),
        Err(_) => None,
    }
}

/// Removes the colour sequences from `line`.
pub fn strip_colour(line: &str) -> (r: String)
    ensures
        r@ == without_colour(line@),
{
    proof {
        reveal_strlit("");
    }
    replace_all(COLOUR_PATTERN, line, "").unwrap()
}

} // verus!
