//! Plain text: characters, lines, words and numbers.
//!
//! Text is modelled by its sequence of characters.  The executable functions
//! work on slices of characters, so that a part of a text is a subslice.

use vstd::prelude::*;
use vstd::slice::slice_subrange;

verus! {

/// The standard library's `String::push` appends one character to the end of the text.
pub assume_specification[ String::push ](s: &mut String, c: char)
    ensures
        final(s)@ == old(s)@.push(c),
;

// ---------------------------------------------------------------------------
// Characters
// ---------------------------------------------------------------------------

/// The characters with the Unicode property `White_Space`.
pub open spec fn is_white(c: char) -> bool {
    ||| '\u{9}' <= c <= '\u{d}'
    ||| c == ' '
    ||| c == '\u{85}'
    ||| c == '\u{a0}'
    ||| c == '\u{1680}'
    ||| '\u{2000}' <= c <= '\u{200a}'
    ||| c == '\u{2028}'
    ||| c == '\u{2029}'
    ||| c == '\u{202f}'
    ||| c == '\u{205f}'
    ||| c == '\u{3000}'
}

/// Tells whether `c` has the Unicode property `White_Space`.
pub fn is_whitespace(c: char) -> (r: bool)
    ensures
        r == is_white(c),
{
    ('\u{9}' <= c && c <= '\u{d}') || c == ' ' || c == '\u{85}' || c == '\u{a0}' || c == '\u{1680}'
        || ('\u{2000}' <= c && c <= '\u{200a}') || c == '\u{2028}' || c == '\u{2029}' || c
        == '\u{202f}' || c == '\u{205f}' || c == '\u{3000}'
}

/// `c` in lower case, if it is an ASCII letter.
pub open spec fn lower_char(c: char) -> char {
    if 'A' <= c <= 'Z' {
        (c as u32 + 32) as char
    } else {
        c
    }
}

/// `c` in upper case, if it is an ASCII letter.
pub open spec fn upper_char(c: char) -> char {
    if 'a' <= c <= 'z' {
        (c as u32 - 32) as char
    } else {
        c
    }
}

/// ASCII letters in lower case, all other characters as they are.
pub open spec fn lower(s: Seq<char>) -> Seq<char> {
    s.map_values(|c: char| lower_char(c))
}

/// ASCII letters in upper case, all other characters as they are.
pub open spec fn upper(s: Seq<char>) -> Seq<char> {
    s.map_values(|c: char| upper_char(c))
}

/// `s` with every `from` replaced by `to`.
pub open spec fn replaced(s: Seq<char>, from: char, to: char) -> Seq<char> {
    s.map_values(|c: char| if c == from { to } else { c })
}

pub(crate) fn ascii_lower_char(c: char) -> (r: char)
    ensures
        r == lower_char(c),
{
    if 'A' <= c && c <= 'Z' {
        (c as u8 + 32) as char
    } else {
        c
    }
}

pub(crate) fn ascii_upper_char(c: char) -> (r: char)
    ensures
        r == upper_char(c),
{
    if 'a' <= c && c <= 'z' {
        (c as u8 - 32) as char
    } else {
        c
    }
}

// ---------------------------------------------------------------------------
// Between strings and slices of characters
// ---------------------------------------------------------------------------

/// The characters of `s`.
pub(crate) fn chars_of(s: &str) -> (r: Vec<char>)
    ensures
        r@ == s@,
{
    let mut r: Vec<char> = Vec::new();
    for c in iter: s.chars()
        invariant
            iter.seq() == s@,
            r@ == s@.take(iter.index()),
    {
        r.push(c);
    }
    r
}

/// The string made of the characters `s`.
pub(crate) fn text_of(s: &[char]) -> (r: String)
    ensures
        r@ == s@,
{
    let mut r = String::new();
    let mut i: usize = 0;
    while i < s.len()
        invariant
            i <= s@.len(),
            r@ == s@.take(i as int),
        decreases s@.len() - i,
    {
        r.push(s[i]);
        i += 1;
        assert(s@.take(i as int) == s@.take(i - 1).push(s@[i - 1]));
    }
    assert(s@.take(s@.len() as int) == s@);
    r
}

/// What a string that may be missing holds.
pub open spec fn optional_text(s: Option<String>) -> Option<Seq<char>> {
    match s {
        Some(s) => Some(s@),
        None => None,
    }
}

/// What a string slice that may be missing holds.
pub open spec fn optional_str(s: Option<&str>) -> Option<Seq<char>> {
    match s {
        Some(s) => Some(s@),
        None => None,
    }
}

/// Tells whether the two texts are the same.
pub(crate) fn same(s: &[char], t: &[char]) -> (r: bool)
    ensures
        r == (s@ == t@),
{
    if s.len() != t.len() {
        return false;
    }
    let mut i: usize = 0;
    while i < s.len()
        invariant
            i <= s@.len(),
            s@.len() == t@.len(),
            s@.take(i as int) == t@.take(i as int),
        decreases s@.len() - i,
    {
        if s[i] != t[i] {
            return false;
        }
        assert(s@.take(i + 1) == s@.take(i as int).push(s@[i as int]));
        assert(t@.take(i + 1) == t@.take(i as int).push(t@[i as int]));
        i += 1;
    }
    assert(s@.take(s@.len() as int) == s@);
    assert(t@.take(t@.len() as int) == t@);
    true
}

/// Tells whether the two strings are the same.
pub(crate) fn same_text(s: &str, t: &str) -> (r: bool)
    ensures
        r == (s@ == t@),
{
    same(chars_of(s).as_slice(), chars_of(t).as_slice())
}

// ---------------------------------------------------------------------------
// White space at the ends
// ---------------------------------------------------------------------------

/// The number of white characters that `s` starts with.
pub open spec fn white_len(s: Seq<char>) -> nat
    decreases s.len(),
{
    if s.len() == 0 || !is_white(s[0]) {
        0
    } else {
        1 + white_len(s.drop_first())
    }
}

/// `s` without the white characters that it starts with.
pub open spec fn trimmed_start(s: Seq<char>) -> Seq<char> {
    s.skip(white_len(s) as int)
}

/// `s` without the white characters that it ends with.
pub open spec fn trimmed_end(s: Seq<char>) -> Seq<char>
    decreases s.len(),
{
    if s.len() == 0 || !is_white(s.last()) {
        s
    } else {
        trimmed_end(s.drop_last())
    }
}

/// `s` without the white characters that it starts or ends with.
pub open spec fn trimmed(s: Seq<char>) -> Seq<char> {
    trimmed_end(trimmed_start(s))
}

pub proof fn lemma_white_len(s: Seq<char>, n: int)
    requires
        0 <= n <= s.len(),
        forall|i: int| 0 <= i < n ==> is_white(#[trigger] s[i]),
        n < s.len() ==> !is_white(s[n]),
    ensures
        white_len(s) == n,
    decreases s.len(),
{
    if n > 0 {
        assert(is_white(s[0]));
        assert forall|i: int| 0 <= i < n - 1 implies is_white(#[trigger] s.drop_first()[i]) by {
            assert(s.drop_first()[i] == s[i + 1]);
        }
        lemma_white_len(s.drop_first(), n - 1);
    }
}

pub proof fn lemma_trimmed_end(s: Seq<char>, n: int)
    requires
        0 <= n <= s.len(),
        forall|i: int| n <= i < s.len() ==> is_white(#[trigger] s[i]),
        n > 0 ==> !is_white(s[n - 1]),
    ensures
        trimmed_end(s) == s.take(n),
    decreases s.len(),
{
    if n < s.len() {
        assert(is_white(s[s.len() - 1]));
        assert forall|i: int| n <= i < s.drop_last().len() implies is_white(
            #[trigger] s.drop_last()[i],
        ) by {
            assert(s.drop_last()[i] == s[i]);
        }
        lemma_trimmed_end(s.drop_last(), n);
        assert(s.drop_last().take(n) == s.take(n));
    } else {
        assert(s.take(n) == s);
    }
}

pub(crate) fn trim_start(s: &[char]) -> (r: &[char])
    ensures
        r@ == trimmed_start(s@),
{
    let mut n: usize = 0;
    while n < s.len() && is_whitespace(s[n])
        invariant
            n <= s@.len(),
            forall|i: int| 0 <= i < n ==> is_white(#[trigger] s@[i]),
        decreases s@.len() - n,
    {
        n += 1;
    }
    proof {
        lemma_white_len(s@, n as int);
    }
    slice_subrange(s, n, s.len())
}

pub(crate) fn trim_end(s: &[char]) -> (r: &[char])
    ensures
        r@ == trimmed_end(s@),
{
    let mut n: usize = s.len();
    while n > 0 && is_whitespace(s[n - 1])
        invariant
            n <= s@.len(),
            forall|i: int| n <= i < s@.len() ==> is_white(#[trigger] s@[i]),
        decreases n,
    {
        n -= 1;
    }
    proof {
        lemma_trimmed_end(s@, n as int);
    }
    slice_subrange(s, 0, n)
}

pub(crate) fn trim(s: &[char]) -> (r: &[char])
    ensures
        r@ == trimmed(s@),
{
    trim_end(trim_start(s))
}

// ---------------------------------------------------------------------------
// Lines and words
// ---------------------------------------------------------------------------

/// The number of characters of `s` before the first `c`, or all if there is none.
pub open spec fn until_char(s: Seq<char>, c: char) -> nat
    decreases s.len(),
{
    if s.len() == 0 || s[0] == c {
        0
    } else {
        1 + until_char(s.drop_first(), c)
    }
}

pub proof fn lemma_until_char(s: Seq<char>, c: char, n: int)
    requires
        0 <= n <= s.len(),
        forall|i: int| 0 <= i < n ==> #[trigger] s[i] != c,
        n < s.len() ==> s[n] == c,
    ensures
        until_char(s, c) == n,
    decreases s.len(),
{
    if n > 0 {
        assert(s[0] != c);
        assert forall|i: int| 0 <= i < n - 1 implies #[trigger] s.drop_first()[i] != c by {
            assert(s.drop_first()[i] == s[i + 1]);
        }
        lemma_until_char(s.drop_first(), c, n - 1);
    }
}

pub proof fn lemma_until_char_bounds(s: Seq<char>, c: char)
    ensures
        until_char(s, c) <= s.len(),
        forall|i: int| 0 <= i < until_char(s, c) ==> #[trigger] s[i] != c,
        until_char(s, c) < s.len() ==> s[until_char(s, c) as int] == c,
    decreases s.len(),
{
    if s.len() > 0 && s[0] != c {
        lemma_until_char_bounds(s.drop_first(), c);
        assert forall|i: int| 0 <= i < until_char(s, c) implies #[trigger] s[i] != c by {
            if i > 0 {
                assert(s[i] == s.drop_first()[i - 1]);
            }
        }
    }
}

pub(crate) fn find_char(s: &[char], c: char) -> (n: usize)
    ensures
        n == until_char(s@, c),
        n <= s@.len(),
{
    let mut n: usize = 0;
    while n < s.len() && s[n] != c
        invariant
            n <= s@.len(),
            forall|i: int| 0 <= i < n ==> #[trigger] s@[i] != c,
        decreases s@.len() - n,
    {
        n += 1;
    }
    proof {
        lemma_until_char(s@, c, n as int);
    }
    n
}

/// `line` without one carriage return at its end.
pub open spec fn without_carriage_return(line: Seq<char>) -> Seq<char> {
    if line.len() > 0 && line.last() == '\r' {
        line.drop_last()
    } else {
        line
    }
}

/// The lines of `s`.  A line ends with a line feed, or with a carriage return and
/// a line feed; the last line needs no end.
pub open spec fn lines(s: Seq<char>) -> Seq<Seq<char>>
    decreases s.len(),
{
    if s.len() == 0 {
        Seq::empty()
    } else {
        let n = until_char(s, '\n') as int;
        if n < s.len() {
            seq![without_carriage_return(s.take(n))] + lines(s.skip(n + 1))
        } else {
            seq![s]
        }
    }
}

/// The number of characters of `s` before the first white one, or all if there is none.
pub open spec fn word_len(s: Seq<char>) -> nat
    decreases s.len(),
{
    if s.len() == 0 || is_white(s[0]) {
        0
    } else {
        1 + word_len(s.drop_first())
    }
}

pub proof fn lemma_word_len(s: Seq<char>, n: int)
    requires
        0 <= n <= s.len(),
        forall|i: int| 0 <= i < n ==> !is_white(#[trigger] s[i]),
        n < s.len() ==> is_white(s[n]),
    ensures
        word_len(s) == n,
    decreases s.len(),
{
    if n > 0 {
        assert(!is_white(s[0]));
        assert forall|i: int| 0 <= i < n - 1 implies !is_white(#[trigger] s.drop_first()[i]) by {
            assert(s.drop_first()[i] == s[i + 1]);
        }
        lemma_word_len(s.drop_first(), n - 1);
    }
}

pub proof fn lemma_word_len_bounds(s: Seq<char>)
    ensures
        word_len(s) <= s.len(),
        forall|i: int| 0 <= i < word_len(s) ==> !is_white(#[trigger] s[i]),
        word_len(s) < s.len() ==> is_white(s[word_len(s) as int]),
    decreases s.len(),
{
    if s.len() > 0 && !is_white(s[0]) {
        lemma_word_len_bounds(s.drop_first());
        assert forall|i: int| 0 <= i < word_len(s) implies !is_white(#[trigger] s[i]) by {
            if i > 0 {
                assert(s[i] == s.drop_first()[i - 1]);
            }
        }
    }
}

/// The longest runs of characters that are not white, in order.
pub open spec fn words(s: Seq<char>) -> Seq<Seq<char>>
    decreases s.len(),
{
    if s.len() == 0 {
        Seq::empty()
    } else if is_white(s[0]) {
        words(s.drop_first())
    } else {
        proof {
            lemma_word_len_bounds(s);
        }
        seq![s.take(word_len(s) as int)] + words(s.skip(word_len(s) as int))
    }
}

pub(crate) fn find_white(s: &[char]) -> (n: usize)
    ensures
        n == word_len(s@),
        n <= s@.len(),
{
    let mut n: usize = 0;
    while n < s.len() && !is_whitespace(s[n])
        invariant
            n <= s@.len(),
            forall|i: int| 0 <= i < n ==> !is_white(#[trigger] s@[i]),
        decreases s@.len() - n,
    {
        n += 1;
    }
    proof {
        lemma_word_len(s@, n as int);
    }
    n
}

/// What the slices of `parts` hold.
pub open spec fn views(parts: Seq<&[char]>) -> Seq<Seq<char>> {
    parts.map_values(|p: &[char]| p@)
}

pub(crate) fn split_lines(s: &[char]) -> (r: Vec<&[char]>)
    ensures
        views(r@) == lines(s@),
{
    let mut r: Vec<&[char]> = Vec::new();
    let mut rest: &[char] = s;
    while rest.len() > 0
        invariant
            views(r@) + lines(rest@) == lines(s@),
        decreases rest@.len(),
    {
        let ghost before = r@;
        let ghost old_rest = rest@;
        let n: usize = find_char(rest, '\n');
        if n < rest.len() {
            let mut end: usize = n;
            if n > 0 && rest[n - 1] == '\r' {
                end = n - 1;
            }
            let line = slice_subrange(rest, 0, end);
            assert(line@ == without_carriage_return(old_rest.take(n as int)));
            r.push(line);
            rest = slice_subrange(rest, n + 1, rest.len());
            assert(rest@ == old_rest.skip(n + 1));
        } else {
            r.push(rest);
            rest = slice_subrange(rest, n, rest.len());
        }
        assert(views(r@) == views(before).push(r@.last()@));
        assert(views(r@) + lines(rest@) == views(before) + lines(old_rest));
    }
    assert(lines(rest@) == Seq::<Seq<char>>::empty());
    assert(views(r@) + lines(rest@) == views(r@));
    r
}

pub(crate) fn split_words(s: &[char]) -> (r: Vec<&[char]>)
    ensures
        views(r@) == words(s@),
{
    let mut r: Vec<&[char]> = Vec::new();
    let mut rest: &[char] = s;
    while rest.len() > 0
        invariant
            views(r@) + words(rest@) == words(s@),
        decreases rest@.len(),
    {
        let ghost before = r@;
        let ghost old_rest = rest@;
        if is_whitespace(rest[0]) {
            rest = slice_subrange(rest, 1, rest.len());
            assert(rest@ == old_rest.drop_first());
        } else {
            let n: usize = find_white(rest);
            r.push(slice_subrange(rest, 0, n));
            rest = slice_subrange(rest, n, rest.len());
            assert(rest@ == old_rest.skip(n as int));
            assert(views(r@) == views(before).push(old_rest.take(n as int)));
            assert(views(r@) + words(rest@) == views(before) + words(old_rest));
        }
    }
    assert(words(rest@) == Seq::<Seq<char>>::empty());
    assert(views(r@) + words(rest@) == views(r@));
    r
}

// ---------------------------------------------------------------------------
// One text inside another
// ---------------------------------------------------------------------------

/// `t` stands in `s` from position `i` on.
pub open spec fn occurs_at(s: Seq<char>, t: Seq<char>, i: int) -> bool {
    0 <= i && i + t.len() <= s.len() && s.subrange(i, i + t.len()) == t
}

/// `t` stands somewhere in `s`.
pub open spec fn occurs_in(t: Seq<char>, s: Seq<char>) -> bool {
    exists|i: int| #[trigger] occurs_at(s, t, i)
}

pub(crate) fn starts_with(s: &[char], t: &[char]) -> (r: bool)
    ensures
        r == t@.is_prefix_of(s@),
{
    t.len() <= s.len() && same(slice_subrange(s, 0, t.len()), t)
}

pub(crate) fn ends_with(s: &[char], t: &[char]) -> (r: bool)
    ensures
        r == t@.is_suffix_of(s@),
{
    t.len() <= s.len() && same(slice_subrange(s, s.len() - t.len(), s.len()), t)
}

pub(crate) fn contains(s: &[char], t: &[char]) -> (r: bool)
    ensures
        r == occurs_in(t@, s@),
{
    if t.len() > s.len() {
        return false;
    }
    let last: usize = s.len() - t.len();
    let mut i: usize = 0;
    while i <= last
        invariant
            last + t@.len() == s@.len() <= usize::MAX,
            i <= last + 1,
            forall|j: int| 0 <= j < i ==> !#[trigger] occurs_at(s@, t@, j),
        decreases last + 1 - i,
    {
        if same(slice_subrange(s, i, i + t.len()), t) {
            assert(occurs_at(s@, t@, i as int));
            return true;
        }
        if i == last {
            assert forall|j: int| !#[trigger] occurs_at(s@, t@, j) by {
                if occurs_at(s@, t@, j) {
                    assert(j <= last);
                }
            }
            return false;
        }
        i += 1;
    }
    false
}

/// Tells whether `t` stands somewhere in `s`.
pub(crate) fn contains_text(s: &str, t: &str) -> (r: bool)
    ensures
        r == occurs_in(t@, s@),
{
    contains(chars_of(s).as_slice(), chars_of(t).as_slice())
}

/// Tells whether `s` starts with `t`.
pub(crate) fn starts_with_text(s: &str, t: &str) -> (r: bool)
    ensures
        r == t@.is_prefix_of(s@),
{
    starts_with(chars_of(s).as_slice(), chars_of(t).as_slice())
}

// ---------------------------------------------------------------------------
// New texts from old ones
// ---------------------------------------------------------------------------

/// `s` with its ASCII letters in lower case.
pub(crate) fn to_lower(s: &str) -> (r: String)
    ensures
        r@ == lower(s@),
{
    let mut r = String::new();
    for c in iter: s.chars()
        invariant
            iter.seq() == s@,
            r@ == lower(s@.take(iter.index())),
    {
        r.push(ascii_lower_char(c));
        assert(lower(s@.take(iter.index() + 1)) == lower(s@.take(iter.index())).push(
            lower_char(c),
        ));
    }
    assert(s@.take(s@.len() as int) == s@);
    r
}

/// `s` with its ASCII letters in upper case.
pub(crate) fn to_upper(s: &str) -> (r: String)
    ensures
        r@ == upper(s@),
{
    let mut r = String::new();
    for c in iter: s.chars()
        invariant
            iter.seq() == s@,
            r@ == upper(s@.take(iter.index())),
    {
        r.push(ascii_upper_char(c));
        assert(upper(s@.take(iter.index() + 1)) == upper(s@.take(iter.index())).push(
            upper_char(c),
        ));
    }
    assert(s@.take(s@.len() as int) == s@);
    r
}

/// `s` with every `from` replaced by `to`.
pub(crate) fn replace_char(s: &str, from: char, to: char) -> (r: String)
    ensures
        r@ == replaced(s@, from, to),
{
    let mut r = String::new();
    for c in iter: s.chars()
        invariant
            iter.seq() == s@,
            r@ == replaced(s@.take(iter.index()), from, to),
    {
        let d: char = if c == from {
            to
        } else {
            c
        };
        r.push(d);
        assert(replaced(s@.take(iter.index() + 1), from, to) == replaced(
            s@.take(iter.index()),
            from,
            to,
        ).push(d));
    }
    assert(s@.take(s@.len() as int) == s@);
    r
}

/// The texts in order, with `separator` between two neighbours.
pub open spec fn joined(parts: Seq<Seq<char>>, separator: Seq<char>) -> Seq<char>
    decreases parts.len(),
{
    if parts.len() == 0 {
        Seq::empty()
    } else if parts.len() == 1 {
        parts[0]
    } else {
        joined(parts.drop_last(), separator) + separator + parts.last()
    }
}

/// What the strings hold.
pub open spec fn texts(parts: Seq<String>) -> Seq<Seq<char>> {
    parts.map_values(|p: String| p@)
}

pub(crate) fn join(parts: &Vec<String>, separator: &str) -> (r: String)
    ensures
        r@ == joined(texts(parts@), separator@),
{
    let mut r = String::new();
    let mut i: usize = 0;
    while i < parts.len()
        invariant
            i <= parts@.len(),
            r@ == joined(texts(parts@.take(i as int)), separator@),
        decreases parts@.len() - i,
    {
        if i > 0 {
            r.append(separator);
        }
        r.append(parts[i].as_str());
        proof {
            let next = texts(parts@.take(i + 1));
            assert(next.drop_last() == texts(parts@.take(i as int)));
            assert(next.last() == parts@[i as int]@);
            assert(r@ == joined(next, separator@));
        }
        i += 1;
    }
    assert(parts@.take(parts@.len() as int) == parts@);
    r
}

/// The concatenation of two texts.
pub(crate) fn concat2(a: &str, b: &str) -> (r: String)
    ensures
        r@ == a@ + b@,
{
    let mut r = a.to_owned();
    r.append(b);
    r
}

/// The concatenation of three texts.
pub(crate) fn concat3(a: &str, b: &str, c: &str) -> (r: String)
    ensures
        r@ == a@ + b@ + c@,
{
    let mut r = concat2(a, b);
    r.append(c);
    r
}

// ---------------------------------------------------------------------------
// Numbers
// ---------------------------------------------------------------------------

/// The digit that is worth `d`.
pub open spec fn digit_char(d: nat) -> char {
    (48 + d) as char
}

/// `n` in decimal, without leading zeros.
pub open spec fn decimal(n: nat) -> Seq<char>
    decreases n,
{
    if n < 10 {
        seq![digit_char(n)]
    } else {
        decimal(n / 10).push(digit_char(n % 10))
    }
}

/// `i` in decimal, with a minus sign if it is negative.
pub open spec fn signed_decimal(i: int) -> Seq<char> {
    if i < 0 {
        seq!['-'] + decimal((-i) as nat)
    } else {
        decimal(i as nat)
    }
}

/// Appends `n` in decimal.
pub(crate) fn push_decimal(s: &mut String, n: u64)
    ensures
        final(s)@ == old(s)@ + decimal(n as nat),
    decreases n,
{
    let ghost before = s@;
    if n >= 10 {
        push_decimal(s, n / 10);
    }
    let d: char = (48 + (n % 10) as u8) as char;
    s.push(d);
    assert(s@ == before + decimal(n as nat));
}

/// `i` in decimal.
pub(crate) fn int_text(i: i32) -> (r: String)
    ensures
        r@ == signed_decimal(i as int),
{
    let mut r = String::new();
    if i < 0 {
        r.push('-');
        push_decimal(&mut r, (-(i as i64)) as u64);
        assert(r@ == signed_decimal(i as int));
    } else {
        push_decimal(&mut r, i as u64);
    }
    r
}

/// What `c` is worth as a digit, where letters go on after 9.
pub open spec fn digit_value(c: char) -> Option<nat> {
    if '0' <= c <= '9' {
        Some((c as nat - 48) as nat)
    } else if 'a' <= c <= 'z' {
        Some((c as nat - 87) as nat)
    } else if 'A' <= c <= 'Z' {
        Some((c as nat - 55) as nat)
    } else {
        None
    }
}

/// The number that the digits `s` write in base `radix`; none if some character
/// is not a digit of that base.
pub open spec fn digits_value(s: Seq<char>, radix: nat) -> Option<nat>
    decreases s.len(),
{
    if s.len() == 0 {
        Some(0)
    } else {
        match (digits_value(s.drop_last(), radix), digit_value(s.last())) {
            (Some(v), Some(d)) if d < radix => Some(v * radix + d),
            _ => None,
        }
    }
}

/// The number of type `u8` that `s` writes in base 16, after an optional plus sign.
pub open spec fn hex_octet(s: Seq<char>) -> Option<u8> {
    let body = if s.len() > 0 && s[0] == '+' {
        s.skip(1)
    } else {
        s
    };
    match digits_value(body, 16) {
        Some(v) if body.len() > 0 && v <= u8::MAX => Some(v as u8),
        _ => None,
    }
}

/// The number of type `i32` that `s` writes in decimal, after an optional sign.
pub open spec fn decimal_i32(s: Seq<char>) -> Option<i32> {
    let body = if s.len() > 0 && (s[0] == '+' || s[0] == '-') {
        s.skip(1)
    } else {
        s
    };
    match digits_value(body, 10) {
        Some(v) if body.len() > 0 => {
            let i = if s[0] == '-' {
                -(v as int)
            } else {
                v as int
            };
            if i32::MIN <= i <= i32::MAX {
                Some(i as i32)
            } else {
                None
            }
        },
        _ => None,
    }
}

fn digit_of(c: char) -> (r: Option<u64>)
    ensures
        match r {
            Some(d) => digit_value(c) == Some(d as nat) && d < 36,
            None => digit_value(c) is None,
        },
{
    if '0' <= c && c <= '9' {
        Some(c as u64 - 48)
    } else if 'a' <= c && c <= 'z' {
        Some(c as u64 - 87)
    } else if 'A' <= c && c <= 'Z' {
        Some(c as u64 - 55)
    } else {
        None
    }
}

/// Once a prefix holds a character that is no digit, so does the whole.
proof fn lemma_digits_prefix(s: Seq<char>, radix: nat, i: int)
    requires
        0 <= i <= s.len(),
        digits_value(s.take(i), radix) is None,
    ensures
        digits_value(s, radix) is None,
    decreases s.len() - i,
{
    if i < s.len() {
        assert(s.take(i + 1).drop_last() == s.take(i));
        lemma_digits_prefix(s, radix, i + 1);
    } else {
        assert(s.take(i) == s);
    }
}

/// The number that the digits write, or `u32::MAX + 1` for every greater one.
fn capped_digits(s: &[char], radix: u64) -> (r: Option<u64>)
    requires
        2 <= radix <= 36,
    ensures
        match r {
            Some(v) => {
                &&& digits_value(s@, radix as nat) is Some
                &&& v <= 0x1_0000_0000
                &&& v < 0x1_0000_0000 ==> digits_value(s@, radix as nat) == Some(v as nat)
                &&& v == 0x1_0000_0000 ==> digits_value(s@, radix as nat)->0 >= v
            },
            None => digits_value(s@, radix as nat) is None,
        },
{
    let cap: u64 = 0x1_0000_0000;
    let mut acc: u64 = 0;
    let mut i: usize = 0;
    while i < s.len()
        invariant
            cap == 0x1_0000_0000,
            2 <= radix <= 36,
            i <= s@.len(),
            acc <= cap,
            digits_value(s@.take(i as int), radix as nat) is Some,
            acc < cap ==> digits_value(s@.take(i as int), radix as nat) == Some(acc as nat),
            acc == cap ==> digits_value(s@.take(i as int), radix as nat)->0 >= cap,
        decreases s@.len() - i,
    {
        let ghost prefix = s@.take(i as int);
        let ghost next = s@.take(i + 1);
        assert(next.drop_last() == prefix);
        assert(next.last() == s@[i as int]);
        match digit_of(s[i]) {
            Some(d) if d < radix => {
                let ghost v = digits_value(prefix, radix as nat)->0;
                let ghost w = digits_value(next, radix as nat)->0;
                assert(w == v * radix + d);
                assert(acc * radix <= 0x1_0000_0000 * 36) by (nonlinear_arith)
                    requires
                        acc <= 0x1_0000_0000,
                        radix <= 36,
                ;
                let grown: u64 = acc * radix + d;
                if acc == cap {
                    assert(v * radix >= v) by (nonlinear_arith)
                        requires
                            radix >= 2,
                            v >= 0,
                    ;
                } else if grown >= cap {
                    acc = cap;
                } else {
                    acc = grown;
                }
            },
            _ => {
                proof {
                    lemma_digits_prefix(s@, radix as nat, i + 1);
                }
                return None;
            },
        }
        i += 1;
    }
    assert(s@.take(s@.len() as int) == s@);
    Some(acc)
}

/// Reads a number of type `u8` in base 16, after an optional plus sign.
pub(crate) fn parse_hex_octet(s: &[char]) -> (r: Option<u8>)
    ensures
        r == hex_octet(s@),
{
    let body: &[char] = if s.len() > 0 && s[0] == '+' {
        slice_subrange(s, 1, s.len())
    } else {
        s
    };
    assert(s@.len() > 0 && s@[0] == '+' ==> body@ == s@.skip(1));
    if body.len() == 0 {
        return None;
    }
    match capped_digits(body, 16) {
        Some(v) if v <= 255 => Some(v as u8),
        _ => None,
    }
}

/// Reads a number of type `i32` in decimal, after an optional sign.
pub(crate) fn parse_i32(s: &[char]) -> (r: Option<i32>)
    ensures
        r == decimal_i32(s@),
{
    if s.len() == 0 {
        return None;
    }
    let body: &[char] = if s[0] == '+' || s[0] == '-' {
        slice_subrange(s, 1, s.len())
    } else {
        s
    };
    assert(s@[0] == '+' || s@[0] == '-' ==> body@ == s@.skip(1));
    if body.len() == 0 {
        return None;
    }
    match capped_digits(body, 10) {
        Some(v) => {
            if s[0] == '-' {
                if v <= 0x8000_0000 {
                    Some((-(v as i64)) as i32)
                } else {
                    None
                }
            } else if v <= 0x7fff_ffff {
                Some(v as i32)
            } else {
                None
            }
        },
        None => None,
    }
}

} // verus!
