//! What holds of plain text: what the words of the text module mean, in terms of the
//! characters alone.

use vstd::prelude::*;

use crate::adapters::{colour_len, parameter_len, without_colour, without_tree, tree_len};
use crate::text::{
    decimal, decimal_i32, digit_value, digits_value, hex_octet, is_white, joined,
    lemma_trimmed_end, lemma_until_char, lemma_white_len, lemma_word_len, lines, lower, occurs_at,
    occurs_in, replaced, signed_decimal, trimmed, trimmed_end, upper, words,
};

verus! {

// ---------------------------------------------------------------------------
// Characters
// ---------------------------------------------------------------------------

/// The white characters are the tabs, line ends and blanks, and those that Unicode adds to
/// them; up to the delete character they are the six with the codes 9 to 13 and 32.
pub proof fn law_white_characters(c: char)
    ensures
        c as int <= 127 ==> (is_white(c) <==> 9 <= c as int <= 13 || c as int == 32),
        c as int > 127 ==> (is_white(c) <==> c as int == 0x85 || c as int == 0xa0 || c as int
            == 0x1680 || 0x2000 <= c as int <= 0x200a || c as int == 0x2028 || c as int == 0x2029
            || c as int == 0x202f || c as int == 0x205f || c as int == 0x3000),
{
}

/// Lower case changes the letters from `A` to `Z`, each to the letter that stands 32
/// places behind it, and nothing else; upper case changes them back.
pub proof fn law_case_of_letters(s: Seq<char>, i: int)
    requires
        0 <= i < s.len(),
    ensures
        lower(s).len() == s.len(),
        upper(s).len() == s.len(),
        65 <= s[i] as int <= 90 ==> lower(s)[i] as int == s[i] as int + 32,
        !(65 <= s[i] as int <= 90) ==> lower(s)[i] == s[i],
        97 <= s[i] as int <= 122 ==> upper(s)[i] as int == s[i] as int - 32,
        !(97 <= s[i] as int <= 122) ==> upper(s)[i] == s[i],
{
}

/// Replacing a character changes it wherever it stands, and nothing else.
pub proof fn law_replaced(s: Seq<char>, from: char, to: char, i: int)
    requires
        0 <= i < s.len(),
    ensures
        replaced(s, from, to).len() == s.len(),
        s[i] == from ==> replaced(s, from, to)[i] == to,
        s[i] != from ==> replaced(s, from, to)[i] == s[i],
{
}

/// A text stands in another if and only if the other one is made of something, that
/// text, and something.
pub proof fn law_occurs(t: Seq<char>, s: Seq<char>)
    ensures
        occurs_in(t, s) <==> exists|a: Seq<char>, b: Seq<char>| s == #[trigger] (a + t + b),
{
    if occurs_in(t, s) {
        let i = choose|i: int| #[trigger] occurs_at(s, t, i);
        let a = s.take(i);
        let b = s.skip(i + t.len());
        assert(s =~= a + t + b) by {
            assert(s.subrange(i, i + t.len()) == t);
            assert forall|k: int| 0 <= k < s.len() implies s[k] == (a + t + b)[k] by {
                if i <= k < i + t.len() {
                    assert(s.subrange(i, i + t.len())[k - i] == s[k]);
                }
            }
        }
    }
    if exists|a: Seq<char>, b: Seq<char>| s == #[trigger] (a + t + b) {
        let (a, b) = choose|a: Seq<char>, b: Seq<char>| s == #[trigger] (a + t + b);
        assert(s.subrange(a.len() as int, (a.len() + t.len()) as int) =~= t);
        assert(occurs_at(s, t, a.len() as int));
    }
}

// ---------------------------------------------------------------------------
// Ends, lines and words
// ---------------------------------------------------------------------------

/// Every character is white.
pub open spec fn all_white(s: Seq<char>) -> bool {
    forall|i: int| 0 <= i < s.len() ==> is_white(#[trigger] s[i])
}

/// Trimming takes the white characters away from both ends, or from the end alone, and
/// leaves what stands between them.
pub proof fn law_trimmed(before: Seq<char>, s: Seq<char>, behind: Seq<char>)
    requires
        all_white(before),
        all_white(behind),
        s.len() > 0 ==> !is_white(s[0]) && !is_white(s.last()),
    ensures
        trimmed(before + s + behind) == s,
        trimmed_end(s + behind) == s,
{
    let whole = before + s + behind;
    let tail = s + behind;
    let n = before.len() as int;
    if s.len() == 0 {
        assert forall|i: int| 0 <= i < whole.len() implies is_white(#[trigger] whole[i]) by {
            if i < n {
                assert(whole[i] == before[i]);
            } else {
                assert(whole[i] == behind[i - n]);
            }
        }
        lemma_white_len(whole, whole.len() as int);
        assert(whole.skip(whole.len() as int) =~= s);
        lemma_trimmed_end(s, 0);
        assert forall|i: int| 0 <= i < tail.len() implies is_white(#[trigger] tail[i]) by {
            assert(tail[i] == behind[i]);
        }
        lemma_trimmed_end(tail, 0);
        assert(tail.take(0) =~= s);
        assert(s.take(0) =~= s);
    } else {
        assert forall|i: int| 0 <= i < n implies is_white(#[trigger] whole[i]) by {
            assert(whole[i] == before[i]);
        }
        assert(whole[n] == s[0]);
        lemma_white_len(whole, n);
        assert(whole.skip(n) =~= tail);
        let m = s.len() as int;
        assert forall|i: int| m <= i < tail.len() implies is_white(#[trigger] tail[i]) by {
            assert(tail[i] == behind[i - m]);
        }
        assert(tail[m - 1] == s.last());
        lemma_trimmed_end(tail, m);
        assert(tail.take(m) =~= s);
    }
}

/// A line goes up to the next line feed, and a carriage return before that does not
/// belong to it; the last line needs no end.
pub proof fn law_lines(line: Seq<char>, rest: Seq<char>)
    requires
        !line.contains('\n'),
    ensures
        line.len() == 0 || line.last() != '\r' ==> lines(line + seq!['\n'] + rest) == seq![line]
            + lines(rest),
        lines(line + seq!['\r', '\n'] + rest) == seq![line] + lines(rest),
        line.len() > 0 ==> lines(line) == seq![line],
        lines(Seq::<char>::empty()) == Seq::<Seq<char>>::empty(),
{
    let n = line.len() as int;
    let s = line + seq!['\n'] + rest;
    assert forall|i: int| 0 <= i < n implies #[trigger] s[i] != '\n' by {
        assert(s[i] == line[i]);
    }
    assert(s[n] == '\n');
    lemma_until_char(s, '\n', n);
    assert(s.take(n) =~= line);
    assert(s.skip(n + 1) =~= rest);
    let t = line + seq!['\r', '\n'] + rest;
    assert forall|i: int| 0 <= i < n + 1 implies #[trigger] t[i] != '\n' by {
        if i < n {
            assert(t[i] == line[i]);
        }
    }
    assert(t[n + 1] == '\n');
    lemma_until_char(t, '\n', n + 1);
    assert(t.take(n + 1).drop_last() =~= line);
    assert(t.take(n + 1).last() == '\r');
    assert(t.skip(n + 2) =~= rest);
    assert forall|i: int| 0 <= i < n implies #[trigger] line[i] != '\n' by {}
    lemma_until_char(line, '\n', n);
}

/// The words of a text: what stands between white characters, one after the other.
pub proof fn law_words(before: Seq<char>, word: Seq<char>, rest: Seq<char>)
    requires
        all_white(before),
        word.len() > 0,
        forall|i: int| 0 <= i < word.len() ==> !is_white(#[trigger] word[i]),
        rest.len() > 0 ==> is_white(rest[0]),
    ensures
        words(before + word + rest) == seq![word] + words(rest),
        words(before) == Seq::<Seq<char>>::empty(),
    decreases before.len(),
{
    let s = before + word + rest;
    if before.len() > 0 {
        assert(is_white(before[0]));
        assert forall|i: int| 0 <= i < before.drop_first().len() implies is_white(
            #[trigger] before.drop_first()[i],
        ) by {
            assert(before.drop_first()[i] == before[i + 1]);
        }
        law_words(before.drop_first(), word, rest);
        assert(s.drop_first() =~= before.drop_first() + word + rest);
        assert(s[0] == before[0]);
    } else {
        let n = word.len() as int;
        assert(s =~= word + rest);
        assert forall|i: int| 0 <= i < n implies !is_white(#[trigger] s[i]) by {
            assert(s[i] == word[i]);
        }
        assert(n < s.len() ==> s[n] == rest[0]);
        assert(s[0] == word[0]);
        lemma_word_len(s, n);
        assert(s.take(n) =~= word);
        assert(s.skip(n) =~= rest);
    }
}

/// Joining texts puts the separator between two neighbours and nowhere else.
pub proof fn law_joined(a: Seq<Seq<char>>, b: Seq<Seq<char>>, separator: Seq<char>)
    ensures
        joined(Seq::<Seq<char>>::empty(), separator) == Seq::<char>::empty(),
        a.len() == 1 ==> joined(a, separator) == a[0],
        a.len() > 0 && b.len() > 0 ==> joined(a + b, separator) == joined(a, separator) + separator
            + joined(b, separator),
    decreases b.len(),
{
    if a.len() > 0 && b.len() > 0 {
        let all = a + b;
        assert(all.drop_last() =~= a + b.drop_last());
        assert(all.last() == b.last());
        if b.len() == 1 {
            assert(all.drop_last() =~= a);
        } else {
            law_joined(a, b.drop_last(), separator);
            assert(joined(all, separator) =~= joined(a, separator) + separator + joined(
                b,
                separator,
            ));
        }
    }
}

// ---------------------------------------------------------------------------
// Numbers
// ---------------------------------------------------------------------------

/// A number in decimal: a digit stands for itself, a further digit is worth what it says
/// and makes the ones before worth ten times as much, and a minus sign stands in front of
/// a negative number.
pub proof fn law_decimal(n: nat, d: nat)
    requires
        d < 10,
    ensures
        decimal(d).len() == 1,
        decimal(d)[0] as int == 48 + d,
        n > 0 ==> decimal(10 * n + d) == decimal(n) + decimal(d),
        signed_decimal(n as int) == decimal(n),
        n > 0 ==> signed_decimal(-(n as int)) == seq!['-'] + decimal(n),
{
    if n > 0 {
        let m = 10 * n + d;
        assert(m / 10 == n && m % 10 == d);
        assert(decimal(m) =~= decimal(n) + decimal(d));
    }
}

proof fn lemma_digits(n: nat)
    ensures
        decimal(n).len() > 0,
        digits_value(decimal(n), 10) == Some(n),
        forall|i: int| 0 <= i < decimal(n).len() ==> '0' <= #[trigger] decimal(n)[i] <= '9',
    decreases n,
{
    let s = decimal(n);
    if n < 10 {
        assert(s.drop_last() =~= Seq::<char>::empty());
        assert(digits_value(Seq::<char>::empty(), 10) == Some(0nat));
    } else {
        lemma_digits(n / 10);
        assert(s.drop_last() =~= decimal(n / 10));
        assert forall|i: int| 0 <= i < s.len() implies '0' <= #[trigger] s[i] <= '9' by {
            if i < s.len() - 1 {
                assert(s[i] == decimal(n / 10)[i]);
            }
        }
        assert(n / 10 * 10 + n % 10 == n);
    }
}

proof fn lemma_zeros(zeros: nat, s: Seq<char>, radix: nat)
    requires
        radix > 0,
    ensures
        digits_value(Seq::new(zeros, |i: int| '0') + s, radix) == digits_value(s, radix),
    decreases s.len(), zeros,
{
    let front = Seq::new(zeros, |i: int| '0');
    let whole = front + s;
    if s.len() > 0 {
        lemma_zeros(zeros, s.drop_last(), radix);
        assert(whole.drop_last() =~= front + s.drop_last());
    } else if zeros > 0 {
        let fewer = Seq::new((zeros - 1) as nat, |i: int| '0');
        lemma_zeros((zeros - 1) as nat, s, radix);
        assert(whole =~= front);
        assert(whole.drop_last() =~= fewer);
        assert(fewer + s =~= fewer);
        assert(s =~= Seq::<char>::empty());
        assert(0 * radix + 0 == 0) by (nonlinear_arith);
    } else {
        assert(whole =~= s);
    }
}

/// A number is read whatever zeros stand before it, after a plus sign, after a minus sign
/// with the opposite value, or without a sign, if it is one of 32 bits.
pub proof fn law_number(zeros: nat, n: nat)
    ensures
        ({
            let digits = Seq::new(zeros, |i: int| '0') + decimal(n);
            &&& decimal_i32(digits) == if n <= i32::MAX {
                Some(n as i32)
            } else {
                None
            }
            &&& decimal_i32(seq!['+'] + digits) == decimal_i32(digits)
            &&& decimal_i32(seq!['-'] + digits) == if n <= i32::MAX + 1 {
                Some((-n) as i32)
            } else {
                None
            }
        }),
{
    let front = Seq::new(zeros, |i: int| '0');
    let digits = front + decimal(n);
    lemma_digits(n);
    lemma_zeros(zeros, decimal(n), 10);
    assert('0' <= digits[0] <= '9') by {
        if zeros > 0 {
            assert(digits[0] == front[0]);
        } else {
            assert(digits[0] == decimal(n)[0]);
        }
    }
    assert((seq!['+'] + digits).skip(1) =~= digits);
    assert((seq!['-'] + digits).skip(1) =~= digits);
}

proof fn lemma_digits_only(s: Seq<char>, radix: nat, i: int)
    requires
        digits_value(s, radix) is Some,
        0 <= i < s.len(),
    ensures
        digit_value(s[i]) is Some,
        digit_value(s[i])->0 < radix,
    decreases s.len(),
{
    if i < s.len() - 1 {
        lemma_digits_only(s.drop_last(), radix, i);
    }
}

/// What is read as a number has a digit, and nothing but digits behind its sign.
pub proof fn law_number_has_digits(s: Seq<char>, i: int)
    requires
        decimal_i32(s) is Some,
        0 <= i < s.len(),
    ensures
        48 <= s.last() as int <= 57,
        48 <= s[i] as int <= 57 || i == 0 && (s[0] == '+' || s[0] == '-'),
{
    let signed = s[0] == '+' || s[0] == '-';
    let body = if signed {
        s.skip(1)
    } else {
        s
    };
    lemma_digits_only(body, 10, body.len() - 1);
    if signed {
        if i > 0 {
            lemma_digits_only(body, 10, i - 1);
            assert(body[i - 1] == s[i]);
        }
    } else {
        lemma_digits_only(body, 10, i);
    }
}

/// What a hexadecimal digit is worth.
pub open spec fn hex_worth(c: char) -> int {
    if c <= '9' {
        c as int - 48
    } else if c <= 'F' {
        c as int - 55
    } else {
        c as int - 87
    }
}

/// A character of `0` to `9`, `a` to `f` or `A` to `F`.
pub open spec fn is_hex(c: char) -> bool {
    48 <= c as int <= 57 || 97 <= c as int <= 102 || 65 <= c as int <= 70
}

/// A byte is read from one or two hexadecimal digits, in upper or lower case, whatever
/// zeros stand before them, with or without a plus sign.
pub proof fn law_octet(zeros: nat, high: char, low: char)
    requires
        is_hex(high),
        is_hex(low),
    ensures
        ({
            let digits = Seq::new(zeros, |i: int| '0') + seq![high, low];
            &&& hex_octet(digits) == Some((16 * hex_worth(high) + hex_worth(low)) as u8)
            &&& hex_octet(seq!['+'] + digits) == hex_octet(digits)
            &&& hex_octet(seq![low]) == Some(hex_worth(low) as u8)
        }),
{
    let pair = seq![high, low];
    let digits = Seq::new(zeros, |i: int| '0') + pair;
    lemma_zeros(zeros, pair, 16);
    reveal_with_fuel(digits_value, 3);
    assert(pair.drop_last() =~= seq![high]);
    assert(seq![high].drop_last() =~= Seq::<char>::empty());
    assert(seq![low].drop_last() =~= Seq::<char>::empty());
    assert(digits_value(pair, 16) == Some((16 * hex_worth(high) + hex_worth(low)) as nat));
    assert(digits_value(seq![low], 16) == Some(hex_worth(low) as nat));
    assert(digits[0] != '+') by {
        if zeros > 0 {
            assert(digits[0] == '0');
        } else {
            assert(digits[0] == high);
        }
    }
    assert((seq!['+'] + digits).skip(1) =~= digits);
}

/// What is read as a byte has a digit, nothing but hexadecimal digits behind its sign,
/// and nothing but zeros before the last two of them.
pub proof fn law_octet_has_digits(s: Seq<char>, i: int)
    requires
        hex_octet(s) is Some,
        0 <= i < s.len(),
    ensures
        is_hex(s.last()),
        is_hex(s[i]) || i == 0 && s[0] == '+',
        i < s.len() - 2 ==> s[i] == '0' || i == 0 && s[0] == '+',
{
    let body = if s[0] == '+' {
        s.skip(1)
    } else {
        s
    };
    lemma_digits_only(body, 16, body.len() - 1);
    let k = if s[0] == '+' {
        i - 1
    } else {
        i
    };
    if k >= 0 {
        lemma_digits_only(body, 16, k);
        assert(body[k] == s[i]);
        if k < body.len() - 2 {
            lemma_leading(body, k);
        }
    }
}

proof fn lemma_leading(s: Seq<char>, i: int)
    requires
        digits_value(s, 16) is Some,
        digits_value(s, 16)->0 <= 255,
        0 <= i < s.len() - 2,
    ensures
        digit_value(s[i]) == Some(0nat),
{
    let two = s.drop_last().drop_last();
    assert(digits_value(two, 16) == Some(0nat)) by {
        let a = digits_value(two, 16)->0;
        let b = digits_value(s.drop_last(), 16)->0;
        let c = digits_value(s, 16)->0;
        let d = digit_value(s.drop_last().last())->0;
        let e = digit_value(s.last())->0;
        assert(b == a * 16 + d);
        assert(c == b * 16 + e);
    }
    lemma_zero_value(two, i);
}

proof fn lemma_zero_value(s: Seq<char>, i: int)
    requires
        digits_value(s, 16) == Some(0nat),
        0 <= i < s.len(),
    ensures
        digit_value(s[i]) == Some(0nat),
    decreases s.len(),
{
    if i < s.len() - 1 {
        lemma_zero_value(s.drop_last(), i);
    }
}

// ---------------------------------------------------------------------------
// Colours and trees
// ---------------------------------------------------------------------------

proof fn lemma_parameters(s: Seq<char>)
    ensures
        parameter_len(s) <= s.len(),
        forall|i: int|
            0 <= i < parameter_len(s) ==> ('0' <= #[trigger] s[i] <= '9' || s[i] == ';'),
        parameter_len(s) < s.len() ==> !('0' <= s[parameter_len(s) as int] <= '9'
            || s[parameter_len(s) as int] == ';'),
    decreases s.len(),
{
    if s.len() > 0 && ('0' <= s[0] <= '9' || s[0] == ';') {
        lemma_parameters(s.drop_first());
        assert forall|i: int| 0 <= i < parameter_len(s) implies ('0' <= #[trigger] s[i] <= '9'
            || s[i] == ';') by {
            if i > 0 {
                assert(s[i] == s.drop_first()[i - 1]);
            }
        }
    }
}

/// A character stays, unless a colour sequence starts with it: an escape character, an
/// opening bracket, digits and semicolons, and the letter `m`.
pub proof fn law_uncoloured_character_stays(s: Seq<char>)
    requires
        s.len() > 0,
        forall|n: int|
            2 <= n < s.len() && s[0] == '\u{1b}' && s[1] == '[' && (forall|i: int|
                2 <= i < n ==> '0' <= #[trigger] s[i] <= '9' || s[i] == ';') ==> #[trigger] s[n]
                != 'm',
    ensures
        without_colour(s) == seq![s[0]] + without_colour(s.drop_first()),
{
    if s.len() >= 3 && s[0] == '\u{1b}' && s[1] == '[' {
        let tail = s.skip(2);
        lemma_parameters(tail);
        let n = 2 + parameter_len(tail) as int;
        if n < s.len() && s[n] == 'm' {
            assert forall|i: int| 2 <= i < n implies '0' <= #[trigger] s[i] <= '9' || s[i]
                == ';' by {
                assert(tail[i - 2] == s[i]);
            }
            assert(false);
        }
        assert(colour_len(s) == 0);
    }
}

/// The drawing in front of an entry of a tree is removed, and nothing else.
pub proof fn law_tree_drawing(drawing: Seq<char>, s: Seq<char>)
    requires
        forall|i: int|
            0 <= i < drawing.len() ==> is_white(#[trigger] drawing[i]) || drawing[i] == '├'
                || drawing[i] == '└' || drawing[i] == '─',
        s.len() > 0 ==> !(is_white(s[0]) || s[0] == '├' || s[0] == '└' || s[0] == '─'),
    ensures
        without_tree(drawing + s) == s,
    decreases drawing.len(),
{
    let whole = drawing + s;
    if drawing.len() > 0 {
        let rest = drawing.drop_first();
        assert(whole[0] == drawing[0]);
        assert forall|i: int| 0 <= i < rest.len() implies is_white(#[trigger] rest[i]) || rest[i]
            == '├' || rest[i] == '└' || rest[i] == '─' by {
            assert(rest[i] == drawing[i + 1]);
        }
        law_tree_drawing(rest, s);
        assert(whole.drop_first() =~= rest + s);
        assert((rest + s).skip(tree_len(rest + s) as int) == s);
        lemma_tree_len(rest + s);
        assert(whole.skip(1 + tree_len(rest + s) as int) =~= (rest + s).skip(
            tree_len(rest + s) as int,
        ));
    } else {
        assert(whole =~= s);
        assert(s.skip(0) =~= s);
    }
}

proof fn lemma_tree_len(s: Seq<char>)
    ensures
        tree_len(s) <= s.len(),
    decreases s.len(),
{
    if s.len() > 0 {
        lemma_tree_len(s.drop_first());
    }
}

} // verus!
