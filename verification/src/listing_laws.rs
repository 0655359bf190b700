//! What holds of the listings of the system: they are read line by line, and what is
//! written into a line reads back.

use vstd::prelude::*;

use crate::adapters::{colour_len, parameter_len, without_colour};
use crate::bluez::{
    device_of_line, devices_of_lines, info_of_line, info_of_lines, DeviceModel,
};
use crate::pulse::{
    card_of_line, cards_of_lines, sink_of_line, sinks_of_lines, stream_of_line, streams_of_lines,
    CardModel, SinkModel,
};
use crate::text::{
    decimal, decimal_i32, digit_char, digits_value, is_white, lemma_trimmed_end,
    lemma_until_char, lemma_until_char_bounds, lemma_white_len, lemma_word_len,
    lemma_word_len_bounds, lines, signed_decimal, trimmed, trimmed_end, until_char,
    without_carriage_return, word_len, words,
};

verus! {

// ---------------------------------------------------------------------------
// Line by line
// ---------------------------------------------------------------------------

/// Text that ends with a line feed, and what follows it, have the lines of both.
pub proof fn law_lines_of_both(s: Seq<char>, t: Seq<char>)
    requires
        s.len() > 0,
        s.last() == '\n',
    ensures
        lines(s + t) == lines(s) + lines(t),
    decreases s.len(),
{
    let n = until_char(s, '\n') as int;
    lemma_until_char_bounds(s, '\n');
    assert(s[s.len() - 1] == '\n');
    assert((s + t)[n] == s[n]);
    lemma_until_char(s + t, '\n', n);
    assert((s + t).take(n) == s.take(n));
    assert((s + t).skip(n + 1) == s.skip(n + 1) + t);
    let rest = s.skip(n + 1);
    if rest.len() > 0 {
        assert(rest.last() == s.last());
        law_lines_of_both(rest, t);
    } else {
        assert(rest + t == t);
        assert(lines(rest) == Seq::<Seq<char>>::empty());
    }
    assert(lines(s + t) == lines(s) + lines(t));
}

/// Devices are listed one by one: what two listings hold is what the one holds and
/// then what the other holds.
pub proof fn law_devices_line_by_line(p: Seq<Seq<char>>, q: Seq<Seq<char>>)
    ensures
        devices_of_lines(p + q) == devices_of_lines(p) + devices_of_lines(q),
    decreases q.len(),
{
    if q.len() == 0 {
        assert(p + q == p);
        assert(devices_of_lines(p) + devices_of_lines(q) == devices_of_lines(p));
    } else {
        law_devices_line_by_line(p, q.drop_last());
        assert((p + q).drop_last() == p + q.drop_last());
        assert((p + q).last() == q.last());
        assert(devices_of_lines(p + q) == devices_of_lines(p) + devices_of_lines(q));
    }
}

/// Sinks are listed one by one.
pub proof fn law_sinks_line_by_line(p: Seq<Seq<char>>, q: Seq<Seq<char>>)
    ensures
        sinks_of_lines(p + q) == sinks_of_lines(p) + sinks_of_lines(q),
    decreases q.len(),
{
    if q.len() == 0 {
        assert(p + q == p);
        assert(sinks_of_lines(p) + sinks_of_lines(q) == sinks_of_lines(p));
    } else {
        law_sinks_line_by_line(p, q.drop_last());
        assert((p + q).drop_last() == p + q.drop_last());
        assert((p + q).last() == q.last());
        assert(sinks_of_lines(p + q) == sinks_of_lines(p) + sinks_of_lines(q));
    }
}

/// Cards are listed one by one.
pub proof fn law_cards_line_by_line(p: Seq<Seq<char>>, q: Seq<Seq<char>>)
    ensures
        cards_of_lines(p + q) == cards_of_lines(p) + cards_of_lines(q),
    decreases q.len(),
{
    if q.len() == 0 {
        assert(p + q == p);
        assert(cards_of_lines(p) + cards_of_lines(q) == cards_of_lines(p));
    } else {
        law_cards_line_by_line(p, q.drop_last());
        assert((p + q).drop_last() == p + q.drop_last());
        assert((p + q).last() == q.last());
        assert(cards_of_lines(p + q) == cards_of_lines(p) + cards_of_lines(q));
    }
}

/// Streams are listed one by one.
pub proof fn law_streams_line_by_line(p: Seq<Seq<char>>, q: Seq<Seq<char>>)
    ensures
        streams_of_lines(p + q) == streams_of_lines(p) + streams_of_lines(q),
    decreases q.len(),
{
    if q.len() == 0 {
        assert(p + q == p);
        assert(streams_of_lines(p) + streams_of_lines(q) == streams_of_lines(p));
    } else {
        law_streams_line_by_line(p, q.drop_last());
        assert((p + q).drop_last() == p + q.drop_last());
        assert((p + q).last() == q.last());
        assert(streams_of_lines(p + q) == streams_of_lines(p) + streams_of_lines(q));
    }
}

/// A description is read line by line, and a later line wins over an earlier one.
pub proof fn law_info_line_by_line(p: Seq<Seq<char>>, q: Seq<Seq<char>>)
    ensures
        info_of_lines(p + q) == info_of_lines(p).union_prefer_right(info_of_lines(q)),
    decreases q.len(),
{
    if q.len() == 0 {
        assert(p + q == p);
        assert(info_of_lines(p).union_prefer_right(info_of_lines(q)) == info_of_lines(p));
    } else {
        law_info_line_by_line(p, q.drop_last());
        assert((p + q).drop_last() == p + q.drop_last());
        assert((p + q).last() == q.last());
        assert(info_of_lines(p + q) =~= info_of_lines(p).union_prefer_right(info_of_lines(q)));
    }
}

// ---------------------------------------------------------------------------
// Colours
// ---------------------------------------------------------------------------

/// Text without an escape character is left as it is.
pub proof fn law_plain_text_is_kept(s: Seq<char>)
    requires
        !s.contains('\u{1b}'),
    ensures
        without_colour(s) == s,
    decreases s.len(),
{
    if s.len() > 0 {
        assert(s[0] != '\u{1b}');
        assert forall|i: int| 0 <= i < s.drop_first().len() implies s.drop_first()[i]
            != '\u{1b}' by {
            assert(s.drop_first()[i] == s[i + 1]);
        }
        law_plain_text_is_kept(s.drop_first());
        assert(seq![s[0]] + s.drop_first() == s);
    }
}

/// The characters that may stand between the bracket and the end of a colour sequence.
pub open spec fn is_parameter(c: char) -> bool {
    '0' <= c <= '9' || c == ';'
}

/// A colour sequence with the given parameters.
pub open spec fn colour(parameters: Seq<char>) -> Seq<char> {
    seq!['\u{1b}', '['] + parameters + seq!['m']
}

proof fn lemma_parameter_len(parameters: Seq<char>, rest: Seq<char>)
    requires
        forall|i: int| 0 <= i < parameters.len() ==> is_parameter(#[trigger] parameters[i]),
        rest.len() > 0,
        !is_parameter(rest[0]),
    ensures
        parameter_len(parameters + rest) == parameters.len(),
    decreases parameters.len(),
{
    let whole = parameters + rest;
    if parameters.len() > 0 {
        assert(is_parameter(parameters[0]));
        assert forall|i: int| 0 <= i < parameters.drop_first().len() implies is_parameter(
            #[trigger] parameters.drop_first()[i],
        ) by {
            assert(parameters.drop_first()[i] == parameters[i + 1]);
        }
        lemma_parameter_len(parameters.drop_first(), rest);
        assert(whole.drop_first() == parameters.drop_first() + rest);
    } else {
        assert(whole == rest);
    }
}

/// A colour sequence in front of text makes no difference, whatever its parameters.
pub proof fn law_colour_is_removed(parameters: Seq<char>, s: Seq<char>)
    requires
        forall|i: int| 0 <= i < parameters.len() ==> is_parameter(#[trigger] parameters[i]),
    ensures
        without_colour(colour(parameters) + s) == without_colour(s),
{
    let whole = colour(parameters) + s;
    lemma_parameter_len(parameters, seq!['m'] + s);
    assert(whole.skip(2) == parameters + (seq!['m'] + s));
    assert(whole[2 + parameters.len() as int] == 'm');
    assert(colour_len(whole) == parameters.len() + 3);
    assert(whole.skip(parameters.len() as int + 3) == s);
}

/// A listing in colour holds the same device as one without, wherever its line is
/// coloured from the start.
pub proof fn law_coloured_device(parameters: Seq<char>, line: Seq<char>)
    requires
        forall|i: int| 0 <= i < parameters.len() ==> is_parameter(#[trigger] parameters[i]),
    ensures
        device_of_line(colour(parameters) + line) == device_of_line(line),
        info_of_line(colour(parameters) + line) == info_of_line(line),
{
    law_colour_is_removed(parameters, line);
}

// ---------------------------------------------------------------------------
// Lines that read back
// ---------------------------------------------------------------------------

/// Text that is not empty and neither starts nor ends with a white character.
pub open spec fn is_trimmed(s: Seq<char>) -> bool {
    s.len() > 0 && !is_white(s[0]) && !is_white(s.last())
}

proof fn lemma_trimmed_stays(s: Seq<char>)
    requires
        is_trimmed(s),
    ensures
        trimmed(s) == s,
        trimmed_end(s) == s,
{
    lemma_white_len(s, 0);
    assert(s.skip(0) == s);
    lemma_trimmed_end(s, s.len() as int);
    assert(s.take(s.len() as int) == s);
}

/// A word: text that is not empty and holds no white character.
pub open spec fn is_word(s: Seq<char>) -> bool {
    s.len() > 0 && forall|i: int| 0 <= i < s.len() ==> !is_white(#[trigger] s[i])
}

/// The line that lists a device.
pub open spec fn device_line(device: DeviceModel) -> Seq<char> {
    "Device "@ + device.mac + seq![' '] + device.name
}

/// A device reads back from its line, if its address is one word, its name has no
/// white characters around it, and neither holds an escape character.
pub proof fn law_device_reads_back(device: DeviceModel)
    requires
        is_word(device.mac),
        is_trimmed(device.name),
        !device.mac.contains('\u{1b}'),
        !device.name.contains('\u{1b}'),
    ensures
        device_of_line(device_line(device)) == Some(device),
{
    reveal_strlit("Device ");
    let line = device_line(device);
    assert forall|i: int| 0 <= i < line.len() implies line[i] != '\u{1b}' by {
        if 7 <= i < 7 + device.mac.len() {
            assert(line[i] == device.mac[i - 7]);
        } else if i > 7 + device.mac.len() {
            assert(line[i] == device.name[i - 8 - device.mac.len()]);
        }
    }
    law_plain_text_is_kept(line);
    assert(line[0] == 'D');
    assert(line.last() == device.name.last());
    lemma_trimmed_stays(line);
    assert(line.subrange(0, 7) == "Device "@);
    let rest = line.skip(7);
    let n = device.mac.len() as int;
    assert forall|i: int| 0 <= i < n implies !is_white(#[trigger] rest[i]) by {
        assert(rest[i] == device.mac[i]);
    }
    assert(rest[n] == ' ');
    lemma_word_len(rest, n);
    assert(rest.take(n) == device.mac);
    assert(rest.skip(n + 1) == device.name);
    lemma_trimmed_stays(device.name);
}

/// The line that describes a device by one name and one value.
pub open spec fn info_line(key: Seq<char>, value: Seq<char>) -> Seq<char> {
    key + seq![':', ' '] + value
}

/// A name and a value, which may be empty, read back from their line, if neither has
/// white characters around it or holds an escape character, the name holds no colon,
/// and the line is not one that lists a device.
pub proof fn law_info_reads_back(key: Seq<char>, value: Seq<char>)
    requires
        is_trimmed(key),
        value.len() == 0 || is_trimmed(value),
        !key.contains(':'),
        !key.contains('\u{1b}'),
        !value.contains('\u{1b}'),
        !"Device "@.is_prefix_of(info_line(key, value)),
    ensures
        info_of_line(info_line(key, value)) == Some((key, value)),
{
    let line = info_line(key, value);
    let n = key.len() as int;
    assert forall|i: int| 0 <= i < line.len() implies line[i] != '\u{1b}' by {
        if i < n {
            assert(line[i] == key[i]);
        } else if i >= n + 2 {
            assert(line[i] == value[i - n - 2]);
        }
    }
    law_plain_text_is_kept(line);
    assert forall|i: int| 0 <= i < n implies #[trigger] line[i] != ':' by {
        assert(line[i] == key[i]);
    }
    let entry = trimmed_end(line);
    if value.len() == 0 {
        assert(line[n] == ':' && line[n + 1] == ' ');
        lemma_trimmed_end(line, n + 1);
        lemma_until_char(entry, ':', n);
        assert(entry.skip(n + 1) == value);
        lemma_white_len(value, 0);
        assert(value.skip(0) == value);
        assert("Device "@.is_prefix_of(entry) ==> "Device "@.is_prefix_of(line)) by {
            if "Device "@.is_prefix_of(entry) {
                let m = "Device "@.len() as int;
                assert(line.subrange(0, m) == entry.subrange(0, m));
            }
        }
    } else {
        assert(line.last() == value.last());
        assert(line[0] == key[0]);
        lemma_trimmed_stays(line);
        lemma_until_char(line, ':', n);
        let rest = line.skip(n + 1);
        assert(rest == seq![' '] + value);
        assert(rest[0] == ' ' && rest[1] == value[0]);
        lemma_white_len(rest, 1);
        assert(rest.skip(1) == value);
        lemma_trimmed_stays(value);
    }
    assert(entry.take(n) == key);
    lemma_trimmed_stays(key);
}

// ---------------------------------------------------------------------------
// Numbers and words
// ---------------------------------------------------------------------------

proof fn lemma_decimal(n: nat)
    ensures
        decimal(n).len() > 0,
        digits_value(decimal(n), 10) == Some(n),
        forall|i: int| 0 <= i < decimal(n).len() ==> '0' <= #[trigger] decimal(n)[i] <= '9',
    decreases n,
{
    if n < 10 {
        let s = decimal(n);
        assert(s.drop_last() == Seq::<char>::empty());
        assert(digits_value(Seq::<char>::empty(), 10) == Some(0nat));
        assert(s.last() == digit_char(n));
    } else {
        lemma_decimal(n / 10);
        let s = decimal(n);
        assert(s.drop_last() == decimal(n / 10));
        assert(s.last() == digit_char(n % 10));
        assert forall|i: int| 0 <= i < s.len() implies '0' <= #[trigger] s[i] <= '9' by {
            if i < s.len() - 1 {
                assert(s[i] == decimal(n / 10)[i]);
            }
        }
        assert(n / 10 * 10 + n % 10 == n);
    }
}

/// Every number reads back from its text.
pub proof fn law_number_reads_back(i: i32)
    ensures
        decimal_i32(signed_decimal(i as int)) == Some(i),
        is_word(signed_decimal(i as int)),
{
    let s = signed_decimal(i as int);
    if i < 0 {
        lemma_decimal((-i) as nat);
        assert(s.skip(1) == decimal((-i) as nat));
        assert forall|k: int| 0 <= k < s.len() implies !is_white(#[trigger] s[k]) by {
            if k > 0 {
                assert(s[k] == decimal((-i) as nat)[k - 1]);
            }
        }
    } else {
        lemma_decimal(i as nat);
        assert('0' <= s[0] <= '9');
    }
}

proof fn lemma_words_next(word: Seq<char>, separator: char, rest: Seq<char>)
    requires
        is_word(word),
        is_white(separator),
    ensures
        words(word + seq![separator] + rest) == seq![word] + words(rest),
{
    let s = word + seq![separator] + rest;
    let n = word.len() as int;
    assert forall|i: int| 0 <= i < n implies !is_white(#[trigger] s[i]) by {
        assert(s[i] == word[i]);
    }
    assert(s[n] == separator);
    lemma_word_len(s, n);
    assert(s[0] == word[0]);
    assert(s.take(n) == word);
    let tail = s.skip(n);
    assert(tail[0] == separator);
    assert(tail.drop_first() == rest);
    assert(words(tail) == words(rest));
}

proof fn lemma_words_last(word: Seq<char>)
    requires
        is_word(word),
    ensures
        words(word) == seq![word],
{
    lemma_word_len(word, word.len() as int);
    assert(word.take(word.len() as int) == word);
    assert(word.skip(word.len() as int) == Seq::<char>::empty());
    assert(words(Seq::<char>::empty()) == Seq::<Seq<char>>::empty());
}

/// The line that lists a sink: its number, its name, its driver, its format in any
/// number of words, and its state, with tabs between them.
pub open spec fn sink_line(sink: SinkModel, driver: Seq<char>, format: Seq<char>) -> Seq<char> {
    signed_decimal(sink.sink_id as int) + seq!['\t'] + (sink.name + seq!['\t'] + (driver + seq![
        '\t',
    ] + (format + seq!['\t'] + sink.state)))
}

/// Text that holds a word, in front of a white character and another word, has its
/// words and then that word.
proof fn lemma_words_append(s: Seq<char>, separator: char, word: Seq<char>)
    requires
        is_white(separator),
        is_word(word),
    ensures
        words(s + seq![separator] + word) == words(s).push(word),
    decreases s.len(),
{
    let whole = s + seq![separator] + word;
    if s.len() == 0 {
        assert(whole[0] == separator);
        assert(whole.drop_first() == word);
        lemma_words_last(word);
        assert(words(whole) == words(s).push(word));
    } else if is_white(s[0]) {
        assert(whole[0] == s[0]);
        assert(whole.drop_first() == s.drop_first() + seq![separator] + word);
        lemma_words_append(s.drop_first(), separator, word);
    } else {
        lemma_word_len_bounds(s);
        let n = word_len(s) as int;
        assert(whole[0] == s[0]);
        assert forall|i: int| 0 <= i < n implies !is_white(#[trigger] whole[i]) by {
            assert(whole[i] == s[i]);
        }
        if n < s.len() {
            assert(whole[n] == s[n]);
        } else {
            assert(whole[n] == separator);
        }
        lemma_word_len(whole, n);
        assert(whole.take(n) == s.take(n));
        assert(whole.skip(n) == s.skip(n) + seq![separator] + word);
        lemma_words_append(s.skip(n), separator, word);
        assert(words(whole) == words(s).push(word));
    }
}

/// A sink reads back from its line, if its name, its driver and its state are words
/// and its format holds a word.
pub proof fn law_sink_reads_back(sink: SinkModel, driver: Seq<char>, format: Seq<char>)
    requires
        is_word(sink.name),
        is_word(sink.state),
        is_word(driver),
        words(format).len() > 0,
    ensures
        sink_of_line(sink_line(sink, driver, format)) == Some(sink),
{
    law_number_reads_back(sink.sink_id);
    let number = signed_decimal(sink.sink_id as int);
    let end = format + seq!['\t'] + sink.state;
    let middle = driver + seq!['\t'] + end;
    let name = sink.name + seq!['\t'] + middle;
    lemma_words_append(format, '\t', sink.state);
    lemma_words_next(driver, '\t', end);
    lemma_words_next(sink.name, '\t', middle);
    lemma_words_next(number, '\t', name);
    let parts = words(sink_line(sink, driver, format));
    assert(parts == seq![number] + (seq![sink.name] + (seq![driver] + words(format).push(
        sink.state,
    ))));
    assert(parts[0] == number);
    assert(parts[1] == sink.name);
    assert(parts.last() == sink.state);
}

/// The line that lists a card: its number, its name and its driver, with tabs between
/// them.
pub open spec fn card_line(card: CardModel, driver: Seq<char>) -> Seq<char> {
    signed_decimal(card.card_id as int) + seq!['\t'] + (card.name + seq!['\t'] + driver)
}

/// A card reads back from its line, if its name is a word.
pub proof fn law_card_reads_back(card: CardModel, driver: Seq<char>)
    requires
        is_word(card.name),
    ensures
        card_of_line(card_line(card, driver)) == Some(card),
{
    law_number_reads_back(card.card_id);
    let number = signed_decimal(card.card_id as int);
    let rest = card.name + seq!['\t'] + driver;
    lemma_words_next(card.name, '\t', driver);
    lemma_words_next(number, '\t', rest);
    let parts = words(card_line(card, driver));
    assert(parts[0] == number);
    assert(parts[1] == card.name);
}

/// The number of a stream reads back from its line, whatever follows it.
pub proof fn law_stream_reads_back(stream: i32, rest: Seq<char>)
    ensures
        stream_of_line(signed_decimal(stream as int) + seq!['\t'] + rest) == Some(stream),
{
    law_number_reads_back(stream);
    lemma_words_next(signed_decimal(stream as int), '\t', rest);
}

// ---------------------------------------------------------------------------
// Listings that read back
// ---------------------------------------------------------------------------

/// The listing of devices, one line for each.
pub open spec fn device_listing(devices: Seq<DeviceModel>) -> Seq<char>
    decreases devices.len(),
{
    if devices.len() == 0 {
        Seq::empty()
    } else {
        device_listing(devices.drop_last()) + device_line(devices.last()) + seq!['\n']
    }
}

/// A device that a listing can hold.
pub open spec fn is_listable(device: DeviceModel) -> bool {
    &&& is_word(device.mac)
    &&& is_trimmed(device.name)
    &&& !device.mac.contains('\u{1b}')
    &&& !device.name.contains('\u{1b}')
    &&& !device.name.contains('\n')
}

proof fn lemma_single_line(line: Seq<char>)
    requires
        !line.contains('\n'),
        line.len() > 0,
        line.last() != '\r',
    ensures
        lines(line + seq!['\n']) == seq![line],
{
    let s = line + seq!['\n'];
    let n = line.len() as int;
    assert forall|i: int| 0 <= i < n implies #[trigger] s[i] != '\n' by {
        assert(s[i] == line[i]);
    }
    lemma_until_char(s, '\n', n);
    assert(s.take(n) == line);
    assert(s.skip(n + 1) == Seq::<char>::empty());
    assert(lines(Seq::<char>::empty()) == Seq::<Seq<char>>::empty());
    assert(without_carriage_return(line) == line);
    assert(lines(s) == seq![line]);
}

/// A listing of devices reads back: it holds every device that was written into it,
/// in the same order.
pub proof fn law_device_listing_reads_back(devices: Seq<DeviceModel>)
    requires
        forall|i: int| 0 <= i < devices.len() ==> is_listable(#[trigger] devices[i]),
    ensures
        devices_of_lines(lines(device_listing(devices))) == devices,
        devices.len() > 0 ==> device_listing(devices).len() > 0 && device_listing(devices).last()
            == '\n',
    decreases devices.len(),
{
    if devices.len() == 0 {
        assert(lines(Seq::<char>::empty()) == Seq::<Seq<char>>::empty());
        assert(devices_of_lines(lines(device_listing(devices))) == devices);
    } else {
        let earlier = devices.drop_last();
        let device = devices.last();
        assert(is_listable(devices[devices.len() - 1]));
        assert forall|i: int| 0 <= i < earlier.len() implies is_listable(#[trigger] earlier[i]) by {
            assert(earlier[i] == devices[i]);
        }
        law_device_listing_reads_back(earlier);
        law_device_reads_back(device);
        let line = device_line(device);
        reveal_strlit("Device ");
        assert forall|i: int| 0 <= i < line.len() implies line[i] != '\n' by {
            if 7 <= i < 7 + device.mac.len() {
                assert(line[i] == device.mac[i - 7]);
                assert(!is_white(device.mac[i - 7]));
            } else if i > 7 + device.mac.len() {
                assert(line[i] == device.name[i - 8 - device.mac.len()]);
            }
        }
        assert(line.last() == device.name.last());
        lemma_single_line(line);
        let before = device_listing(earlier);
        let tail = line + seq!['\n'];
        assert(device_listing(devices) == before + tail);
        if earlier.len() > 0 {
            law_lines_of_both(before, tail);
        } else {
            assert(before + tail == tail);
            assert(lines(before) == Seq::<Seq<char>>::empty());
            assert(lines(before) + lines(tail) == lines(tail));
        }
        law_devices_line_by_line(lines(before), lines(tail));
        assert(devices_of_lines(seq![line]) == seq![device]) by {
            assert(seq![line].drop_last() == Seq::<Seq<char>>::empty());
            assert(devices_of_lines(Seq::<Seq<char>>::empty()) == Seq::<DeviceModel>::empty());
        }
        assert(earlier + seq![device] == devices);
    }
}

} // verus!
