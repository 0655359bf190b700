//! Sinks, cards and streams, as the audio server lists them.

use vstd::prelude::*;

use crate::bluez::{
    mac_colon, mac_underscore, normalize_mac_colon, normalize_mac_underscore, optional_outcome,
};
use crate::command::{
    move_stream_command, CommandLine, CommandModel, CommandOutcome, CommandResult,
};
use crate::text::{
    chars_of, contains_text, decimal_i32, lines, occurs_in, optional_str, optional_text,
    parse_i32, same_text, signed_decimal, split_lines, split_words, starts_with_text, text_of,
    trim, trimmed, views, words,
};

verus! {

// ---------------------------------------------------------------------------
// Listings
// ---------------------------------------------------------------------------

#[derive(Debug, Clone, PartialEq, Eq)]
pub struct Sink {
    pub sink_id: i32,
    pub name: String,
    pub state: String,
}

/// What a sink holds.
#[verifier::ext_equal]
pub struct SinkModel {
    pub sink_id: i32,
    pub name: Seq<char>,
    pub state: Seq<char>,
}

impl View for Sink {
    type V = SinkModel;

    open spec fn view(&self) -> SinkModel {
        SinkModel { sink_id: self.sink_id, name: self.name@, state: self.state@ }
    }
}

impl Sink {
    /// A copy of the sink.
    pub fn copied(&self) -> (r: Sink)
        ensures
            r@ == self@,
    {
        Sink { sink_id: self.sink_id, name: self.name.clone(), state: self.state.clone() }
    }
}

#[derive(Debug, Clone, PartialEq, Eq)]
pub struct Card {
    pub card_id: i32,
    pub name: String,
}

/// What a card holds.
#[verifier::ext_equal]
pub struct CardModel {
    pub card_id: i32,
    pub name: Seq<char>,
}

impl View for Card {
    type V = CardModel;

    open spec fn view(&self) -> CardModel {
        CardModel { card_id: self.card_id, name: self.name@ }
    }
}

impl Card {
    /// A copy of the card.
    pub fn copied(&self) -> (r: Card)
        ensures
            r@ == self@,
    {
        Card { card_id: self.card_id, name: self.name.clone() }
    }
}

/// What sinks hold.
pub open spec fn sink_models(sinks: Seq<Sink>) -> Seq<SinkModel> {
    sinks.map_values(|s: Sink| s@)
}

/// What cards hold.
pub open spec fn card_models(cards: Seq<Card>) -> Seq<CardModel> {
    cards.map_values(|c: Card| c@)
}

/// What a sink that may be missing holds.
pub open spec fn optional_sink(sink: Option<Sink>) -> Option<SinkModel> {
    match sink {
        Some(sink) => Some(sink@),
        None => None,
    }
}

/// What a card that may be missing holds.
pub open spec fn optional_card(card: Option<Card>) -> Option<CardModel> {
    match card {
        Some(card) => Some(card@),
        None => None,
    }
}

/// The sink that one line lists: at least five words, of which the first is the
/// number, the second the name and the last the state.
pub open spec fn sink_of_line(line: Seq<char>) -> Option<SinkModel> {
    let parts = words(line);
    match decimal_i32(parts[0]) {
        Some(sink_id) if parts.len() >= 5 => Some(
            SinkModel { sink_id, name: parts[1], state: parts.last() },
        ),
        _ => None,
    }
}

/// The card that one line lists: at least two words, the number and the name.
pub open spec fn card_of_line(line: Seq<char>) -> Option<CardModel> {
    let parts = words(line);
    match decimal_i32(parts[0]) {
        Some(card_id) if parts.len() >= 2 => Some(CardModel { card_id, name: parts[1] }),
        _ => None,
    }
}

/// The number of the stream that one line lists: its first word.
pub open spec fn stream_of_line(line: Seq<char>) -> Option<i32> {
    let parts = words(line);
    if parts.len() >= 1 {
        decimal_i32(parts[0])
    } else {
        None
    }
}

/// The sinks that the lines list, in their order.
pub open spec fn sinks_of_lines(lines: Seq<Seq<char>>) -> Seq<SinkModel>
    decreases lines.len(),
{
    if lines.len() == 0 {
        Seq::empty()
    } else {
        match sink_of_line(lines.last()) {
            Some(sink) => sinks_of_lines(lines.drop_last()).push(sink),
            None => sinks_of_lines(lines.drop_last()),
        }
    }
}

/// The cards that the lines list, in their order.
pub open spec fn cards_of_lines(lines: Seq<Seq<char>>) -> Seq<CardModel>
    decreases lines.len(),
{
    if lines.len() == 0 {
        Seq::empty()
    } else {
        match card_of_line(lines.last()) {
            Some(card) => cards_of_lines(lines.drop_last()).push(card),
            None => cards_of_lines(lines.drop_last()),
        }
    }
}

/// The streams that the lines list, in their order.
pub open spec fn streams_of_lines(lines: Seq<Seq<char>>) -> Seq<i32>
    decreases lines.len(),
{
    if lines.len() == 0 {
        Seq::empty()
    } else {
        match stream_of_line(lines.last()) {
            Some(stream) => streams_of_lines(lines.drop_last()).push(stream),
            None => streams_of_lines(lines.drop_last()),
        }
    }
}

fn parse_sink_line(line: &[char]) -> (r: Option<Sink>)
    ensures
        optional_sink(r) == sink_of_line(line@),
{
    let parts = split_words(line);
    assert(views(parts@).len() == parts@.len());
    if parts.len() < 5 {
        return None;
    }
    assert(views(parts@)[0] == parts@[0]@);
    assert(views(parts@)[1] == parts@[1]@);
    assert(views(parts@).last() == parts@.last()@);
    match parse_i32(parts[0]) {
        Some(sink_id) => Some(
            Sink {
                sink_id,
                name: text_of(parts[1]),
                state: text_of(parts[parts.len() - 1]),
            },
        ),
        None => None,
    }
}

fn parse_card_line(line: &[char]) -> (r: Option<Card>)
    ensures
        optional_card(r) == card_of_line(line@),
{
    let parts = split_words(line);
    assert(views(parts@).len() == parts@.len());
    if parts.len() < 2 {
        return None;
    }
    assert(views(parts@)[0] == parts@[0]@);
    assert(views(parts@)[1] == parts@[1]@);
    match parse_i32(parts[0]) {
        Some(card_id) => Some(Card { card_id, name: text_of(parts[1]) }),
        None => None,
    }
}

fn parse_stream_line(line: &[char]) -> (r: Option<i32>)
    ensures
        r == stream_of_line(line@),
{
    let parts = split_words(line);
    assert(views(parts@).len() == parts@.len());
    if parts.len() < 1 {
        return None;
    }
    assert(views(parts@)[0] == parts@[0]@);
    parse_i32(parts[0])
}

pub fn parse_short_sinks(output: &str) -> (r: Vec<Sink>)
    ensures
        sink_models(r@) == sinks_of_lines(lines(output@)),
{
    let chars = chars_of(output);
    let all = split_lines(chars.as_slice());
    let ghost models = lines(output@);
    let mut r: Vec<Sink> = Vec::new();
    let mut i: usize = 0;
    while i < all.len()
        invariant
            i <= all@.len(),
            models == views(all@),
            sink_models(r@) == sinks_of_lines(models.take(i as int)),
        decreases all@.len() - i,
    {
        let ghost before = r@;
        assert(models.take(i + 1).drop_last() == models.take(i as int));
        assert(models.take(i + 1).last() == all@[i as int]@);
        if let Some(sink) = parse_sink_line(all[i]) {
            r.push(sink);
            assert(sink_models(r@) == sink_models(before).push(sink@));
        }
        i += 1;
    }
    assert(models.take(models.len() as int) == models);
    r
}

pub fn parse_short_cards(output: &str) -> (r: Vec<Card>)
    ensures
        card_models(r@) == cards_of_lines(lines(output@)),
{
    let chars = chars_of(output);
    let all = split_lines(chars.as_slice());
    let ghost models = lines(output@);
    let mut r: Vec<Card> = Vec::new();
    let mut i: usize = 0;
    while i < all.len()
        invariant
            i <= all@.len(),
            models == views(all@),
            card_models(r@) == cards_of_lines(models.take(i as int)),
        decreases all@.len() - i,
    {
        let ghost before = r@;
        assert(models.take(i + 1).drop_last() == models.take(i as int));
        assert(models.take(i + 1).last() == all@[i as int]@);
        if let Some(card) = parse_card_line(all[i]) {
            r.push(card);
            assert(card_models(r@) == card_models(before).push(card@));
        }
        i += 1;
    }
    assert(models.take(models.len() as int) == models);
    r
}

fn parse_streams(output: &str) -> (r: Vec<i32>)
    ensures
        r@ == streams_of_lines(lines(output@)),
{
    let chars = chars_of(output);
    let all = split_lines(chars.as_slice());
    let ghost models = lines(output@);
    let mut r: Vec<i32> = Vec::new();
    let mut i: usize = 0;
    while i < all.len()
        invariant
            i <= all@.len(),
            models == views(all@),
            r@ == streams_of_lines(models.take(i as int)),
        decreases all@.len() - i,
    {
        assert(models.take(i + 1).drop_last() == models.take(i as int));
        assert(models.take(i + 1).last() == all@[i as int]@);
        if let Some(stream) = parse_stream_line(all[i]) {
            r.push(stream);
        }
        i += 1;
    }
    assert(models.take(models.len() as int) == models);
    r
}

// ---------------------------------------------------------------------------
// What the commands report
// ---------------------------------------------------------------------------

/// The running streams; none if they could not be listed.
pub open spec fn streams_of_command(outcome: Option<CommandOutcome>) -> Seq<i32> {
    match outcome {
        Some(outcome) if outcome.code == 0 => streams_of_lines(lines(outcome.stdout)),
        _ => Seq::empty(),
    }
}

pub fn list_sink_inputs(result: Option<CommandResult>) -> (r: Vec<i32>)
    ensures
        r@ == streams_of_command(optional_outcome(result)),
{
    match result {
        Some(result) => if result.code == 0 {
            parse_streams(result.stdout.as_str())
        } else {
            Vec::new()
        },
        None => Vec::new(),
    }
}

/// The command that moves a stream to a sink; a stream that cannot be moved is no error.
pub open spec fn move_command(stream: i32, sink_name: Seq<char>) -> CommandModel {
    CommandModel {
        args: seq!["pactl"@, "move-sink-input"@, signed_decimal(stream as int), sink_name],
        timeout_seconds: 10,
        check: false,
    }
}

/// What command lines hold.
pub open spec fn command_models(commands: Seq<CommandLine>) -> Seq<CommandModel> {
    commands.map_values(|c: CommandLine| c@)
}

/// The commands that move every running stream to a sink, in the order of the listing.
pub fn move_stream_commands(result: Option<CommandResult>, sink_name: &str) -> (r: Vec<
    CommandLine,
>)
    ensures
        command_models(r@) == streams_of_command(optional_outcome(result)).map_values(
            |stream: i32| move_command(stream, sink_name@),
        ),
{
    let streams = list_sink_inputs(result);
    let mut r: Vec<CommandLine> = Vec::new();
    let mut i: usize = 0;
    while i < streams.len()
        invariant
            i <= streams@.len(),
            r@.len() == i,
            forall|j: int|
                0 <= j < i ==> (#[trigger] r@[j])@ == move_command(streams@[j], sink_name@),
        decreases streams@.len() - i,
    {
        r.push(move_stream_command(streams[i], sink_name));
        i += 1;
    }
    assert(command_models(r@) =~= streams@.map_values(
        |stream: i32| move_command(stream, sink_name@),
    ));
    r
}

/// The name of the default sink, if there is one.
pub open spec fn default_sink_of_command(outcome: Option<CommandOutcome>) -> Option<Seq<char>> {
    match outcome {
        Some(outcome) if outcome.code == 0 && trimmed(outcome.stdout).len() > 0 => Some(
            trimmed(outcome.stdout),
        ),
        _ => None,
    }
}

pub fn current_default_sink(result: Option<CommandResult>) -> (r: Option<String>)
    ensures
        optional_text(r) == default_sink_of_command(optional_outcome(result)),
{
    match result {
        Some(result) => {
            if result.code != 0 {
                return None;
            }
            let chars = chars_of(result.stdout.as_str());
            let name = trim(chars.as_slice());
            if name.len() > 0 {
                Some(text_of(name))
            } else {
                None
            }
        },
        None => None,
    }
}

// ---------------------------------------------------------------------------
// The sink and the card of a device
// ---------------------------------------------------------------------------

/// A sink that belongs to the device: its name holds the address in either form.
pub open spec fn sink_belongs(name: Seq<char>, mac: Seq<char>) -> bool {
    occurs_in(mac_colon(mac), name) || occurs_in(mac_underscore(mac), name)
}

/// A card that belongs to the device: its name holds the address with underscores.
pub open spec fn card_belongs(name: Seq<char>, mac: Seq<char>) -> bool {
    occurs_in(mac_underscore(mac), name)
}

/// The first sink that belongs to the device.
pub open spec fn airpods_sink(sinks: Seq<SinkModel>, mac: Seq<char>) -> Option<SinkModel>
    decreases sinks.len(),
{
    if sinks.len() == 0 {
        None
    } else if sink_belongs(sinks[0].name, mac) {
        Some(sinks[0])
    } else {
        airpods_sink(sinks.drop_first(), mac)
    }
}

/// The first card that belongs to the device.
pub open spec fn airpods_card(cards: Seq<CardModel>, mac: Seq<char>) -> Option<CardModel>
    decreases cards.len(),
{
    if cards.len() == 0 {
        None
    } else if card_belongs(cards[0].name, mac) {
        Some(cards[0])
    } else {
        airpods_card(cards.drop_first(), mac)
    }
}

/// A sink to fall back to: no Bluetooth sink, and not the excluded one.
pub open spec fn is_fallback(name: Seq<char>, exclude_name: Option<Seq<char>>) -> bool {
    exclude_name != Some(name) && !"bluez_"@.is_prefix_of(name)
}

/// The first sink to fall back to.
pub open spec fn fallback_sink(sinks: Seq<SinkModel>, exclude_name: Option<Seq<char>>) -> Option<
    SinkModel,
>
    decreases sinks.len(),
{
    if sinks.len() == 0 {
        None
    } else if is_fallback(sinks[0].name, exclude_name) {
        Some(sinks[0])
    } else {
        fallback_sink(sinks.drop_first(), exclude_name)
    }
}

pub fn find_airpods_sink(sinks: &Vec<Sink>, mac: &str) -> (r: Option<Sink>)
    ensures
        optional_sink(r) == airpods_sink(sink_models(sinks@), mac@),
{
    let colon = normalize_mac_colon(mac);
    let underscore = normalize_mac_underscore(mac);
    let ghost models = sink_models(sinks@);
    let mut i: usize = 0;
    assert(models.skip(0) == models);
    while i < sinks.len()
        invariant
            i <= sinks@.len(),
            models == sink_models(sinks@),
            colon@ == mac_colon(mac@),
            underscore@ == mac_underscore(mac@),
            airpods_sink(models, mac@) == airpods_sink(models.skip(i as int), mac@),
        decreases sinks@.len() - i,
    {
        assert(models.skip(i as int)[0] == sinks@[i as int]@);
        assert(models.skip(i as int).drop_first() == models.skip(i + 1));
        let name = sinks[i].name.as_str();
        if contains_text(name, colon.as_str()) || contains_text(name, underscore.as_str()) {
            return Some(sinks[i].copied());
        }
        i += 1;
    }
    None
}

pub fn find_airpods_card(cards: &Vec<Card>, mac: &str) -> (r: Option<Card>)
    ensures
        optional_card(r) == airpods_card(card_models(cards@), mac@),
{
    let underscore = normalize_mac_underscore(mac);
    let ghost models = card_models(cards@);
    let mut i: usize = 0;
    assert(models.skip(0) == models);
    while i < cards.len()
        invariant
            i <= cards@.len(),
            models == card_models(cards@),
            underscore@ == mac_underscore(mac@),
            airpods_card(models, mac@) == airpods_card(models.skip(i as int), mac@),
        decreases cards@.len() - i,
    {
        assert(models.skip(i as int)[0] == cards@[i as int]@);
        assert(models.skip(i as int).drop_first() == models.skip(i + 1));
        if contains_text(cards[i].name.as_str(), underscore.as_str()) {
            return Some(cards[i].copied());
        }
        i += 1;
    }
    None
}

pub fn find_fallback_sink(sinks: &Vec<Sink>, exclude_name: Option<&str>) -> (r: Option<Sink>)
    ensures
        optional_sink(r) == fallback_sink(sink_models(sinks@), optional_str(exclude_name)),
{
    let ghost models = sink_models(sinks@);
    let ghost excluded = optional_str(exclude_name);
    let mut i: usize = 0;
    assert(models.skip(0) == models);
    while i < sinks.len()
        invariant
            i <= sinks@.len(),
            models == sink_models(sinks@),
            excluded == optional_str(exclude_name),
            fallback_sink(models, excluded) == fallback_sink(models.skip(i as int), excluded),
        decreases sinks@.len() - i,
    {
        assert(models.skip(i as int)[0] == sinks@[i as int]@);
        assert(models.skip(i as int).drop_first() == models.skip(i + 1));
        let name = sinks[i].name.as_str();
        let is_excluded: bool = match exclude_name {
            Some(other) => same_text(other, name),
            None => false,
        };
        if !is_excluded && !starts_with_text(name, "bluez_") {
            return Some(sinks[i].copied());
        }
        i += 1;
    }
    None
}

} // verus!
