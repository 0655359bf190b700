//! What holds of addresses, of names, and of what is found by them.

use vstd::prelude::*;

use crate::adapters::hex_digit;
use crate::bluez::{
    info_of_busctl, info_of_properties, is_airpods_like, mac_colon, mac_underscore,
    property_count, property_names,
};
use crate::pulse::{
    airpods_card, airpods_sink, card_belongs, sink_belongs, CardModel, SinkModel,
};
use crate::socket::{bdaddr_of, split_at};
use crate::text::{
    digit_value, digits_value, hex_octet, joined, lemma_until_char, lemma_until_char_bounds, lower,
    until_char, upper,
};

verus! {

/// Both forms of an address can be made from either form, and making a form again
/// changes nothing.
pub proof fn law_address_forms(mac: Seq<char>)
    ensures
        mac_colon(mac_colon(mac)) == mac_colon(mac),
        mac_colon(mac_underscore(mac)) == mac_colon(mac),
        mac_underscore(mac_colon(mac)) == mac_underscore(mac),
        mac_underscore(mac_underscore(mac)) == mac_underscore(mac),
{
    assert(mac_colon(mac_colon(mac)) =~= mac_colon(mac));
    assert(mac_colon(mac_underscore(mac)) =~= mac_colon(mac));
    assert(mac_underscore(mac_colon(mac)) =~= mac_underscore(mac));
    assert(mac_underscore(mac_underscore(mac)) =~= mac_underscore(mac));
}

/// Whether an address is written in upper or lower case letters makes no difference.
pub proof fn law_address_ignores_case(mac: Seq<char>)
    ensures
        mac_colon(lower(mac)) == mac_colon(mac),
        mac_colon(upper(mac)) == mac_colon(mac),
        mac_underscore(lower(mac)) == mac_underscore(mac),
        mac_underscore(upper(mac)) == mac_underscore(mac),
{
    assert(mac_colon(lower(mac)) =~= mac_colon(mac));
    assert(mac_colon(upper(mac)) =~= mac_colon(mac));
}

/// Whether a name is written in upper or lower case letters makes no difference to
/// whether it is that of AirPods or of something like them.
pub proof fn law_airpods_names_ignore_case(name: Seq<char>)
    ensures
        is_airpods_like(lower(name)) == is_airpods_like(name),
        is_airpods_like(upper(name)) == is_airpods_like(name),
{
    assert(lower(lower(name)) =~= lower(name));
    assert(lower(upper(name)) =~= lower(name));
}

/// The sink that is found for a device is listed and belongs to it, and is found under
/// both forms of the address, in upper and in lower case letters; none is found only if
/// none belongs to it.
pub proof fn law_sink_of_device(sinks: Seq<SinkModel>, mac: Seq<char>)
    ensures
        match airpods_sink(sinks, mac) {
            Some(sink) => sinks.contains(sink) && sink_belongs(sink.name, mac),
            None => forall|i: int|
                0 <= i < sinks.len() ==> !sink_belongs((#[trigger] sinks[i]).name, mac),
        },
        airpods_sink(sinks, mac_colon(mac)) == airpods_sink(sinks, mac),
        airpods_sink(sinks, mac_underscore(mac)) == airpods_sink(sinks, mac),
        airpods_sink(sinks, lower(mac)) == airpods_sink(sinks, mac),
        airpods_sink(sinks, upper(mac)) == airpods_sink(sinks, mac),
    decreases sinks.len(),
{
    law_address_forms(mac);
    law_address_ignores_case(mac);
    if sinks.len() > 0 {
        if sink_belongs(sinks[0].name, mac) {
            assert(sinks[0] == airpods_sink(sinks, mac)->0);
        } else {
            let rest = sinks.drop_first();
            law_sink_of_device(rest, mac);
            match airpods_sink(rest, mac) {
                Some(sink) => {
                    let i = choose|i: int| 0 <= i < rest.len() && rest[i] == sink;
                    assert(sinks[i + 1] == sink);
                },
                None => {
                    assert forall|i: int| 0 <= i < sinks.len() implies !sink_belongs(
                        (#[trigger] sinks[i]).name,
                        mac,
                    ) by {
                        if i > 0 {
                            assert(rest[i - 1] == sinks[i]);
                        }
                    }
                },
            }
        }
    }
}

/// The card that is found for a device is listed and belongs to it, and is found under
/// both forms of the address, in upper and in lower case letters; none is found only if
/// none belongs to it.
pub proof fn law_card_of_device(cards: Seq<CardModel>, mac: Seq<char>)
    ensures
        match airpods_card(cards, mac) {
            Some(card) => cards.contains(card) && card_belongs(card.name, mac),
            None => forall|i: int|
                0 <= i < cards.len() ==> !card_belongs((#[trigger] cards[i]).name, mac),
        },
        airpods_card(cards, mac_colon(mac)) == airpods_card(cards, mac),
        airpods_card(cards, mac_underscore(mac)) == airpods_card(cards, mac),
        airpods_card(cards, lower(mac)) == airpods_card(cards, mac),
        airpods_card(cards, upper(mac)) == airpods_card(cards, mac),
    decreases cards.len(),
{
    law_address_forms(mac);
    law_address_ignores_case(mac);
    if cards.len() > 0 {
        if card_belongs(cards[0].name, mac) {
            assert(cards[0] == airpods_card(cards, mac)->0);
        } else {
            let rest = cards.drop_first();
            law_card_of_device(rest, mac);
            match airpods_card(rest, mac) {
                Some(card) => {
                    let i = choose|i: int| 0 <= i < rest.len() && rest[i] == card;
                    assert(cards[i + 1] == card);
                },
                None => {
                    assert forall|i: int| 0 <= i < cards.len() implies !card_belongs(
                        (#[trigger] cards[i]).name,
                        mac,
                    ) by {
                        if i > 0 {
                            assert(rest[i - 1] == cards[i]);
                        }
                    }
                },
            }
        }
    }
}

proof fn lemma_properties_have_names(values: Seq<Option<String>>, n: int, key: Seq<char>)
    requires
        n <= property_names().len(),
        info_of_properties(values, n).contains_key(key),
    ensures
        property_names().contains(key),
    decreases n,
{
    if n > 0 {
        if values[n - 1] is Some && property_names()[n - 1] == key {
        } else {
            lemma_properties_have_names(values, n - 1, key);
        }
    }
}

/// What the system bus tells of the classic bearer is what it tells of the device.
pub proof fn law_classic_bearer_follows_device(values: Seq<Option<String>>)
    ensures
        info_of_busctl(values).contains_key("BREDR.Connected"@) == info_of_busctl(
            values,
        ).contains_key("Connected"@),
        info_of_busctl(values).contains_key("Connected"@) ==> info_of_busctl(
            values,
        )["BREDR.Connected"@] == info_of_busctl(values)["Connected"@],
        info_of_busctl(values).contains_key("BREDR.Bonded"@) == info_of_busctl(
            values,
        ).contains_key("Bonded"@),
        info_of_busctl(values).contains_key("Bonded"@) ==> info_of_busctl(values)["BREDR.Bonded"@]
            == info_of_busctl(values)["Bonded"@],
{
    let info = info_of_properties(values, property_count(values));
    reveal_strlit("Name");
    reveal_strlit("Alias");
    reveal_strlit("Address");
    reveal_strlit("AddressType");
    reveal_strlit("Paired");
    reveal_strlit("Bonded");
    reveal_strlit("Trusted");
    reveal_strlit("Blocked");
    reveal_strlit("Connected");
    reveal_strlit("LegacyPairing");
    reveal_strlit("CablePairing");
    reveal_strlit("Modalias");
    reveal_strlit("PreferredBearer");
    reveal_strlit("ServicesResolved");
    reveal_strlit("BREDR.Connected");
    reveal_strlit("BREDR.Bonded");
    assert forall|i: int| 0 <= i < property_names().len() implies #[trigger] property_names()[i]
        != "BREDR.Connected"@ && property_names()[i] != "BREDR.Bonded"@ by {
        assert(property_names()[i][0] != 'B' || property_names()[i][1] != 'R');
        assert("BREDR.Connected"@[0] == 'B' && "BREDR.Connected"@[1] == 'R');
        assert("BREDR.Bonded"@[0] == 'B' && "BREDR.Bonded"@[1] == 'R');
    }
    if info.contains_key("BREDR.Connected"@) {
        lemma_properties_have_names(values, property_count(values), "BREDR.Connected"@);
    }
    if info.contains_key("BREDR.Bonded"@) {
        lemma_properties_have_names(values, property_count(values), "BREDR.Bonded"@);
    }
    assert("BREDR.Connected"@.len() != "BREDR.Bonded"@.len());
    assert("Connected"@[0] == 'C');
    assert("Bonded"@[1] == 'o');
}

proof fn lemma_split_append(a: Seq<char>, part: Seq<char>)
    requires
        !part.contains(':'),
    ensures
        split_at(a + seq![':'] + part, ':') == split_at(a, ':').push(part),
    decreases a.len(),
{
    let whole = a + seq![':'] + part;
    lemma_until_char_bounds(a, ':');
    let n = until_char(a, ':') as int;
    if n < a.len() {
        assert(whole[n] == a[n]);
        lemma_until_char(whole, ':', n);
        lemma_split_append(a.skip(n + 1), part);
        assert(whole.skip(n + 1) == a.skip(n + 1) + seq![':'] + part);
        assert(whole.take(n) == a.take(n));
        assert(split_at(whole, ':') == split_at(a, ':').push(part));
    } else {
        lemma_until_char(whole, ':', n);
        assert(whole.skip(n + 1) == part);
        assert(whole.take(n) == a);
        lemma_until_char_bounds(part, ':');
        lemma_until_char(part, ':', part.len() as int);
        assert(split_at(part, ':') == seq![part]);
        assert(split_at(whole, ':') == seq![a] + seq![part]);
        assert(split_at(whole, ':') == split_at(a, ':').push(part));
    }
}

proof fn lemma_split_joined(parts: Seq<Seq<char>>)
    requires
        parts.len() > 0,
        forall|i: int| 0 <= i < parts.len() ==> !(#[trigger] parts[i]).contains(':'),
    ensures
        split_at(joined(parts, seq![':']), ':') == parts,
    decreases parts.len(),
{
    if parts.len() == 1 {
        lemma_until_char_bounds(parts[0], ':');
        lemma_until_char(parts[0], ':', parts[0].len() as int);
        assert(split_at(parts[0], ':') == parts);
    } else {
        lemma_split_joined(parts.drop_last());
        lemma_split_append(joined(parts.drop_last(), seq![':']), parts.last());
        assert(parts.drop_last().push(parts.last()) == parts);
    }
}

/// A byte in two hexadecimal digits.
pub open spec fn octet_text(byte: u8) -> Seq<char> {
    seq![hex_digit(byte as int / 16), hex_digit(byte as int % 16)]
}

proof fn lemma_octet_reads_back(byte: u8)
    ensures
        hex_octet(octet_text(byte)) == Some(byte),
        hex_octet(upper(octet_text(byte))) == Some(byte),
        !octet_text(byte).contains(':'),
        !upper(octet_text(byte)).contains(':'),
{
    reveal_with_fuel(digits_value, 3);
    let small = octet_text(byte);
    let large = upper(small);
    assert(small.drop_last() == seq![small[0]]);
    assert(large.drop_last() == seq![large[0]]);
    assert(small.drop_last().drop_last() == Seq::<char>::empty());
    assert(large.drop_last().drop_last() == Seq::<char>::empty());
    assert(digit_value(small[0]) == Some((byte as int / 16) as nat));
    assert(digit_value(small[1]) == Some((byte as int % 16) as nat));
    assert(digit_value(large[0]) == Some((byte as int / 16) as nat));
    assert(digit_value(large[1]) == Some((byte as int % 16) as nat));
}

/// The bytes of an address, the last one first, as its text shows them.
pub open spec fn address_text(address: Seq<u8>) -> Seq<char> {
    joined(Seq::new(6, |i: int| octet_text(address[5 - i])), seq![':'])
}

/// Every address reads back from its text, in lower and in upper case letters.
pub proof fn law_address_reads_back(address: Seq<u8>)
    requires
        address.len() == 6,
    ensures
        bdaddr_of(address_text(address)) == Some(address),
        bdaddr_of(upper(address_text(address))) == Some(address),
{
    let small = Seq::new(6, |i: int| octet_text(address[5 - i]));
    let large = Seq::new(6, |i: int| upper(octet_text(address[5 - i])));
    assert forall|i: int| 0 <= i < 6 implies !(#[trigger] small[i]).contains(':') && hex_octet(
        small[i],
    ) == Some(address[5 - i]) by {
        lemma_octet_reads_back(address[5 - i]);
    }
    assert forall|i: int| 0 <= i < 6 implies !(#[trigger] large[i]).contains(':') && hex_octet(
        large[i],
    ) == Some(address[5 - i]) by {
        lemma_octet_reads_back(address[5 - i]);
    }
    lemma_split_joined(small);
    lemma_split_joined(large);
    lemma_upper_joined(small);
    assert(small.map_values(|part: Seq<char>| upper(part)) =~= large);
    assert(bdaddr_of(address_text(address))->0 =~= address);
    assert(bdaddr_of(upper(address_text(address)))->0 =~= address);
}

proof fn lemma_upper_joined(parts: Seq<Seq<char>>)
    ensures
        upper(joined(parts, seq![':'])) == joined(
            parts.map_values(|part: Seq<char>| upper(part)),
            seq![':'],
        ),
    decreases parts.len(),
{
    let large = parts.map_values(|part: Seq<char>| upper(part));
    if parts.len() == 0 {
        assert(upper(joined(parts, seq![':'])) =~= joined(large, seq![':']));
    } else if parts.len() > 1 {
        lemma_upper_joined(parts.drop_last());
        assert(parts.drop_last().map_values(|part: Seq<char>| upper(part)) =~= large.drop_last());
        assert(upper(joined(parts, seq![':'])) =~= upper(joined(parts.drop_last(), seq![':']))
            + seq![':'] + upper(parts.last()));
    }
}

} // verus!
