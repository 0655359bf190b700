//! What is found by a name or an address: the first that will do, and why it will do.

use vstd::prelude::*;

use crate::bluez::{
    first_entry, is_airpods_like, mac_colon, mac_underscore, path_suffix, tree_entry,
};
use crate::pulse::{
    airpods_card, airpods_sink, card_belongs, fallback_sink, is_fallback, sink_belongs, CardModel,
    SinkModel,
};
use crate::text::{lower, occurs_in};
use crate::text_laws::law_occurs;

verus! {

// ---------------------------------------------------------------------------
// Names and addresses
// ---------------------------------------------------------------------------

/// The words `AirPods` and `Beats` count wherever they stand in a name.
pub proof fn law_airpods_anywhere(a: Seq<char>, b: Seq<char>)
    ensures
        is_airpods_like(a + "AirPods"@ + b),
        is_airpods_like(a + "Beats"@ + b),
{
    reveal_strlit("AirPods");
    reveal_strlit("airpods");
    reveal_strlit("Beats");
    reveal_strlit("beats");
    let one = a + "AirPods"@ + b;
    let two = a + "Beats"@ + b;
    assert(lower(one) =~= lower(a) + "airpods"@ + lower(b)) by {
        assert(lower("AirPods"@) =~= "airpods"@);
    }
    assert(lower(two) =~= lower(a) + "beats"@ + lower(b)) by {
        assert(lower("Beats"@) =~= "beats"@);
    }
    law_occurs("airpods"@, lower(one));
    law_occurs("beats"@, lower(two));
}

/// A name is like AirPods if and only if it holds one of the two words, in upper or lower
/// case letters.
pub proof fn law_airpods_words(name: Seq<char>)
    ensures
        is_airpods_like(name) <==> exists|a: Seq<char>, w: Seq<char>, b: Seq<char>|
            name == #[trigger] (a + w + b) && (lower(w) == "airpods"@ || lower(w) == "beats"@),
{
    law_occurs("airpods"@, lower(name));
    law_occurs("beats"@, lower(name));
    if exists|a: Seq<char>, w: Seq<char>, b: Seq<char>|
        name == #[trigger] (a + w + b) && (lower(w) == "airpods"@ || lower(w) == "beats"@) {
        let (a, w, b) = choose|a: Seq<char>, w: Seq<char>, b: Seq<char>|
            name == #[trigger] (a + w + b) && (lower(w) == "airpods"@ || lower(w) == "beats"@);
        assert(lower(name) =~= lower(a) + lower(w) + lower(b));
    }
    if is_airpods_like(name) {
        if occurs_in("airpods"@, lower(name)) {
            lemma_same_place(name, "airpods"@);
        } else {
            lemma_same_place(name, "beats"@);
        }
    }
}

pub proof fn lemma_same_place(name: Seq<char>, word: Seq<char>)
    requires
        occurs_in(word, lower(name)),
    ensures
        exists|a: Seq<char>, w: Seq<char>, b: Seq<char>|
            name == #[trigger] (a + w + b) && lower(w) == word,
{
    law_occurs(word, lower(name));
    let (x, y) = choose|x: Seq<char>, y: Seq<char>| lower(name) == #[trigger] (x + word + y);
    let n = x.len() as int;
    let m = n + word.len();
    let a = name.take(n);
    let w = name.subrange(n, m);
    let b = name.skip(m);
    assert(lower(name).len() == name.len());
    assert(name =~= a + w + b);
    assert(lower(w) =~= word) by {
        assert forall|i: int| 0 <= i < word.len() implies lower(w)[i] == word[i] by {
            assert(lower(name)[n + i] == (x + word + y)[n + i]);
        }
    }
}

/// An address in its colon form has a colon where the address has a colon or an
/// underscore, and otherwise its letters in upper case; the other form has an underscore
/// in these places.
pub proof fn law_address_characters(mac: Seq<char>, i: int)
    requires
        0 <= i < mac.len(),
    ensures
        mac_colon(mac).len() == mac.len(),
        mac_underscore(mac).len() == mac.len(),
        mac[i] == ':' || mac[i] == '_' ==> mac_colon(mac)[i] == ':' && mac_underscore(mac)[i]
            == '_',
        mac[i] != ':' && mac[i] != '_' ==> mac_colon(mac)[i] == mac_underscore(mac)[i]
            && mac_colon(mac)[i] as int == if 97 <= mac[i] as int <= 122 {
            mac[i] as int - 32
        } else {
            mac[i] as int
        },
{
}

// ---------------------------------------------------------------------------
// The first that will do
// ---------------------------------------------------------------------------

/// A sink belongs to a device if its name holds the address in one of its two forms, a
/// card if its name holds the form with underscores.
pub proof fn law_belonging(name: Seq<char>, mac: Seq<char>)
    ensures
        sink_belongs(name, mac) <==> (exists|a: Seq<char>, b: Seq<char>|
            name == #[trigger] (a + mac_colon(mac) + b)) || (exists|a: Seq<char>, b: Seq<char>|
            name == #[trigger] (a + mac_underscore(mac) + b)),
        card_belongs(name, mac) <==> exists|a: Seq<char>, b: Seq<char>|
            name == #[trigger] (a + mac_underscore(mac) + b),
{
    law_occurs(mac_colon(mac), name);
    law_occurs(mac_underscore(mac), name);
}

/// The sink of a device is the first listed one that belongs to it.
pub proof fn law_first_sink(sinks: Seq<SinkModel>, mac: Seq<char>, i: int)
    requires
        0 <= i < sinks.len(),
        sink_belongs(sinks[i].name, mac),
        forall|j: int| 0 <= j < i ==> !sink_belongs((#[trigger] sinks[j]).name, mac),
    ensures
        airpods_sink(sinks, mac) == Some(sinks[i]),
    decreases sinks.len(),
{
    if i > 0 {
        let rest = sinks.drop_first();
        assert(!sink_belongs(sinks[0].name, mac));
        assert forall|j: int| 0 <= j < i - 1 implies !sink_belongs(
            (#[trigger] rest[j]).name,
            mac,
        ) by {
            assert(rest[j] == sinks[j + 1]);
        }
        law_first_sink(rest, mac, i - 1);
    }
}

/// The card of a device is the first listed one that belongs to it.
pub proof fn law_first_card(cards: Seq<CardModel>, mac: Seq<char>, i: int)
    requires
        0 <= i < cards.len(),
        card_belongs(cards[i].name, mac),
        forall|j: int| 0 <= j < i ==> !card_belongs((#[trigger] cards[j]).name, mac),
    ensures
        airpods_card(cards, mac) == Some(cards[i]),
    decreases cards.len(),
{
    if i > 0 {
        let rest = cards.drop_first();
        assert(!card_belongs(cards[0].name, mac));
        assert forall|j: int| 0 <= j < i - 1 implies !card_belongs(
            (#[trigger] rest[j]).name,
            mac,
        ) by {
            assert(rest[j] == cards[j + 1]);
        }
        law_first_card(rest, mac, i - 1);
    }
}

/// A sink that sound may fall back to: its name does not start with `bluez_`, and is not
/// the excluded one.
pub open spec fn will_do(name: Seq<char>, exclude_name: Option<Seq<char>>) -> bool {
    &&& exclude_name != Some(name)
    &&& !(name.len() >= 6 && name.take(6) == seq!['b', 'l', 'u', 'e', 'z', '_'])
}

proof fn lemma_will_do(name: Seq<char>, exclude_name: Option<Seq<char>>)
    ensures
        is_fallback(name, exclude_name) == will_do(name, exclude_name),
{
    reveal_strlit("bluez_");
    assert("bluez_"@ =~= seq!['b', 'l', 'u', 'e', 'z', '_']);
    if name.len() >= 6 {
        assert(name.take(6) =~= name.subrange(0, 6));
    }
}

/// The sink that sound falls back to is the first listed one that will do.
pub proof fn law_first_fallback(
    sinks: Seq<SinkModel>,
    exclude_name: Option<Seq<char>>,
    i: int,
)
    requires
        0 <= i < sinks.len(),
        will_do(sinks[i].name, exclude_name),
        forall|j: int| 0 <= j < i ==> !will_do((#[trigger] sinks[j]).name, exclude_name),
    ensures
        fallback_sink(sinks, exclude_name) == Some(sinks[i]),
    decreases sinks.len(),
{
    lemma_will_do(sinks[0].name, exclude_name);
    if i > 0 {
        let rest = sinks.drop_first();
        assert(!will_do(sinks[0].name, exclude_name));
        assert forall|j: int| 0 <= j < i - 1 implies !will_do(
            (#[trigger] rest[j]).name,
            exclude_name,
        ) by {
            assert(rest[j] == sinks[j + 1]);
        }
        law_first_fallback(rest, exclude_name, i - 1);
    }
}

/// Where no listed sink will do, there is none to fall back to.
pub proof fn law_no_fallback(sinks: Seq<SinkModel>, exclude_name: Option<Seq<char>>)
    requires
        forall|j: int| 0 <= j < sinks.len() ==> !will_do((#[trigger] sinks[j]).name, exclude_name),
    ensures
        fallback_sink(sinks, exclude_name) is None,
    decreases sinks.len(),
{
    if sinks.len() > 0 {
        let rest = sinks.drop_first();
        lemma_will_do(sinks[0].name, exclude_name);
        assert(!will_do(sinks[0].name, exclude_name));
        assert forall|j: int| 0 <= j < rest.len() implies !will_do(
            (#[trigger] rest[j]).name,
            exclude_name,
        ) by {
            assert(rest[j] == sinks[j + 1]);
        }
        law_no_fallback(rest, exclude_name);
    }
}

/// The path of a device is the first entry of the tree that ends with `/dev_` and its
/// address with underscores; without such an entry there is none.
pub proof fn law_first_path(lines: Seq<Seq<char>>, mac: Seq<char>, i: int)
    requires
        0 <= i <= lines.len(),
        i < lines.len() ==> is_device_path(tree_entry(lines[i]), mac),
        forall|j: int| 0 <= j < i ==> !is_device_path(tree_entry(#[trigger] lines[j]), mac),
    ensures
        first_entry(lines, path_suffix(mac)) == if i < lines.len() {
            Some(tree_entry(lines[i]))
        } else {
            None
        },
    decreases lines.len(),
{
    if lines.len() > 0 {
        lemma_device_path(tree_entry(lines[0]), mac);
        if i > 0 {
            let rest = lines.drop_first();
            assert(!is_device_path(tree_entry(lines[0]), mac));
            assert forall|j: int| 0 <= j < i - 1 implies !is_device_path(
                tree_entry(#[trigger] rest[j]),
                mac,
            ) by {
                assert(rest[j] == lines[j + 1]);
            }
            if i < lines.len() {
                assert(rest[i - 1] == lines[i]);
            }
            law_first_path(rest, mac, i - 1);
        }
    }
}

/// The path ends with `/dev_` and the address with underscores.
pub open spec fn is_device_path(path: Seq<char>, mac: Seq<char>) -> bool {
    exists|a: Seq<char>| path == #[trigger] (a + "/dev_"@ + mac_underscore(mac))
}

proof fn lemma_device_path(path: Seq<char>, mac: Seq<char>)
    ensures
        path_suffix(mac).is_suffix_of(path) <==> is_device_path(path, mac),
{
    let suffix = "/dev_"@ + mac_underscore(mac);
    assert(path_suffix(mac) =~= suffix);
    if path_suffix(mac).is_suffix_of(path) {
        let a = path.take(path.len() - suffix.len());
        assert(path =~= a + "/dev_"@ + mac_underscore(mac)) by {
            assert(path.subrange(path.len() - suffix.len(), path.len() as int) =~= suffix);
            assert forall|k: int| path.len() - suffix.len() <= k < path.len() implies path[k]
                == suffix[k - (path.len() - suffix.len())] by {
                assert(path.subrange(path.len() - suffix.len(), path.len() as int)[k - (path.len()
                    - suffix.len())] == path[k]);
            }
        }
    }
    if is_device_path(path, mac) {
        let a = choose|a: Seq<char>|
            path == #[trigger] (a + "/dev_"@ + mac_underscore(mac));
        assert(path.subrange(path.len() - suffix.len(), path.len() as int) =~= suffix);
    }
}

} // verus!
