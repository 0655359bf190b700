//! Property values as the system bus prints them in JSON.

use vstd::prelude::*;

use crate::text::{join, joined, texts};

verus! {

/// A property value, as far as its text depends on it.
#[derive(Debug, PartialEq, Eq)]
pub enum PropertyValue {
    Bool(bool),
    Array(Vec<PropertyValue>),
    Text(String),
    /// The JSON text of any other value.
    Other(String),
}

/// What a property value holds.
pub enum PropertyModel {
    Bool(bool),
    Array(Seq<PropertyModel>),
    Text(Seq<char>),
    Other(Seq<char>),
}

/// What the property value `value` holds.
pub open spec fn property_model(value: PropertyValue) -> PropertyModel
    decreases value,
{
    match value {
        PropertyValue::Bool(b) => PropertyModel::Bool(b),
        PropertyValue::Array(items) => PropertyModel::Array(
            Seq::new(
                items@.len(),
                |i: int|
                    if 0 <= i < items@.len() {
                        property_model(items@[i])
                    } else {
                        arbitrary()
                    },
            ),
        ),
        PropertyValue::Text(s) => PropertyModel::Text(s@),
        PropertyValue::Other(s) => PropertyModel::Other(s@),
    }
}

impl View for PropertyValue {
    type V = PropertyModel;

    open spec fn view(&self) -> PropertyModel {
        property_model(*self)
    }
}

/// `yes` or `no`.
pub open spec fn yes_no_text(value: bool) -> Seq<char> {
    if value {
        "yes"@
    } else {
        "no"@
    }
}

/// The text of a property value: truth values as `yes` and `no`, strings as they
/// are, arrays as their elements with blanks between them.
pub open spec fn property_text(value: PropertyModel) -> Seq<char>
    decreases value,
{
    match value {
        PropertyModel::Bool(b) => yes_no_text(b),
        PropertyModel::Array(items) => joined(property_texts(items), " "@),
        PropertyModel::Text(s) => s,
        PropertyModel::Other(s) => s,
    }
}

/// The texts of the elements of an array.
pub open spec fn property_texts(items: Seq<PropertyModel>) -> Seq<Seq<char>>
    decreases items,
{
    Seq::new(
        items.len(),
        |i: int|
            if 0 <= i < items.len() {
                property_text(items[i])
            } else {
                arbitrary()
            },
    )
}

pub fn yes_no(value: bool) -> (r: &'static str)
    ensures
        r@ == yes_no_text(value),
{
    if value {
        "yes"
    } else {
        "no"
    }
}

/// The text of a property value.
pub fn stringify_bluez_value(value: &PropertyValue) -> (r: String)
    ensures
        r@ == property_text(value@),
    decreases value,
{
    match value {
        PropertyValue::Bool(b) => yes_no(*b).to_owned(),
        PropertyValue::Array(items) => {
            let mut parts: Vec<String> = Vec::new();
            let mut i: usize = 0;
            while i < items.len()
                invariant
                    *value == PropertyValue::Array(*items),
                    i <= items@.len(),
                    parts@.len() == i,
                    forall|j: int|
                        0 <= j < i ==> (#[trigger] parts@[j])@ == property_text(items@[j]@),
                decreases items@.len() - i,
            {
                assert(decreases_to!(value => value->Array_0));
                assert(decreases_to!(value->Array_0 => value->Array_0@));
                assert(decreases_to!(value->Array_0@ => value->Array_0@[i as int]));
                parts.push(stringify_bluez_value(&items[i]));
                i += 1;
            }
            let r = join(&parts, " ");
            assert(texts(parts@) =~= property_texts(value@->Array_0));
            r
        },
        PropertyValue::Text(s) => s.clone(),
        PropertyValue::Other(s) => s.clone(),
    }
}

// ---------------------------------------------------------------------------
// JSON documents
// ---------------------------------------------------------------------------

/// `serde_json::Value`, a JSON value.
#[verifier::external_type_specification]
#[verifier::external_body]
pub struct ExJsonValue(serde_json::Value);

/// What a JSON value holds.
pub enum JsonModel {
    Bool(bool),
    Array(Seq<JsonModel>),
    Text(Seq<char>),
    /// An object: its members, and its text.
    Object(Map<Seq<char>, JsonModel>, Seq<char>),
    /// The text of any other value.
    Other(Seq<char>),
}

/// What the JSON value `value` holds.
pub uninterp spec fn json_contents(value: serde_json::Value) -> JsonModel;

/// What the JSON text `document` holds; none if it is no JSON text.
pub uninterp spec fn json_document(document: Seq<char>) -> Option<JsonModel>;

/// The text of a JSON value that is neither a truth value nor an array nor a string.
pub open spec fn other_text(contents: JsonModel) -> Option<Seq<char>> {
    match contents {
        JsonModel::Object(_, text) => Some(text),
        JsonModel::Other(text) => Some(text),
        _ => None,
    }
}

/// One level of a JSON value.
enum JsonNode {
    Bool(bool),
    Items(Vec<serde_json::Value>),
    Text(String),
    Other(String),
}

/// `serde_json::from_str` reads a JSON text; it fails if `document` is none.
#[verifier::external_body]
fn json_parse(document: &str) -> (r: Option<serde_json::Value>)
    ensures
        match r {
            Some(value) => json_document(document@) == Some(json_contents(value)),
            None => json_document(document@) is None,
        },
{
    serde_json::from_str(document).ok()
}

/// `Value::get` with a string gives the member of that name, if the value is an object
/// that has one, and nothing otherwise.
#[verifier::external_body]
fn json_get(value: &serde_json::Value, key: &str) -> (r: Option<serde_json::Value>)
    ensures
        match r {
            Some(member) => json_member(json_contents(*value), key@) == Some(
                json_contents(member),
            ),
            None => json_member(json_contents(*value), key@) is None,
        },
{
    value.get(key).cloned()
}

/// The member `key` of an object, if it has one.
pub open spec fn json_member(contents: JsonModel, key: Seq<char>) -> Option<JsonModel> {
    match contents {
        JsonModel::Object(members, _) => if members.contains_key(key) {
            Some(members[key])
        } else {
            None
        },
        _ => None,
    }
}

/// The variants of `serde_json::Value`: truth values, strings and arrays are handed
/// over as they are, any other value as the text that its `to_string` gives.
#[verifier::external_body]
fn json_node(value: serde_json::Value) -> (r: JsonNode)
    ensures
        match r {
            JsonNode::Bool(b) => json_contents(value) == JsonModel::Bool(b),
            JsonNode::Items(items) => json_contents(value) == JsonModel::Array(
                items@.map_values(|item: serde_json::Value| json_contents(item)),
            ),
            JsonNode::Text(s) => json_contents(value) == JsonModel::Text(s@),
            JsonNode::Other(s) => other_text(json_contents(value)) == Some(s@),
        },
{
    match value {
        serde_json::Value::Bool(b) => JsonNode::Bool(b),
        serde_json::Value::Array(items) => JsonNode::Items(items),
        serde_json::Value::String(s) => JsonNode::Text(s),
        other => JsonNode::Other(other.to_string()),
    }
}

/// The property value that JSON contents stand for.
pub open spec fn property_of_json(contents: JsonModel) -> PropertyModel
    decreases contents,
{
    match contents {
        JsonModel::Bool(b) => PropertyModel::Bool(b),
        JsonModel::Array(items) => PropertyModel::Array(
            Seq::new(
                items.len(),
                |i: int|
                    if 0 <= i < items.len() {
                        property_of_json(items[i])
                    } else {
                        arbitrary()
                    },
            ),
        ),
        JsonModel::Text(s) => PropertyModel::Text(s),
        JsonModel::Object(_, text) => PropertyModel::Other(text),
        JsonModel::Other(text) => PropertyModel::Other(text),
    }
}

/// The property value that a JSON value stands for.
fn property_value(value: serde_json::Value) -> (r: PropertyValue)
    ensures
        r@ == property_of_json(json_contents(value)),
    decreases json_contents(value),
{
    let ghost contents = json_contents(value);
    match json_node(value) {
        JsonNode::Bool(b) => PropertyValue::Bool(b),
        JsonNode::Items(nodes) => {
            let ghost all = nodes@;
            let mut items: Vec<PropertyValue> = Vec::new();
            for node in iter: nodes
                invariant
                    iter.seq() == all,
                    contents == json_contents(value),
                    contents == JsonModel::Array(
                        all.map_values(|item: serde_json::Value| json_contents(item)),
                    ),
                    items@.len() == iter.index(),
                    forall|j: int|
                        0 <= j < items@.len() ==> (#[trigger] items@[j])@ == property_of_json(
                            json_contents(all[j]),
                        ),
            {
                assert(contents->Array_0[iter.index()] == json_contents(node));
                assert(decreases_to!(contents => contents->Array_0[iter.index()]));
                items.push(property_value(node));
            }
            let r = PropertyValue::Array(items);
            assert(r@->Array_0 =~= property_of_json(contents)->Array_0);
            r
        },
        JsonNode::Text(s) => PropertyValue::Text(s),
        JsonNode::Other(s) => PropertyValue::Other(s),
    }
}

/// What a property value that may be missing holds.
pub open spec fn optional_property(value: Option<PropertyValue>) -> Option<PropertyModel> {
    match value {
        Some(value) => Some(value@),
        None => None,
    }
}

/// The property value under `data` in a document, if the document is an object that
/// has such a member.
pub open spec fn data_of_document(document: Option<JsonModel>) -> Option<PropertyModel> {
    match document {
        Some(contents) => match json_member(contents, "data"@) {
            Some(member) => Some(property_of_json(member)),
            None => None,
        },
        None => None,
    }
}

/// The property value that a JSON document reports.
pub fn property_data(document: &str) -> (r: Option<PropertyValue>)
    ensures
        optional_property(r) == data_of_document(json_document(document@)),
{
    match json_parse(document) {
        Some(payload) => match json_get(&payload, "data") {
            Some(value) => Some(property_value(value)),
            None => None,
        },
        None => None,
    }
}

} // verus!
