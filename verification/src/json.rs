use vstd::prelude::*;

verus! {

/// `serde_json::Value`, carried through as it is: what it holds is known
/// only by `json_of`.
#[verifier::external_type_specification]
#[verifier::external_body]
pub struct ExJsonValue(serde_json::Value);

/// `serde_json::Error`, carried through as it is: nothing is read from it.
#[verifier::external_type_specification]
#[verifier::external_body]
pub struct ExJsonError(serde_json::Error);

/// A JSON document as a mathematical tree. An object keeps its members in
/// the order in which the document lists them (`serde_json` with its feature
/// `preserve_order`); a number is kept as the digits that stand for it.
pub ghost enum Json {
    Null,
    Bool(bool),
    Number(Seq<char>),
    Text(Seq<char>),
    Array(Seq<Json>),
    Object(Seq<(Seq<char>, Json)>),
}

/// The tree that a `serde_json::Value` holds.
pub uninterp spec fn json_of(value: serde_json::Value) -> Json;

/// The tree that `serde_json::from_str` reads from a text, `None` where it
/// reports an error.
pub uninterp spec fn json_parse(text: Seq<char>) -> Option<Json>;

/// The compact text that `serde_json` writes for a tree.
pub uninterp spec fn json_text(doc: Json) -> Seq<char>;

/// The trees of a sequence of values, one for one.
pub open spec fn jsons(values: Seq<serde_json::Value>) -> Seq<Json> {
    Seq::new(values.len(), |i: int| json_of(values[i]))
}

/// The members of an object under construction, one for one.
pub open spec fn members(entries: Seq<(String, serde_json::Value)>) -> Seq<(Seq<char>, Json)> {
    Seq::new(entries.len(), |i: int| (entries[i].0@, json_of(entries[i].1)))
}

/// The first member of `entries` whose key is `key`.
pub open spec fn member_named(entries: Seq<(Seq<char>, Json)>, key: Seq<char>) -> Option<Json>
    decreases entries.len(),
{
    if entries.len() == 0 {
        None
    } else if entries[0].0 == key {
        Some(entries[0].1)
    } else {
        member_named(entries.drop_first(), key)
    }
}

/// What an object holds under `key`; `None` for a tree that is no object
/// or has no such member.
pub open spec fn json_field(doc: Json, key: Seq<char>) -> Option<Json> {
    match doc {
        Json::Object(entries) => member_named(entries, key),
        _ => None,
    }
}

/// No key occurs twice among `entries`.
pub open spec fn distinct_keys(entries: Seq<(String, serde_json::Value)>) -> bool {
    forall|i: int, j: int|
        0 <= i < j < entries.len() ==> (#[trigger] entries[i]).0@ != (#[trigger] entries[j]).0@
}

/// `serde_json::from_str` at `serde_json::Value`: the value holds the tree
/// that the text denotes, and an error comes exactly where the text
/// denotes none.
#[verifier::external_body]
pub(crate) fn parse_value(text: &str) -> (r: Result<serde_json::Value, serde_json::Error>)
    ensures
        match r {
            Ok(value) => json_parse(text@) == Some(json_of(value)),
            Err(_) => json_parse(text@) is None,
        },
{
    serde_json::from_str::<serde_json::Value>(text)
}

/// `serde_json::Value::get` with a string index: the member of an object
/// under that key, `None` for any other value and for a missing key.
#[verifier::external_body]
pub(crate) fn value_field<'a>(value: &'a serde_json::Value, key: &str) -> (r: Option<
    &'a serde_json::Value,
>)
    ensures
        match r {
            Some(member) => json_field(json_of(*value), key@) == Some(json_of(*member)),
            None => json_field(json_of(*value), key@) is None,
        },
{
    value.get(key)
}

/// `serde_json::Value::as_str`: the text of a string value, `None` for any
/// other value.
#[verifier::external_body]
pub(crate) fn value_text<'a>(value: &'a serde_json::Value) -> (r: Option<&'a str>)
    ensures
        match r {
            Some(text) => json_of(*value) == Json::Text(text@),
            None => !(json_of(*value) is Text),
        },
{
    value.as_str()
}

/// `serde_json::Value::as_array`: the elements of an array value, `None`
/// for any other value.
#[verifier::external_body]
pub(crate) fn value_items<'a>(value: &'a serde_json::Value) -> (r: Option<
    &'a Vec<serde_json::Value>,
>)
    ensures
        match r {
            Some(items) => json_of(*value) == Json::Array(jsons(items@)),
            None => !(json_of(*value) is Array),
        },
{
    value.as_array()
}

/// `serde_json::Value::from` a `String`: the string value with that text.
#[verifier::external_body]
pub(crate) fn text_value(text: String) -> (r: serde_json::Value)
    ensures
        json_of(r) == Json::Text(text@),
{
    serde_json::Value::from(text)
}

/// `serde_json::Value::from` a `Vec` of values: the array of those
/// elements, in order.
#[verifier::external_body]
pub(crate) fn array_value(items: Vec<serde_json::Value>) -> (r: serde_json::Value)
    ensures
        json_of(r) == Json::Array(jsons(items@)),
{
    serde_json::Value::from(items)
}

/// `serde_json::Value::from_iter` over key and value pairs: the object of
/// those members, in order. Keys that occur twice are left out, since the
/// map would keep one member for both. That the members keep the order in
/// which they are given holds of `serde_json` with its feature
/// `preserve_order`, which this crate turns on; without it the map is sorted
/// by key and the clause on the order is false.
#[verifier::external_body]
pub(crate) fn object_value(entries: Vec<(String, serde_json::Value)>) -> (r: serde_json::Value)
    requires
        distinct_keys(entries@),
    ensures
        json_of(r) == Json::Object(members(entries@)),
{
    serde_json::Value::from_iter(entries)
}

/// `serde_json::Value`'s `to_string`: the compact text of the tree that the
/// value holds.
#[verifier::external_body]
pub(crate) fn render_value(value: &serde_json::Value) -> (r: String)
    ensures
        r@ == json_text(json_of(*value)),
{
    value.to_string()
}

} // verus!
