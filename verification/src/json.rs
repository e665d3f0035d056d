//! JSON documents and the boundary to `serde_json`.
//!
//! A document is kept as a `serde_json::Value`, which the verifier cannot
//! look into. What a document holds is spoken of through `JsonModel`, a plain
//! tree, and every access to a document goes through one of the functions
//! below, whose contracts are taken on trust from the source of `serde_json`
//! (built without `preserve_order` and without `arbitrary_precision`, so that
//! an object is a map sorted by key and a number is one of three plain forms).

use vstd::prelude::*;

verus! {

/// `serde_json::Value`: a JSON document, carried as it is.
#[verifier::external_type_specification]
#[verifier::external_body]
pub struct ExValue(serde_json::Value);

/// `serde_json::Error`: why bytes were refused as JSON, carried as it is.
#[verifier::external_type_specification]
#[verifier::external_body]
pub struct ExError(serde_json::Error);

/// What a JSON number holds.
pub enum JsonNumber {
    /// A whole number, kept without fraction or exponent.
    Integer(int),
    /// A number kept in floating point; the code tells one such number from
    /// another.
    Real(int),
}

/// What a JSON document holds.
pub enum JsonModel {
    Null,
    Bool(bool),
    Number(JsonNumber),
    String(Seq<char>),
    Array(Seq<JsonModel>),
    Object(Map<Seq<char>, JsonModel>),
}

impl JsonModel {
    /// The member of an object under `key`; `None` for a missing key and for
    /// anything that is not an object.
    pub open spec fn member(self, key: Seq<char>) -> Option<JsonModel> {
        match self {
            JsonModel::Object(members) => if members.dom().contains(key) {
                Some(members[key])
            } else {
                None
            },
            _ => None,
        }
    }

    /// The member under `key`, where it is there and is not `null`.
    pub open spec fn present_member(self, key: Seq<char>) -> Option<JsonModel> {
        match self.member(key) {
            Some(JsonModel::Null) => None,
            found => found,
        }
    }

    /// The text of the member under `key`, where that member is a string.
    pub open spec fn text_member(self, key: Seq<char>) -> Option<Seq<char>> {
        match self.member(key) {
            Some(JsonModel::String(text)) => Some(text),
            _ => None,
        }
    }

    /// The value as a signed 64-bit integer, where it is a whole number in
    /// that range.
    pub open spec fn as_i64(self) -> Option<i64> {
        match self {
            JsonModel::Number(JsonNumber::Integer(n)) => if i64::MIN <= n <= i64::MAX {
                Some(n as i64)
            } else {
                None
            },
            _ => None,
        }
    }
}

/// What `v` holds.
pub uninterp spec fn value_model(v: serde_json::Value) -> JsonModel;

/// The compact JSON text that `serde_json::to_vec` writes for a document.
pub uninterp spec fn json_text(document: JsonModel) -> Seq<u8>;

/// The document that `serde_json::from_slice` reads from `bytes`; `None`
/// where it refuses them.
pub uninterp spec fn json_parse(bytes: Seq<u8>) -> Option<JsonModel>;

/// What each of `items` holds, in order.
pub open spec fn models(items: Seq<serde_json::Value>) -> Seq<JsonModel> {
    Seq::new(items.len(), |i: int| value_model(items[i]))
}

/// Whether no key occurs twice among `entries`.
pub open spec fn distinct_keys(entries: Seq<(String, serde_json::Value)>) -> bool {
    forall|i: int, j: int|
        0 <= i < j < entries.len() ==> (#[trigger] entries[i]).0@ != (#[trigger] entries[j]).0@
}

/// The members that `entries` spell out.
pub open spec fn members_of(entries: Seq<(String, serde_json::Value)>) -> Map<
    Seq<char>,
    JsonModel,
>
    decreases entries.len(),
{
    if entries.len() == 0 {
        Map::empty()
    } else {
        members_of(entries.drop_last()).insert(
            entries.last().0@,
            value_model(entries.last().1),
        )
    }
}

/// `serde_json::from_slice::<Value>`: reads one JSON document that spans all
/// of `bytes`. The outcome is a function of the bytes alone, named
/// `json_parse`.
#[verifier::external_body]
pub(crate) fn parse_value(bytes: &[u8]) -> (parsed: Result<serde_json::Value, serde_json::Error>)
    ensures
        match parsed {
            Ok(v) => json_parse(bytes@) == Some(value_model(v)),
            Err(_) => json_parse(bytes@) is None,
        },
{
    serde_json::from_slice::<serde_json::Value>(bytes)
}

/// `serde_json::to_vec` on a `Value`: the compact text of the document, a
/// function of what it holds, named `json_text`. Writing a `Value` into
/// memory cannot fail (its keys are strings and its numbers finite), and
/// every document has at least one byte of text.
#[verifier::external_body]
pub(crate) fn print_value(v: &serde_json::Value) -> (text: Vec<u8>)
    ensures
        text@ == json_text(value_model(*v)),
        text@.len() > 0,
{
    serde_json::to_vec(v).unwrap_or_default()
}

/// `Value::get` with a string index: the member of an object under `key`,
/// `None` for a missing key and for any value that is not an object.
#[verifier::external_body]
pub(crate) fn value_get<'a>(v: &'a serde_json::Value, key: &str) -> (found: Option<
    &'a serde_json::Value,
>)
    ensures
        match found {
            Some(member) => value_model(*v).member(key@) == Some(value_model(*member)),
            None => value_model(*v).member(key@) is None,
        },
{
    v.get(key)
}

/// `Value::as_str`: the text of a string, `None` for any other value.
#[verifier::external_body]
pub(crate) fn value_as_str<'a>(v: &'a serde_json::Value) -> (text: Option<&'a str>)
    ensures
        match text {
            Some(s) => value_model(*v) == JsonModel::String(s@),
            None => !(value_model(*v) is String),
        },
{
    v.as_str()
}

/// `Value::as_array`: the elements of an array, `None` for any other value.
#[verifier::external_body]
pub(crate) fn value_as_array<'a>(v: &'a serde_json::Value) -> (items: Option<
    &'a Vec<serde_json::Value>,
>)
    ensures
        match items {
            Some(elements) => value_model(*v) == JsonModel::Array(models(elements@)),
            None => !(value_model(*v) is Array),
        },
{
    v.as_array()
}

/// `Value::as_i64`: the value of a whole number that fits in 64 signed
/// bits, `None` for a larger one, for a number in floating point and for
/// any value that is not a number.
#[verifier::external_body]
pub(crate) fn value_as_i64(v: &serde_json::Value) -> (n: Option<i64>)
    ensures
        n == value_model(*v).as_i64(),
{
    v.as_i64()
}

/// `Value::is_null`: whether the value is `null`.
#[verifier::external_body]
pub(crate) fn value_is_null(v: &serde_json::Value) -> (null: bool)
    ensures
        null == (value_model(*v) is Null),
{
    v.is_null()
}

/// `Clone::clone` of a `Value`: a document that holds the same.
#[verifier::external_body]
pub(crate) fn value_clone(v: &serde_json::Value) -> (copy: serde_json::Value)
    ensures
        value_model(copy) == value_model(*v),
{
    v.clone()
}

/// The variant `Value::Null`.
#[verifier::external_body]
pub(crate) fn value_null() -> (v: serde_json::Value)
    ensures
        value_model(v) == JsonModel::Null,
{
    serde_json::Value::Null
}

/// The variant `Value::Bool`.
#[verifier::external_body]
pub(crate) fn value_bool(flag: bool) -> (v: serde_json::Value)
    ensures
        value_model(v) == JsonModel::Bool(flag),
{
    serde_json::Value::Bool(flag)
}

/// `Value::from` on a `u64`: the whole number `n`.
#[verifier::external_body]
pub(crate) fn value_u64(n: u64) -> (v: serde_json::Value)
    ensures
        value_model(v) == JsonModel::Number(JsonNumber::Integer(n as int)),
{
    serde_json::Value::from(n)
}

/// `Value::from` on a `&str`: a string with the same text.
#[verifier::external_body]
pub(crate) fn value_string(text: &str) -> (v: serde_json::Value)
    ensures
        value_model(v) == JsonModel::String(text@),
{
    serde_json::Value::from(text)
}

/// The variant `Value::Array`: an array of the given elements, in order.
#[verifier::external_body]
pub(crate) fn value_array(items: Vec<serde_json::Value>) -> (v: serde_json::Value)
    ensures
        value_model(v) == JsonModel::Array(models(items@)),
{
    serde_json::Value::Array(items)
}

/// The variant `Value::Object` over a `Map` collected from the entries: an
/// object with exactly these members. Asked of the entries is that no key
/// occurs twice, so that nothing rests on which of two equal keys a map
/// keeps.
#[verifier::external_body]
pub(crate) fn value_object(entries: Vec<(String, serde_json::Value)>) -> (v: serde_json::Value)
    requires
        distinct_keys(entries@),
    ensures
        value_model(v) == JsonModel::Object(members_of(entries@)),
{
    serde_json::Value::Object(entries.into_iter().collect())
}

} // verus!
