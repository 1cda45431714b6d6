//! Reading and making JSON values with `serde_json`.
//!
//! `serde_json::Value` is opaque to the verifier. [`json_view`] names the JSON
//! tree that a value holds, [`json_parsed`] the tree that a text parses to, and
//! the functions of this module say what each accessor of the crate does to that
//! tree.
use vstd::prelude::*;

verus! {

/// A JSON number as `serde_json` keeps it.
pub enum JsonNumber {
    /// An integer that is not negative.
    PosInt(u64),
    /// A negative integer.
    NegInt(i64),
    /// Any other number: the bit pattern of the double it was read as.
    Float(u64),
}

/// A JSON value as a mathematical tree.
pub enum JsonView {
    Null,
    Bool(bool),
    Number(JsonNumber),
    Text(Seq<char>),
    Array(Seq<JsonView>),
    Object(Map<Seq<char>, JsonView>),
}

impl JsonView {
    /// The member `key` of an object; nothing for any other value.
    pub open spec fn member(self, key: Seq<char>) -> Option<JsonView> {
        match self {
            JsonView::Object(members) => if members.contains_key(key) {
                Some(members[key])
            } else {
                None
            },
            _ => None,
        }
    }

    /// The integer that a number holds, if it fits `i64`.
    pub open spec fn as_i64(self) -> Option<i64> {
        match self {
            JsonView::Number(JsonNumber::PosInt(n)) => if n <= i64::MAX {
                Some(n as i64)
            } else {
                None
            },
            JsonView::Number(JsonNumber::NegInt(n)) => Some(n),
            _ => None,
        }
    }

    /// The integer that a number holds, if it fits `u64`.
    pub open spec fn as_u64(self) -> Option<u64> {
        match self {
            JsonView::Number(JsonNumber::PosInt(n)) => Some(n),
            _ => None,
        }
    }

    /// The double that a number is read as, by its bit pattern.
    pub open spec fn as_double_bits(self) -> Option<u64> {
        match self {
            JsonView::Number(JsonNumber::PosInt(n)) => Some(double_bits_of_int(n as int)),
            JsonView::Number(JsonNumber::NegInt(n)) => Some(double_bits_of_int(n as int)),
            JsonView::Number(JsonNumber::Float(bits)) => Some(bits),
            _ => None,
        }
    }
}

/// `serde_json::Value`, carried through as an opaque value.
#[verifier::external_type_specification]
#[verifier::external_body]
pub struct ExJsonValue(serde_json::Value);

/// The JSON tree that a parsed value holds.
pub uninterp spec fn json_view(value: serde_json::Value) -> JsonView;

/// The JSON tree that `serde_json` reads from a text; nothing when it rejects the
/// text.
pub uninterp spec fn json_parsed(text: Seq<char>) -> Option<JsonView>;

/// The bit pattern of the double that an integer is converted to.
pub uninterp spec fn double_bits_of_int(n: int) -> u64;

/// Parses a text with `serde_json::from_str`. The result depends on the text alone:
/// [`json_parsed`] names it.
#[verifier::external_body]
pub(crate) fn parse_json(text: &str) -> (parsed: Option<serde_json::Value>)
    ensures
        match parsed {
            Some(value) => json_parsed(text@) == Some(json_view(value)),
            None => json_parsed(text@) is None,
        },
{
    serde_json::from_str::<serde_json::Value>(text).ok()
}

/// Looks a key up with `serde_json::Value::get`: the member of that name when the
/// value is an object that has it, nothing otherwise.
#[verifier::external_body]
pub(crate) fn json_member<'a>(value: &'a serde_json::Value, key: &str) -> (found: Option<&'a serde_json::Value>)
    ensures
        match found {
            Some(inner) => json_view(*value).member(key@) == Some(json_view(*inner)),
            None => json_view(*value).member(key@) is None,
        },
{
    value.get(key)
}

/// Reads an integer with `serde_json::Value::as_i64`: the value of an integer number
/// that fits `i64`, nothing for any other value.
#[verifier::external_body]
pub(crate) fn json_i64(value: &serde_json::Value) -> (n: Option<i64>)
    ensures
        n == json_view(*value).as_i64(),
{
    value.as_i64()
}

/// Reads an integer with `serde_json::Value::as_u64`: the value of an integer number
/// that is not negative, nothing for any other value.
#[verifier::external_body]
pub(crate) fn json_u64(value: &serde_json::Value) -> (n: Option<u64>)
    ensures
        n == json_view(*value).as_u64(),
{
    value.as_u64()
}

/// Reads a number with `serde_json::Value::as_f64` and hands out its bit pattern: of a
/// fractional number the double it was read as, of an integer the double it converts to,
/// which [`double_bits_of_int`] names; nothing for a value that is not a number.
#[verifier::external_body]
pub(crate) fn json_double_bits(value: &serde_json::Value) -> (bits: Option<u64>)
    ensures
        bits == match json_view(*value) {
            JsonView::Number(JsonNumber::PosInt(n)) => Some(double_bits_of_int(n as int)),
            JsonView::Number(JsonNumber::NegInt(n)) => Some(double_bits_of_int(n as int)),
            JsonView::Number(JsonNumber::Float(pattern)) => Some(pattern),
            _ => None,
        },
{
    match value.as_f64() {
        Some(number) => Some(number.to_bits()),
        None => None,
    }
}

/// Makes a JSON string with `serde_json::Value::from`: it holds the text.
#[verifier::external_body]
pub(crate) fn json_string(text: String) -> (value: serde_json::Value)
    ensures
        json_view(value) == JsonView::Text(text@),
{
    serde_json::Value::from(text)
}

/// Makes a JSON array with `serde_json::Value::from`: it holds the items in their order.
#[verifier::external_body]
pub(crate) fn json_array(items: Vec<serde_json::Value>) -> (value: serde_json::Value)
    ensures
        json_view(value) == JsonView::Array(items@.map_values(|item: serde_json::Value| json_view(item))),
{
    serde_json::Value::from(items)
}

/// The members that a list of pairs gives an object.
pub open spec fn members_of(pairs: Seq<(String, serde_json::Value)>) -> Map<Seq<char>, JsonView>
    decreases pairs.len(),
{
    if pairs.len() == 0 {
        Map::empty()
    } else {
        members_of(pairs.drop_last()).insert(pairs.last().0@, json_view(pairs.last().1))
    }
}

/// Whether no key occurs twice in a list of pairs.
pub open spec fn different_keys(pairs: Seq<(String, serde_json::Value)>) -> bool {
    forall|i: int, j: int| 0 <= i < j < pairs.len() ==> #[trigger] pairs[i].0@ != #[trigger] pairs[j].0@
}

/// Makes a JSON object with `serde_json::Value::from_iter`: its members are the given pairs,
/// which must have different keys.
#[verifier::external_body]
pub(crate) fn json_object(pairs: Vec<(String, serde_json::Value)>) -> (value: serde_json::Value)
    requires
        different_keys(pairs@),
    ensures
        json_view(value) == JsonView::Object(members_of(pairs@)),
{
    serde_json::Value::from_iter(pairs)
}

} // verus!
