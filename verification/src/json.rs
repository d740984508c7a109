//! JSON documents, as `serde_json` parses and reads them.
//!
//! A parsed document is carried as a `serde_json::Value`, which the verifier
//! cannot look into. What such a value holds is told by [`json_view`]; the
//! contracts below restate the documentation of the accessors of
//! `serde_json` over that view. They are taken on trust, as is the parser:
//! [`json_parse`] names what it makes of a text.

use vstd::prelude::*;

verus! {

/// What a JSON value holds.
pub enum JsonModel {
    Null,
    Bool(bool),
    /// A number: its value where it is an integer that fits in an `i64`, and
    /// the bit pattern of the double that it reads as.
    Number { integer: Option<i64>, real_bits: u64 },
    Text(Seq<char>),
    Array(Seq<JsonModel>),
    Object(Map<Seq<char>, JsonModel>),
}

impl JsonModel {
    /// The member `key` of an object; `None` for a missing key and for
    /// anything that is not an object.
    pub open spec fn member(self, key: Seq<char>) -> Option<JsonModel> {
        match self {
            JsonModel::Object(members) => if members.contains_key(key) {
                Some(members[key])
            } else {
                None
            },
            _ => None,
        }
    }

    /// The elements of an array; `None` for anything else.
    pub open spec fn elements(self) -> Option<Seq<JsonModel>> {
        match self {
            JsonModel::Array(items) => Some(items),
            _ => None,
        }
    }

    /// The value of an integer number that fits in an `i64`; `None` for
    /// anything else.
    pub open spec fn integer(self) -> Option<i64> {
        match self {
            JsonModel::Number { integer, .. } => integer,
            _ => None,
        }
    }

    /// The bit pattern of a number read as a double; `None` for anything
    /// that is not a number.
    pub open spec fn real_bits(self) -> Option<u64> {
        match self {
            JsonModel::Number { real_bits, .. } => Some(real_bits),
            _ => None,
        }
    }

    /// The characters of a string; `None` for anything else.
    pub open spec fn text(self) -> Option<Seq<char>> {
        match self {
            JsonModel::Text(chars) => Some(chars),
            _ => None,
        }
    }
}

#[verifier::external_type_specification]
#[verifier::external_body]
pub struct ExJsonValue(serde_json::Value);

#[verifier::external_type_specification]
#[verifier::external_body]
pub struct ExJsonError(serde_json::Error);

/// What a `serde_json::Value` holds.
pub uninterp spec fn json_view(value: serde_json::Value) -> JsonModel;

/// The document that `serde_json` parses a text to; `None` where it rejects
/// the text.
pub uninterp spec fn json_parse(text: Seq<char>) -> Option<JsonModel>;

/// `serde_json::from_str`, read at `serde_json::Value`: what it returns is a
/// function of the text alone, the parsed document or a refusal.
#[verifier::external_body]
pub(crate) fn parse_document(text: &str) -> (parsed: Result<serde_json::Value, serde_json::Error>)
    ensures
        match parsed {
            Ok(value) => json_parse(text@) == Some(json_view(value)),
            Err(_) => json_parse(text@) is None,
        },
{
    serde_json::from_str::<serde_json::Value>(text)
}

/// `serde_json::Value::get` with a string index: the member of that name
/// where the value is an object that has one, `None` otherwise.
#[verifier::external_body]
pub(crate) fn member<'a>(value: &'a serde_json::Value, key: &str) -> (found: Option<
    &'a serde_json::Value,
>)
    ensures
        match found {
            Some(inner) => json_view(*value).member(key@) == Some(json_view(*inner)),
            None => json_view(*value).member(key@) is None,
        },
{
    value.get(key)
}

/// `serde_json::Value::as_array`: the vector of an array, element by
/// element, and `None` for any other value.
pub assume_specification<'a>[ serde_json::Value::as_array ](value: &'a serde_json::Value) -> (items:
    Option<&'a Vec<serde_json::Value>>)
    ensures
        match items {
            Some(list) => json_view(*value).elements() == Some(
                list@.map_values(|item: serde_json::Value| json_view(item)),
            ),
            None => json_view(*value).elements() is None,
        },
;

/// `serde_json::Value::as_i64`: the value of an integer number that fits in
/// an `i64`, and `None` for any other value.
pub assume_specification[ serde_json::Value::as_i64 ](value: &serde_json::Value) -> (number:
    Option<i64>)
    ensures
        number == json_view(*value).integer(),
;

/// `serde_json::Value::as_str`: the characters of a string, and `None` for
/// any other value.
pub assume_specification<'a>[ serde_json::Value::as_str ](value: &'a serde_json::Value) -> (text:
    Option<&'a str>)
    ensures
        match text {
            Some(chars) => json_view(*value).text() == Some(chars@),
            None => json_view(*value).text() is None,
        },
;

/// `serde_json::Value::as_f64`, handed on as the bit pattern of the double:
/// every number reads as one, and nothing else does.
#[verifier::external_body]
pub(crate) fn real_bits(value: &serde_json::Value) -> (bits: Option<u64>)
    ensures
        bits == json_view(*value).real_bits(),
{
    match value.as_f64() {
        Some(double) => Some(double.to_bits()),
        None => None,
    }
}

} // verus!
