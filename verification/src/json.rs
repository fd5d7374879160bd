//! JSON documents, as `rustc_serialize` builds, reads, parses and prints them.
//!
//! A [`Json`] value is opaque to the verifier. What it holds is named by
//! [`json_model`]; every function of this file that touches a value says over
//! that name what `rustc_serialize` does.

use crate::scan::is_parsable;
use crate::scan::MAX_DEPTH;
use rustc_serialize::json::EncoderError;
use rustc_serialize::json::Json;
use rustc_serialize::json::ParserError;
use vstd::prelude::*;

verus! {

/// What a JSON value holds.
pub enum JsonModel {
    Null,
    Boolean(bool),
    /// A number that is held as a whole number.
    Integer(int),
    /// Any other number: one that the text spells with a fraction or an
    /// exponent. Which number it is, the model does not say.
    Fraction,
    String(Seq<char>),
    Array(Seq<JsonModel>),
    Object(Map<Seq<char>, JsonModel>),
}

#[verifier::external_type_specification]
#[verifier::external_body]
pub struct ExJson(Json);

#[verifier::external_type_specification]
#[verifier::external_body]
pub struct ExParserError(ParserError);

#[verifier::external_type_specification]
#[verifier::external_body]
pub struct ExEncoderError(EncoderError);

/// The contents of a `rustc_serialize::json::Json`.
pub uninterp spec fn json_model(json: Json) -> JsonModel;

/// The value that `Json::from_str` reads from a text within the limits of
/// `scan`, if it reads one.
pub uninterp spec fn json_parsed(text: Seq<char>) -> Option<JsonModel>;

/// The text that `rustc_serialize::json::encode` prints for a value that
/// holds no number with a fraction.
pub uninterp spec fn json_text(value: JsonModel) -> Seq<char>;

/// Whether a value is made of strings, truth values, `null` and whole
/// numbers alone, with no more than `depth` arrays and objects inside one
/// another.
pub open spec fn is_exact(value: JsonModel, depth: nat) -> bool
    decreases depth,
{
    match value {
        JsonModel::Array(items) => depth > 0 && forall|i: int|
            0 <= i < items.len() ==> is_exact(#[trigger] items[i], (depth - 1) as nat),
        JsonModel::Object(members) => depth > 0 && forall|key: Seq<char>|
            members.contains_key(key) ==> is_exact(#[trigger] members[key], (depth - 1) as nat),
        JsonModel::Fraction => false,
        _ => true,
    }
}

/// The models of a sequence of values, one by one.
pub open spec fn models_of(items: Seq<Json>) -> Seq<JsonModel> {
    Seq::new(items.len(), |i: int| json_model(items[i]))
}

/// `Json::find`: the member of an object under `key`; nothing for a missing
/// key and for a value that is no object.
#[verifier::external_body]
pub(crate) fn find<'a>(json: &'a Json, key: &str) -> (member: Option<&'a Json>)
    ensures
        match json_model(*json) {
            JsonModel::Object(members) => if members.contains_key(key@) {
                member matches Some(found) && json_model(*found) == members[key@]
            } else {
                member is None
            },
            _ => member is None,
        },
{
    json.find(key)
}

/// `Json::as_string`: the text of a string value; nothing for any other value.
#[verifier::external_body]
pub(crate) fn as_string<'a>(json: &'a Json) -> (text: Option<&'a str>)
    ensures
        match json_model(*json) {
            JsonModel::String(chars) => text matches Some(found) && found@ == chars,
            _ => text is None,
        },
{
    json.as_string()
}

/// `Json::as_boolean`: the truth value of a boolean; nothing for any other value.
#[verifier::external_body]
pub(crate) fn as_boolean(json: &Json) -> (flag: Option<bool>)
    ensures
        match json_model(*json) {
            JsonModel::Boolean(held) => flag == Some(held),
            _ => flag is None,
        },
{
    json.as_boolean()
}

/// `Json::as_array`: the items of an array, in order; nothing for any other value.
#[verifier::external_body]
pub(crate) fn as_array<'a>(json: &'a Json) -> (items: Option<&'a Vec<Json>>)
    ensures
        match json_model(*json) {
            JsonModel::Array(held) => items matches Some(found) && models_of(found@) == held,
            _ => items is None,
        },
{
    json.as_array()
}

/// `Json::is_null`: whether the value is `null`.
#[verifier::external_body]
pub(crate) fn is_null(json: &Json) -> (null: bool)
    ensures
        null == (json_model(*json) == JsonModel::Null),
{
    json.is_null()
}

/// `Json::String`: the string value with the given text.
#[verifier::external_body]
pub(crate) fn string(text: String) -> (json: Json)
    ensures
        json_model(json) == JsonModel::String(text@),
{
    Json::String(text)
}

/// `Json::Boolean`: the boolean with the given truth value.
#[verifier::external_body]
pub(crate) fn boolean(flag: bool) -> (json: Json)
    ensures
        json_model(json) == JsonModel::Boolean(flag),
{
    Json::Boolean(flag)
}

/// `Json::Null`.
#[verifier::external_body]
pub(crate) fn null() -> (json: Json)
    ensures
        json_model(json) == JsonModel::Null,
{
    Json::Null
}

/// `Json::Array`: the array of the given items, in their order.
#[verifier::external_body]
pub(crate) fn array(items: Vec<Json>) -> (json: Json)
    ensures
        json_model(json) == JsonModel::Array(models_of(items@)),
{
    Json::Array(items)
}

/// Whether no two of the members have the same key.
pub open spec fn distinct_keys(members: Seq<(String, Json)>) -> bool {
    forall|i: int, j: int|
        0 <= i < j < members.len() ==> (#[trigger] members[i]).0@ != (#[trigger] members[j]).0@
}

/// Whether `value` is the object that holds each of the members under its
/// key, and nothing else.
pub open spec fn is_object_of(value: JsonModel, members: Seq<(String, Json)>) -> bool {
    match value {
        JsonModel::Object(held) => {
            &&& forall|key: Seq<char>|
                held.contains_key(key) <==> exists|i: int|
                    0 <= i < members.len() && (#[trigger] members[i]).0@ == key
            &&& forall|i: int|
                0 <= i < members.len() ==> held[(#[trigger] members[i]).0@] == json_model(
                    members[i].1,
                )
        },
        _ => false,
    }
}

/// `Json::Object`: the object made of the given members. Their keys differ
/// from one another, so none is dropped when they are gathered into the
/// object's map.
#[verifier::external_body]
pub(crate) fn object(members: Vec<(String, Json)>) -> (json: Json)
    requires
        distinct_keys(members@),
    ensures
        is_object_of(json_model(json), members@),
{
    Json::Object(members.into_iter().collect())
}

/// `Json::from_str`: the value that the text spells, or the parser's error.
/// The text stays within the limits of `scan`, beyond which the parser may
/// give up instead of answering.
#[verifier::external_body]
pub(crate) fn parse(text: &str) -> (outcome: Result<Json, ParserError>)
    requires
        is_parsable(text@),
    ensures
        match outcome {
            Ok(json) => json_parsed(text@) == Some(json_model(json)),
            Err(_) => json_parsed(text@) is None,
        },
{
    Json::from_str(text)
}

/// `rustc_serialize::json::encode` on a `Json`: the compact text of the
/// value. The encoder has nothing to fail on: it writes into a `String`, and
/// the keys of a `Json` are strings. It calls itself once for every array
/// and object inside another, so the value nests no deeper than `MAX_DEPTH`.
/// The parser reads the text back as the same value, where the text stays
/// within its limits: the encoder escapes in a string what the parser does
/// not take as it is, and writes a whole number digit by digit. Of a number
/// with a fraction nothing is said, so the value holds none.
#[verifier::external_body]
pub(crate) fn print(json: &Json) -> (outcome: Result<String, EncoderError>)
    requires
        is_exact(json_model(*json), MAX_DEPTH as nat),
    ensures
        match outcome {
            Ok(text) => text@ == json_text(json_model(*json)) && (is_parsable(text@)
                ==> json_parsed(text@) == Some(json_model(*json))),
            Err(_) => false,
        },
{
    rustc_serialize::json::encode(json)
}

} // verus!
