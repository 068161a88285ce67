//! The calls this library makes into the regular-expression engine, the JSON
//! parser and the parsers of the contract engine. Nothing in this file is
//! proved: each contract states what the called function is documented to do.

use vstd::prelude::*;
use crate::date_time::beyond_parser;

verus! {

/// Why a regular expression did not compile.
#[verifier::external_type_specification]
#[verifier::external_body]
pub struct ExRegexError(regex::Error);

/// Whether `Regex::new` accepts `pattern`.
pub uninterp spec fn regex_compiles(pattern: Seq<char>) -> bool;

/// Whether the expression that `Regex::new` makes of `pattern` finds a match
/// anywhere in `text`, as `Regex::is_match` decides it.
pub uninterp spec fn regex_matches(pattern: Seq<char>, text: Seq<char>) -> bool;

/// `Regex::new` and, on what it made, `Regex::is_match`: whether the
/// regular expression `pattern` finds a match somewhere in `text`, or why
/// `pattern` is not a regular expression. Whether it compiles depends on the
/// pattern alone, and whether it matches on the pattern and the text alone.
#[verifier::external_body]
pub(crate) fn find_match(pattern: &str, text: &str) -> (r: Result<bool, regex::Error>)
    ensures
        r is Ok <==> regex_compiles(pattern@),
        r matches Ok(found) ==> found == regex_matches(pattern@, text@),
{
    match regex::Regex::new(pattern) {
        Ok(regex) => Ok(regex.is_match(text)),
        Err(error) => Err(error),
    }
}

/// A parsed JSON document.
#[verifier::external_type_specification]
#[verifier::external_body]
pub struct ExJsonDocument(serde_json::Value);

/// Why a text is not a JSON document.
#[verifier::external_type_specification]
#[verifier::external_body]
pub struct ExJsonError(serde_json::Error);

/// Whether `serde_json::from_str` reads `text` as a JSON document.
pub uninterp spec fn json_parses(text: Seq<char>) -> bool;

/// `serde_json::from_str`, for a document of any shape: the document that
/// `text` holds, or why it holds none. Whether it succeeds depends on the
/// text alone.
#[verifier::external_body]
pub(crate) fn parse_json(text: &str) -> (r: Result<serde_json::Value, serde_json::Error>)
    ensures
        r is Ok <==> json_parses(text@),
{
    serde_json::from_str::<serde_json::Value>(text)
}

/// Whether `ContentType::parse` reads `text` as a content type.
pub uninterp spec fn content_type_parses(text: Seq<char>) -> bool;

/// `pact_models::content_types::ContentType::parse`: whether `text` is a
/// content type, that is a media type with optional parameters. The answer
/// depends on the text alone.
#[verifier::external_body]
pub(crate) fn is_content_type(text: &str) -> (r: bool)
    ensures
        r == content_type_parses(text@),
{
    pact_models::content_types::ContentType::parse(text).is_ok()
}

/// Whether `validate_datetime` reads `value` as a date or time written in
/// `format`.
pub uninterp spec fn date_time_parses(value: Seq<char>, format: Seq<char>) -> bool;

/// `pact_models::time_utils::validate_datetime`: whether `value` is a date or
/// time written in `format`. The answer depends on the two texts alone.
///
/// The function fails on an `unwrap` where the format asks for a day of the
/// month and the year it has read does not fit into sixteen bits; a year is
/// read from digits in a row of the value, at most as many as the format has
/// letters for it. It also raises ten to the number of letters of a fraction
/// of a second, which fits into thirty-two bits for up to nine letters. Both
/// are left out.
#[verifier::external_body]
pub(crate) fn parses_as_date_time(value: &str, format: &str) -> (r: bool)
    requires
        !beyond_parser(value@, format@),
    ensures
        r == date_time_parses(value@, format@),
{
    pact_models::time_utils::validate_datetime(value, format).is_ok()
}

/// What `String::from_utf8` reports of bytes that are not UTF-8.
pub uninterp spec fn utf8_error_text(bytes: Seq<u8>) -> Seq<char>;

/// `String::from_utf8`: the text that `bytes` encode, where they are
/// well-formed UTF-8, and otherwise the message of the error, which depends on
/// the bytes alone.
#[verifier::external_body]
pub(crate) fn string_from_utf8(bytes: Vec<u8>) -> (r: Result<String, String>)
    ensures
        r is Ok <==> vstd::utf8::valid_utf8(bytes@),
        r matches Ok(text) ==> text@ == vstd::utf8::decode_utf8(bytes@),
        r matches Err(message) ==> message@ == utf8_error_text(bytes@),
{
    match String::from_utf8(bytes) {
        Ok(text) => Ok(text),
        Err(error) => Err(error.to_string()),
    }
}

} // verus!
