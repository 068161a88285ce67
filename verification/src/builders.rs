//! The builders: accumulators for one request, one response, one interaction
//! and one contract. Each operation either changes the builder as its
//! contract says or fails and leaves it as it was.

pub mod interaction_builder;
pub mod message_builder;
pub mod pact_builder;
pub mod request_builder;
pub mod response_builder;

use vstd::prelude::*;
use vstd::string::StringExecFns;
use crate::bindings::{content_type_parses, is_content_type, json_parses, parse_json};
use crate::error::{ErrorKind, PactError};
use crate::models::v4::http_parts::{text_of, views, HeaderEntry, HeaderModel};
use crate::patterns::{checked, first_fault, NifStringMatcher, NifStringPattern, PatternModel};

verus! {

/// The expression that a JSON content type with a UTF-8 character set matches.
pub open spec fn json_utf8_regex() -> Seq<char> {
    "^application/json; charset=(utf|UTF)-8$"@
}

/// The content type that stands as the example of a JSON body in UTF-8.
pub open spec fn json_utf8_example() -> Seq<char> {
    "application/json; charset=utf-8"@
}

/// What adding a header gives: the headers that were there, and the new one
/// behind them.
pub open spec fn with_header(
    headers: Seq<HeaderModel>,
    name: Seq<char>,
    value: PatternModel,
    expression: Option<Seq<char>>,
) -> Seq<HeaderModel> {
    headers.push(HeaderModel { name, value, expression })
}

/// Whether `outcome` and the headers after it are what adding a header to
/// `before` gives: the header is added where every regular expression in its
/// pattern compiles, and otherwise nothing changes and the error names the
/// first expression that does not.
pub open spec fn header_added(
    before: Seq<HeaderModel>,
    after: Seq<HeaderModel>,
    name: Seq<char>,
    value: PatternModel,
    expression: Option<Seq<char>>,
    outcome: Result<(), PactError>,
) -> bool {
    &&& checked(value, outcome)
    &&& after == if outcome is Ok {
        with_header(before, name, value, expression)
    } else {
        before
    }
}

/// Adds a header behind those that are there.
pub(crate) fn push_header(
    headers: &mut Vec<HeaderEntry>,
    name: String,
    value: NifStringPattern,
    expression: Option<String>,
) -> (r: Result<(), PactError>)
    ensures
        header_added(
            views(old(headers)@),
            views(final(headers)@),
            name@,
            value@,
            text_of(expression),
            r,
        ),
{
    match value.validate() {
        Ok(_) => {
            let ghost entry = HeaderModel {
                name: name@,
                value: value@,
                expression: text_of(expression),
            };
            headers.push(HeaderEntry { name, value, expression });
            assert(views(headers@) =~= views(old(headers)@).push(entry));
            Ok(())
        },
        Err(error) => Err(error),
    }
}

/// Whether `outcome` is what checking a content type gives: success where it
/// parses, and otherwise an `InvalidArgument` error that carries it.
pub open spec fn content_type_checked(content_type: Seq<char>, outcome: Result<(), PactError>) -> bool {
    match outcome {
        Ok(_) => content_type_parses(content_type),
        Err(error) => !content_type_parses(content_type) && error.is(ErrorKind::InvalidArgument, content_type),
    }
}

/// Whether `outcome` is what checking a JSON text gives: success where it
/// parses, and otherwise an error of kind `kind` that carries the text.
pub open spec fn json_checked(text: Seq<char>, kind: ErrorKind, outcome: Result<(), PactError>) -> bool {
    match outcome {
        Ok(_) => json_parses(text),
        Err(error) => !json_parses(text) && error.is(kind, text),
    }
}

/// Checks that `text` parses as JSON; the error, if any, is of kind `kind`.
pub fn check_json(text: &String, kind: ErrorKind) -> (r: Result<(), PactError>)
    ensures
        json_checked(text@, kind, r),
{
    match parse_json(text.as_str()) {
        Ok(_) => Ok(()),
        Err(_) => Err(PactError::new(kind, text.clone())),
    }
}

/// Whether `outcome` is what checking a contents definition and its content
/// type gives: `InvalidDefinition` where the definition is not JSON, else
/// `InvalidArgument` where the content type does not parse, else success.
pub open spec fn contents_checked(
    content_type: Seq<char>,
    definition: Seq<char>,
    outcome: Result<(), PactError>,
) -> bool {
    if !json_parses(definition) {
        json_checked(definition, ErrorKind::InvalidDefinition, outcome)
    } else {
        content_type_checked(content_type, outcome)
    }
}

/// Checks a contents definition and then its content type.
pub fn check_contents(content_type: &String, definition: &String) -> (r: Result<(), PactError>)
    ensures
        contents_checked(content_type@, definition@, r),
{
    match check_json(definition, ErrorKind::InvalidDefinition) {
        Ok(_) => check_content_type(content_type),
        Err(error) => Err(error),
    }
}

/// What the content generator reported of a body it was asked to make.
#[derive(Debug)]
pub enum Resolution {
    /// The body was made.
    Resolved,
    /// No generator is registered for the content type.
    UnknownContentType,
    /// The generator failed, with this message.
    Failed(String),
}

/// Whether `outcome` is how a report of the content generator is surfaced:
/// success where the body was made, `UnknownContentType` with the content
/// type where no generator is registered, and `PluginFailure` with the
/// generator's message where it failed.
pub open spec fn resolution_surfaced(
    content_type: Seq<char>,
    resolution: Resolution,
    outcome: Result<(), PactError>,
) -> bool {
    match resolution {
        Resolution::Resolved => outcome is Ok,
        Resolution::UnknownContentType => outcome matches Err(error) && error.is(
            ErrorKind::UnknownContentType,
            content_type,
        ),
        Resolution::Failed(message) => outcome matches Err(error) && error.is(
            ErrorKind::PluginFailure,
            message@,
        ),
    }
}

/// Whether `outcome` is what asking for generated contents gives:
/// `InvalidDefinition` where the definition is not JSON, else
/// `InvalidArgument` where the content type does not parse, and else what the
/// content generator reported: `UnknownContentType`, `PluginFailure`, or
/// success.
pub open spec fn contents_settled(
    content_type: Seq<char>,
    definition: Seq<char>,
    resolution: Resolution,
    outcome: Result<(), PactError>,
) -> bool {
    if json_parses(definition) && content_type_parses(content_type) {
        resolution_surfaced(content_type, resolution, outcome)
    } else {
        outcome is Err && contents_checked(content_type, definition, outcome)
    }
}

/// Surfaces a report of the content generator to the caller. Nothing is
/// tried again.
pub fn resolution_result(content_type: &String, resolution: Resolution) -> (r: Result<(), PactError>)
    ensures
        resolution_surfaced(content_type@, resolution, r),
{
    match resolution {
        Resolution::Resolved => Ok(()),
        Resolution::UnknownContentType => Err(
            PactError::new(ErrorKind::UnknownContentType, content_type.clone()),
        ),
        Resolution::Failed(message) => Err(PactError::new(ErrorKind::PluginFailure, message)),
    }
}

/// Whether a part of a builder was replaced as an operation asked: it is
/// `wanted` where the operation succeeded, and what it was where it failed.
pub open spec fn replaced<T>(before: T, after: T, wanted: T, succeeded: bool) -> bool {
    after == if succeeded {
        wanted
    } else {
        before
    }
}

/// Checks that `content_type` parses as a content type.
pub fn check_content_type(content_type: &String) -> (r: Result<(), PactError>)
    ensures
        content_type_checked(content_type@, r),
{
    if is_content_type(content_type.as_str()) {
        Ok(())
    } else {
        Err(PactError::new(ErrorKind::InvalidArgument, content_type.clone()))
    }
}

/// The header that declares a content type, as a literal.
pub(crate) fn content_type_header(value: String) -> (r: HeaderEntry)
    ensures
        r@ == (HeaderModel { name: "content-type"@, value: PatternModel::String(value@), expression: None }),
{
    HeaderEntry { name: String::from_str("content-type"), value: NifStringPattern::String(value), expression: None }
}

/// The header that declares JSON in UTF-8, whichever way the character set is
/// written.
pub(crate) fn json_utf8_header() -> (r: HeaderEntry)
    ensures
        r@ == (HeaderModel {
            name: "content-type"@,
            value: PatternModel::MatchingRegex { regex: json_utf8_regex(), example: json_utf8_example() },
            expression: None,
        }),
{
    HeaderEntry {
        name: String::from_str("content-type"),
        value: NifStringPattern::Matcher(
            NifStringMatcher::MatchingRegex {
                regex: String::from_str("^application/json; charset=(utf|UTF)-8$"),
                example: String::from_str("application/json; charset=utf-8"),
            },
        ),
        expression: None,
    }
}

/// Puts `entry` behind the headers that are there.
pub(crate) fn append_header(headers: &mut Vec<HeaderEntry>, entry: HeaderEntry)
    ensures
        views(final(headers)@) == views(old(headers)@).push(entry@),
{
    headers.push(entry);
    assert(views(headers@) =~= views(old(headers)@).push(entry@));
}

/// Whether `outcome` is what checking first a pattern and then a content type
/// gives: the error of the pattern where it has one, else that of the content
/// type, else success.
pub open spec fn pattern_and_content_type_checked(
    pattern: PatternModel,
    content_type: Seq<char>,
    outcome: Result<(), PactError>,
) -> bool {
    if first_fault(pattern) is Some {
        checked(pattern, outcome) && outcome is Err
    } else {
        content_type_checked(content_type, outcome)
    }
}

} // verus!
