//! The builder of a request.

use vstd::prelude::*;
use vstd::string::StringExecFns;
use crate::builders::{
    append_header,
    check_content_type,
    content_type_checked,
    content_type_header,
    header_added,
    json_utf8_example,
    json_utf8_header,
    json_utf8_regex,
    pattern_and_content_type_checked,
    push_header,
    replaced,
};
use crate::error::PactError;
use crate::models::request::NifRequest;
use crate::models::v4::http_parts::{
    views,
    Body,
    BodyModel,
    HeaderModel,
    HttpRequestModel,
    NifHttpRequest,
    QueryParam,
};
use crate::patterns::{checked, NifJsonPattern, NifStringPattern, PatternModel};

verus! {

/// The builder of a request: the request as it stands so far.
#[derive(Debug)]
pub struct NifRequestBuilder {
    pub request: NifHttpRequest,
}

impl View for NifRequestBuilder {
    type V = HttpRequestModel;

    open spec fn view(&self) -> HttpRequestModel {
        self.request@
    }
}

impl Clone for NifRequestBuilder {
    /// A copy that holds the same request.
    fn clone(&self) -> (r: NifRequestBuilder)
        ensures
            r@ == self@,
    {
        NifRequestBuilder { request: self.request.clone() }
    }
}

/// The request a new builder holds: `GET /`, with no query, no headers and no
/// body.
pub open spec fn default_request() -> HttpRequestModel {
    HttpRequestModel {
        method: "GET"@,
        path: PatternModel::String("/"@),
        path_expression: None,
        query: Seq::empty(),
        headers: Seq::empty(),
        body: BodyModel::Missing,
    }
}

/// A new builder.
pub fn default() -> (r: NifRequestBuilder)
    ensures
        r@ == default_request(),
{
    let request = NifHttpRequest {
        method: String::from_str("GET"),
        path: NifStringPattern::String(String::from_str("/")),
        path_expression: None,
        query: Vec::new(),
        headers: Vec::new(),
        body: Body::Missing,
    };
    assert(views(request.query@) =~= Seq::empty());
    assert(views(request.headers@) =~= Seq::empty());
    NifRequestBuilder { request }
}

/// The request as it stands, in the legacy representation. The builder stays
/// as it is and can be built from again.
pub fn build(builder: &NifRequestBuilder) -> (r: NifRequest)
    ensures
        r@ == builder@,
{
    NifRequest { inner: builder.request.clone() }
}

/// The request as it stands, in the extended representation. The builder
/// stays as it is and can be built from again.
pub fn build_v4(builder: &NifRequestBuilder) -> (r: NifHttpRequest)
    ensures
        r@ == builder@,
{
    builder.request.clone()
}

/// Sets the method.
pub fn method(builder: &mut NifRequestBuilder, value: String)
    ensures
        final(builder)@ == (HttpRequestModel { method: value@, ..old(builder)@ }),
{
    builder.request.method = value;
}

/// Sets the method to `GET`.
pub fn get(builder: &mut NifRequestBuilder)
    ensures
        final(builder)@ == (HttpRequestModel { method: "GET"@, ..old(builder)@ }),
{
    method(builder, String::from_str("GET"));
}

/// Sets the method to `POST`.
pub fn post(builder: &mut NifRequestBuilder)
    ensures
        final(builder)@ == (HttpRequestModel { method: "POST"@, ..old(builder)@ }),
{
    method(builder, String::from_str("POST"));
}

/// Sets the method to `PUT`.
pub fn put(builder: &mut NifRequestBuilder)
    ensures
        final(builder)@ == (HttpRequestModel { method: "PUT"@, ..old(builder)@ }),
{
    method(builder, String::from_str("PUT"));
}

/// Sets the method to `DELETE`.
pub fn delete(builder: &mut NifRequestBuilder)
    ensures
        final(builder)@ == (HttpRequestModel { method: "DELETE"@, ..old(builder)@ }),
{
    method(builder, String::from_str("DELETE"));
}

/// Sets the path to a literal.
pub fn path(builder: &mut NifRequestBuilder, value: String)
    ensures
        final(builder)@ == (HttpRequestModel { path: PatternModel::String(value@), ..old(builder)@ }),
{
    builder.request.path = NifStringPattern::String(value);
}

/// Sets the path to a literal that the provider replaces by what
/// `expression` gives in its state.
pub fn path_from_provider_state(builder: &mut NifRequestBuilder, expression: String, value: String)
    ensures
        final(builder)@ == (HttpRequestModel {
            path: PatternModel::String(value@),
            path_expression: Some(expression@),
            ..old(builder)@
        }),
{
    builder.request.path = NifStringPattern::String(value);
    builder.request.path_expression = Some(expression);
}

/// Adds a value for a query parameter, behind those that are there.
pub fn query_param(builder: &mut NifRequestBuilder, key: String, value: String)
    ensures
        final(builder)@ == (HttpRequestModel {
            query: old(builder)@.query.push((key@, value@)),
            ..old(builder)@
        }),
{
    let ghost entry = (key@, value@);
    builder.request.query.push(QueryParam { key, value });
    assert(views(builder.request.query@) =~= views(old(builder).request.query@).push(entry));
}

/// Adds a header behind those that are there. Fails with `InvalidPattern`,
/// and changes nothing, where a regular expression in the pattern does not
/// compile.
pub fn header(builder: &mut NifRequestBuilder, name: String, value: NifStringPattern) -> (r: Result<
    (),
    PactError,
>)
    ensures
        header_added(old(builder)@.headers, final(builder)@.headers, name@, value@, None, r),
        final(builder)@ == (HttpRequestModel { headers: final(builder)@.headers, ..old(builder)@ }),
{
    push_header(&mut builder.request.headers, name, value, None)
}

/// Adds a header, behind those that are there, whose value the provider
/// replaces by what `expression` gives in its state. Fails with
/// `InvalidPattern`, and changes nothing, where a regular expression in the
/// pattern does not compile.
pub fn header_from_provider_state(
    builder: &mut NifRequestBuilder,
    name: String,
    expression: String,
    value: NifStringPattern,
) -> (r: Result<(), PactError>)
    ensures
        header_added(old(builder)@.headers, final(builder)@.headers, name@, value@, Some(expression@), r),
        final(builder)@ == (HttpRequestModel { headers: final(builder)@.headers, ..old(builder)@ }),
{
    push_header(&mut builder.request.headers, name, value, Some(expression))
}

/// Adds a `content-type` header with a literal value.
pub fn content_type(builder: &mut NifRequestBuilder, value: String)
    ensures
        final(builder)@ == (HttpRequestModel {
            headers: old(builder)@.headers.push(
                HeaderModel { name: "content-type"@, value: PatternModel::String(value@), expression: None },
            ),
            ..old(builder)@
        }),
{
    append_header(&mut builder.request.headers, content_type_header(value));
}

/// Adds the `content-type` header of an HTML document.
pub fn html(builder: &mut NifRequestBuilder)
    ensures
        final(builder)@ == (HttpRequestModel {
            headers: old(builder)@.headers.push(
                HeaderModel {
                    name: "content-type"@,
                    value: PatternModel::String("text/html"@),
                    expression: None,
                },
            ),
            ..old(builder)@
        }),
{
    content_type(builder, String::from_str("text/html"));
}

/// Adds the `content-type` header of JSON in UTF-8: a matcher for either
/// spelling of the character set, with the lower-case one as its example.
pub fn json_utf8(builder: &mut NifRequestBuilder)
    ensures
        final(builder)@ == (HttpRequestModel {
            headers: old(builder)@.headers.push(
                HeaderModel {
                    name: "content-type"@,
                    value: PatternModel::MatchingRegex {
                        regex: json_utf8_regex(),
                        example: json_utf8_example(),
                    },
                    expression: None,
                },
            ),
            ..old(builder)@
        }),
{
    append_header(&mut builder.request.headers, json_utf8_header());
}

/// Sets the body to a literal text, in place of any body that was there.
pub fn body(builder: &mut NifRequestBuilder, value: String)
    ensures
        final(builder)@ == (HttpRequestModel {
            body: BodyModel::Text { text: value@, content_type: None },
            ..old(builder)@
        }),
{
    builder.request.body = Body::Text { text: value, content_type: None };
}

/// Sets the body to a literal text of the given content type, in place of any
/// body that was there. Fails with `InvalidArgument`, and changes nothing,
/// where the content type does not parse.
pub fn body2(builder: &mut NifRequestBuilder, body: String, content_type: String) -> (r: Result<
    (),
    PactError,
>)
    ensures
        content_type_checked(content_type@, r),
        replaced(
            old(builder)@,
            final(builder)@,
            HttpRequestModel {
                body: BodyModel::Text { text: body@, content_type: Some(content_type@) },
                ..old(builder)@
            },
            r is Ok,
        ),
{
    match check_content_type(&content_type) {
        Ok(_) => {
            builder.request.body = Body::Text { text: body, content_type: Some(content_type) };
            Ok(())
        },
        Err(error) => Err(error),
    }
}

/// Sets the body to a JSON pattern, in place of any body that was there.
/// Fails, and changes nothing, on the first fault of the pattern: with
/// `InvalidPattern` where a regular expression does not compile, and with
/// `InvalidKey` where an object names a field twice.
pub fn json_body(builder: &mut NifRequestBuilder, body: NifJsonPattern) -> (r: Result<(), PactError>)
    ensures
        checked(body@, r),
        replaced(
            old(builder)@,
            final(builder)@,
            HttpRequestModel { body: BodyModel::Json(body@), ..old(builder)@ },
            r is Ok,
        ),
{
    match body.validate() {
        Ok(_) => {
            builder.request.body = Body::Json(body);
            Ok(())
        },
        Err(error) => Err(error),
    }
}

/// Sets the body to a string pattern, in place of any body that was there.
/// Fails with `InvalidPattern`, and changes nothing, where a regular
/// expression in the pattern does not compile.
pub fn body_matching(builder: &mut NifRequestBuilder, body: NifStringPattern) -> (r: Result<
    (),
    PactError,
>)
    ensures
        checked(body@, r),
        replaced(
            old(builder)@,
            final(builder)@,
            HttpRequestModel {
                body: BodyModel::Matching { pattern: body@, content_type: None },
                ..old(builder)@
            },
            r is Ok,
        ),
{
    match body.validate() {
        Ok(_) => {
            builder.request.body = Body::Matching { pattern: body, content_type: None };
            Ok(())
        },
        Err(error) => Err(error),
    }
}

/// Sets the body to a string pattern of the given content type, in place of
/// any body that was there. Fails, and changes nothing, with `InvalidPattern`
/// where a regular expression in the pattern does not compile, and else with
/// `InvalidArgument` where the content type does not parse.
pub fn body_matching2(builder: &mut NifRequestBuilder, body: NifStringPattern, content_type: String) -> (r:
    Result<(), PactError>)
    ensures
        pattern_and_content_type_checked(body@, content_type@, r),
        replaced(
            old(builder)@,
            final(builder)@,
            HttpRequestModel {
                body: BodyModel::Matching { pattern: body@, content_type: Some(content_type@) },
                ..old(builder)@
            },
            r is Ok,
        ),
{
    match body.validate() {
        Ok(_) => match check_content_type(&content_type) {
            Ok(_) => {
                builder.request.body = Body::Matching { pattern: body, content_type: Some(content_type) };
                Ok(())
            },
            Err(error) => Err(error),
        },
        Err(error) => Err(error),
    }
}

} // verus!
