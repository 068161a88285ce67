//! The builder of a response.

use vstd::prelude::*;
use vstd::string::StringExecFns;
use crate::builders::{
    append_header,
    check_content_type,
    check_contents,
    content_type_checked,
    content_type_header,
    contents_settled,
    header_added,
    json_utf8_example,
    json_utf8_header,
    json_utf8_regex,
    push_header,
    replaced,
    resolution_result,
    resolution_surfaced,
    Resolution,
};
use crate::error::PactError;
use crate::models::response::NifResponse;
use crate::models::v4::http_parts::{views, Body, BodyModel, HeaderModel, HttpResponseModel, NifHttpResponse};
use crate::patterns::{NifJsonPattern, NifStringPattern, PatternModel};

verus! {

/// The builder of a response: the response as it stands so far.
#[derive(Debug)]
pub struct NifResponseBuilder {
    pub response: NifHttpResponse,
}

impl View for NifResponseBuilder {
    type V = HttpResponseModel;

    open spec fn view(&self) -> HttpResponseModel {
        self.response@
    }
}

impl Clone for NifResponseBuilder {
    /// A copy that holds the same response.
    fn clone(&self) -> (r: NifResponseBuilder)
        ensures
            r@ == self@,
    {
        NifResponseBuilder { response: self.response.clone() }
    }
}

/// The response a new builder holds: status 200, with no headers and no body.
pub open spec fn default_response() -> HttpResponseModel {
    HttpResponseModel { status: 200, headers: Seq::empty(), body: BodyModel::Missing }
}

/// A new builder.
pub fn default() -> (r: NifResponseBuilder)
    ensures
        r@ == default_response(),
{
    let response = NifHttpResponse { status: 200, headers: Vec::new(), body: Body::Missing };
    assert(views(response.headers@) =~= Seq::empty());
    NifResponseBuilder { response }
}

/// The response as it stands, in the legacy representation. The builder stays
/// as it is and can be built from again.
pub fn build(builder: &NifResponseBuilder) -> (r: NifResponse)
    ensures
        r@ == builder@,
{
    NifResponse { inner: builder.response.clone() }
}

/// The response as it stands, in the extended representation. The builder
/// stays as it is and can be built from again.
pub fn build_v4(builder: &NifResponseBuilder) -> (r: NifHttpResponse)
    ensures
        r@ == builder@,
{
    builder.response.clone()
}

/// Sets the status code.
pub fn status(builder: &mut NifResponseBuilder, value: u16)
    ensures
        final(builder)@ == (HttpResponseModel { status: value, ..old(builder)@ }),
{
    builder.response.status = value;
}

/// Sets the status code to 200, OK.
pub fn ok(builder: &mut NifResponseBuilder)
    ensures
        final(builder)@ == (HttpResponseModel { status: 200, ..old(builder)@ }),
{
    status(builder, 200);
}

/// Sets the status code to 201, Created.
pub fn created(builder: &mut NifResponseBuilder)
    ensures
        final(builder)@ == (HttpResponseModel { status: 201, ..old(builder)@ }),
{
    status(builder, 201);
}

/// Sets the status code to 204, No Content.
pub fn no_content(builder: &mut NifResponseBuilder)
    ensures
        final(builder)@ == (HttpResponseModel { status: 204, ..old(builder)@ }),
{
    status(builder, 204);
}

/// Sets the status code to 403, Forbidden.
pub fn forbidden(builder: &mut NifResponseBuilder)
    ensures
        final(builder)@ == (HttpResponseModel { status: 403, ..old(builder)@ }),
{
    status(builder, 403);
}

/// Sets the status code to 404, Not Found.
pub fn not_found(builder: &mut NifResponseBuilder)
    ensures
        final(builder)@ == (HttpResponseModel { status: 404, ..old(builder)@ }),
{
    status(builder, 404);
}

/// Adds a header behind those that are there. Fails with `InvalidPattern`,
/// and changes nothing, where a regular expression in the pattern does not
/// compile.
pub fn header(builder: &mut NifResponseBuilder, name: String, value: NifStringPattern) -> (r: Result<
    (),
    PactError,
>)
    ensures
        header_added(old(builder)@.headers, final(builder)@.headers, name@, value@, None, r),
        final(builder)@ == (HttpResponseModel { headers: final(builder)@.headers, ..old(builder)@ }),
{
    push_header(&mut builder.response.headers, name, value, None)
}

/// Adds a header, behind those that are there, whose value the provider
/// replaces by what `expression` gives in its state. Fails with
/// `InvalidPattern`, and changes nothing, where a regular expression in the
/// pattern does not compile.
pub fn header_from_provider_state(
    builder: &mut NifResponseBuilder,
    name: String,
    expression: String,
    value: NifStringPattern,
) -> (r: Result<(), PactError>)
    ensures
        header_added(old(builder)@.headers, final(builder)@.headers, name@, value@, Some(expression@), r),
        final(builder)@ == (HttpResponseModel { headers: final(builder)@.headers, ..old(builder)@ }),
{
    push_header(&mut builder.response.headers, name, value, Some(expression))
}

/// Adds a `content-type` header with a literal value.
pub fn content_type(builder: &mut NifResponseBuilder, value: String)
    ensures
        final(builder)@ == (HttpResponseModel {
            headers: old(builder)@.headers.push(
                HeaderModel { name: "content-type"@, value: PatternModel::String(value@), expression: None },
            ),
            ..old(builder)@
        }),
{
    append_header(&mut builder.response.headers, content_type_header(value));
}

/// Adds the `content-type` header of an HTML document.
pub fn html(builder: &mut NifResponseBuilder)
    ensures
        final(builder)@ == (HttpResponseModel {
            headers: old(builder)@.headers.push(
                HeaderModel {
                    name: "content-type"@,
                    value: PatternModel::String("text/html"@),
                    expression: None,
                },
            ),
            ..old(builder)@
        }),
{
    content_type(builder, String::from_str("text/html"));
}

/// Adds the `content-type` header of JSON in UTF-8: a matcher for either
/// spelling of the character set, with the lower-case one as its example.
pub fn json_utf8(builder: &mut NifResponseBuilder)
    ensures
        final(builder)@ == (HttpResponseModel {
            headers: old(builder)@.headers.push(
                HeaderModel {
                    name: "content-type"@,
                    value: PatternModel::MatchingRegex {
                        regex: json_utf8_regex(),
                        example: json_utf8_example(),
                    },
                    expression: None,
                },
            ),
            ..old(builder)@
        }),
{
    append_header(&mut builder.response.headers, json_utf8_header());
}

/// Sets the body to a literal text, in place of any body that was there.
pub fn body(builder: &mut NifResponseBuilder, value: String)
    ensures
        final(builder)@ == (HttpResponseModel {
            body: BodyModel::Text { text: value@, content_type: None },
            ..old(builder)@
        }),
{
    builder.response.body = Body::Text { text: value, content_type: None };
}

/// Sets the body to a literal text of the given content type, in place of any
/// body that was there. Fails with `InvalidArgument`, and changes nothing,
/// where the content type does not parse.
pub fn body2(builder: &mut NifResponseBuilder, body: String, content_type: String) -> (r: Result<
    (),
    PactError,
>)
    ensures
        content_type_checked(content_type@, r),
        replaced(
            old(builder)@,
            final(builder)@,
            HttpResponseModel {
                body: BodyModel::Text { text: body@, content_type: Some(content_type@) },
                ..old(builder)@
            },
            r is Ok,
        ),
{
    match check_content_type(&content_type) {
        Ok(_) => {
            builder.response.body = Body::Text { text: body, content_type: Some(content_type) };
            Ok(())
        },
        Err(error) => Err(error),
    }
}

/// Sets the body to a JSON string, in place of any body that was there.
pub fn json_body(builder: &mut NifResponseBuilder, body: String)
    ensures
        final(builder)@ == (HttpResponseModel {
            body: BodyModel::Json(PatternModel::String(body@)),
            ..old(builder)@
        }),
{
    builder.response.body = Body::Json(NifJsonPattern::String(body));
}

/// Sets the body to a text that is matched literally, in place of any body
/// that was there.
pub fn body_matching(builder: &mut NifResponseBuilder, body: String)
    ensures
        final(builder)@ == (HttpResponseModel {
            body: BodyModel::Matching { pattern: PatternModel::String(body@), content_type: None },
            ..old(builder)@
        }),
{
    builder.response.body = Body::Matching { pattern: NifStringPattern::String(body), content_type: None };
}

/// Sets the body to a text of the given content type that is matched
/// literally, in place of any body that was there. Fails with
/// `InvalidArgument`, and changes nothing, where the content type does not
/// parse.
pub fn body_matching2(builder: &mut NifResponseBuilder, body: String, content_type: String) -> (r: Result<
    (),
    PactError,
>)
    ensures
        content_type_checked(content_type@, r),
        replaced(
            old(builder)@,
            final(builder)@,
            HttpResponseModel {
                body: BodyModel::Matching {
                    pattern: PatternModel::String(body@),
                    content_type: Some(content_type@),
                },
                ..old(builder)@
            },
            r is Ok,
        ),
{
    match check_content_type(&content_type) {
        Ok(_) => {
            builder.response.body = Body::Matching {
                pattern: NifStringPattern::String(body),
                content_type: Some(content_type),
            };
            Ok(())
        },
        Err(error) => Err(error),
    }
}

/// Takes down what the content generator registered for `content_type`
/// reported of the body it was asked to make from `definition`. Where it made
/// the body, that body stands in place of any body that was there. Where no
/// generator is registered, this fails with `UnknownContentType`, and where
/// the generator failed, with `PluginFailure`; the builder is then as it was,
/// and the generator is not asked again.
pub fn contents_resolved(
    builder: &mut NifResponseBuilder,
    content_type: String,
    definition: String,
    resolution: Resolution,
) -> (r: Result<(), PactError>)
    ensures
        resolution_surfaced(content_type@, resolution, r),
        replaced(
            old(builder)@,
            final(builder)@,
            HttpResponseModel {
                body: BodyModel::Contents { content_type: content_type@, definition: definition@ },
                ..old(builder)@
            },
            r is Ok,
        ),
{
    match resolution_result(&content_type, resolution) {
        Ok(_) => {
            builder.response.body = Body::Contents { content_type, definition };
            Ok(())
        },
        Err(error) => Err(error),
    }
}

/// Sets the body to what the content generator registered for `content_type`
/// made from `definition`, in place of any body that was there; `resolution`
/// is what the generator reported. Fails, and changes nothing, with
/// `InvalidDefinition` where the definition is not JSON, else with
/// `InvalidArgument` where the content type does not parse, else with
/// `UnknownContentType` where no generator is registered, and with
/// `PluginFailure` where the generator failed. The generator can only be
/// asked about arguments that pass `check_contents`; of others its report is
/// not looked at.
pub fn contents(
    builder: &mut NifResponseBuilder,
    content_type: String,
    definition: String,
    resolution: Resolution,
) -> (r: Result<(), PactError>)
    ensures
        contents_settled(content_type@, definition@, resolution, r),
        replaced(
            old(builder)@,
            final(builder)@,
            HttpResponseModel {
                body: BodyModel::Contents { content_type: content_type@, definition: definition@ },
                ..old(builder)@
            },
            r is Ok,
        ),
{
    match check_contents(&content_type, &definition) {
        Ok(_) => contents_resolved(builder, content_type, definition, resolution),
        Err(error) => Err(error),
    }
}

} // verus!
