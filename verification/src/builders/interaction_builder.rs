//! The builder of a request/response interaction.

use vstd::prelude::*;
use crate::builders::{check_json, json_checked, replaced};
use crate::builders::request_builder::{default_request, NifRequestBuilder};
use crate::builders::response_builder::{default_response, NifResponseBuilder};
use crate::error::{ErrorKind, PactError};
use crate::models::interaction::{
    InteractionModel,
    InteractionResource,
    NifInteraction,
    ProviderState,
    ProviderStateModel,
};
use crate::models::v4::http_parts::{text_of, views, HttpRequestModel, HttpResponseModel};

verus! {

/// The builder of an interaction: what has been said of it so far.
#[derive(Debug)]
pub struct NifInteractionBuilder {
    pub description: String,
    pub interaction_type: String,
    /// The provider states, in the order they were given.
    pub provider_states: Vec<ProviderState>,
    /// The comments, in the order they were made.
    pub comments: Vec<String>,
    pub test_name: Option<String>,
    pub key: Option<String>,
    pub pending: Option<bool>,
    pub transport: Option<String>,
    pub request: NifRequestBuilder,
    pub response: NifResponseBuilder,
}

/// What an interaction builder stands for.
pub ghost struct InteractionBuilderModel {
    pub description: Seq<char>,
    pub interaction_type: Seq<char>,
    pub provider_states: Seq<ProviderStateModel>,
    pub comments: Seq<Seq<char>>,
    pub test_name: Option<Seq<char>>,
    pub key: Option<Seq<char>>,
    pub pending: Option<bool>,
    pub transport: Option<Seq<char>>,
    pub request: HttpRequestModel,
    pub response: HttpResponseModel,
}

impl View for NifInteractionBuilder {
    type V = InteractionBuilderModel;

    open spec fn view(&self) -> InteractionBuilderModel {
        InteractionBuilderModel {
            description: self.description@,
            interaction_type: self.interaction_type@,
            provider_states: views(self.provider_states@),
            comments: views(self.comments@),
            test_name: text_of(self.test_name),
            key: text_of(self.key),
            pending: self.pending,
            transport: text_of(self.transport),
            request: self.request@,
            response: self.response@,
        }
    }
}

/// The interaction a builder gives in the legacy representation, which has
/// no place for a key, comments, a test name, the pending flag or a transport.
pub open spec fn legacy_interaction(builder: InteractionBuilderModel) -> InteractionModel {
    InteractionModel::RequestResponse {
        description: builder.description,
        provider_states: builder.provider_states,
        request: builder.request,
        response: builder.response,
    }
}

/// The interaction a builder gives in the extended representation. An
/// interaction is pending only if it was said to be.
pub open spec fn extended_interaction(builder: InteractionBuilderModel) -> InteractionModel {
    InteractionModel::SynchronousHttp {
        key: builder.key,
        description: builder.description,
        provider_states: builder.provider_states,
        request: builder.request,
        response: builder.response,
        comments: builder.comments,
        test_name: builder.test_name,
        pending: builder.pending == Some(true),
        transport: builder.transport,
    }
}

/// A builder is a function of nothing but its content: two builders that
/// hold the same give the same interaction, in either representation. So
/// building twice from a builder that was not changed in between gives two
/// interactions with the same content.
pub proof fn law_building_is_repeatable(first: NifInteractionBuilder, second: NifInteractionBuilder)
    requires
        first@ == second@,
    ensures
        legacy_interaction(first@) == legacy_interaction(second@),
        extended_interaction(first@) == extended_interaction(second@),
{
}

/// A new builder for the interaction described by `description`: no provider
/// states, no comments, nothing optional set, and the default request and
/// response.
pub fn new(description: String, interaction_type: String) -> (r: NifInteractionBuilder)
    ensures
        r@ == (InteractionBuilderModel {
            description: description@,
            interaction_type: interaction_type@,
            provider_states: Seq::empty(),
            comments: Seq::empty(),
            test_name: None,
            key: None,
            pending: None,
            transport: None,
            request: default_request(),
            response: default_response(),
        }),
{
    let r = NifInteractionBuilder {
        description,
        interaction_type,
        provider_states: Vec::new(),
        comments: Vec::new(),
        test_name: None,
        key: None,
        pending: None,
        transport: None,
        request: crate::builders::request_builder::default(),
        response: crate::builders::response_builder::default(),
    };
    assert(views(r.provider_states@) =~= Seq::empty());
    assert(views(r.comments@) =~= Seq::empty());
    r
}

/// Adds a provider state without parameters, behind those that are there.
pub fn given(builder: &mut NifInteractionBuilder, value: String)
    ensures
        final(builder)@ == (InteractionBuilderModel {
            provider_states: old(builder)@.provider_states.push(
                ProviderStateModel { name: value@, params: None },
            ),
            ..old(builder)@
        }),
{
    let ghost state = ProviderStateModel { name: value@, params: None };
    builder.provider_states.push(ProviderState { name: value, params: None });
    assert(views(builder.provider_states@) =~= views(old(builder).provider_states@).push(state));
}

/// Adds a provider state with parameters, a JSON text, behind those that are
/// there. Fails with `InvalidArgument`, and changes nothing, where the
/// parameters are not JSON.
pub fn given_with_params(builder: &mut NifInteractionBuilder, given: String, params: String) -> (r: Result<
    (),
    PactError,
>)
    ensures
        json_checked(params@, ErrorKind::InvalidArgument, r),
        replaced(
            old(builder)@,
            final(builder)@,
            InteractionBuilderModel {
                provider_states: old(builder)@.provider_states.push(
                    ProviderStateModel { name: given@, params: Some(params@) },
                ),
                ..old(builder)@
            },
            r is Ok,
        ),
{
    match check_json(&params, ErrorKind::InvalidArgument) {
        Ok(_) => {
            let ghost state = ProviderStateModel { name: given@, params: Some(params@) };
            builder.provider_states.push(ProviderState { name: given, params: Some(params) });
            assert(views(builder.provider_states@) =~= views(old(builder).provider_states@).push(state));
            Ok(())
        },
        Err(error) => Err(error),
    }
}

/// Takes the request as `request_builder` holds it now, in place of the
/// request that was there.
pub fn request(builder: &mut NifInteractionBuilder, request_builder: &NifRequestBuilder)
    ensures
        final(builder)@ == (InteractionBuilderModel { request: request_builder@, ..old(builder)@ }),
{
    builder.request = request_builder.clone();
}

/// Takes the response as `response_builder` holds it now, in place of the
/// response that was there.
pub fn response(builder: &mut NifInteractionBuilder, response_builder: &NifResponseBuilder)
    ensures
        final(builder)@ == (InteractionBuilderModel { response: response_builder@, ..old(builder)@ }),
{
    builder.response = response_builder.clone();
}

/// The interaction as it stands, in the legacy representation. The builder
/// stays as it is and can be built from again.
pub fn build(builder: &NifInteractionBuilder) -> (r: NifInteraction)
    ensures
        r@ == legacy_interaction(builder@),
{
    let provider_states = builder.provider_states.clone();
    assert(views(provider_states@) =~= views(builder.provider_states@));
    NifInteraction {
        inner: InteractionResource::RequestResponse {
            description: builder.description.clone(),
            provider_states,
            request: crate::builders::request_builder::build(&builder.request),
            response: crate::builders::response_builder::build(&builder.response),
        },
    }
}

/// The interaction as it stands, in the extended representation. The builder
/// stays as it is and can be built from again.
pub fn build_v4(builder: &NifInteractionBuilder) -> (r: NifInteraction)
    ensures
        r@ == extended_interaction(builder@),
{
    let provider_states = builder.provider_states.clone();
    let comments = builder.comments.clone();
    assert(views(provider_states@) =~= views(builder.provider_states@));
    assert(views(comments@) =~= views(builder.comments@));
    let pending = match builder.pending {
        Some(value) => value,
        None => false,
    };
    NifInteraction {
        inner: InteractionResource::SynchronousHttp {
            key: builder.key.clone(),
            description: builder.description.clone(),
            provider_states,
            request: crate::builders::request_builder::build_v4(&builder.request),
            response: crate::builders::response_builder::build_v4(&builder.response),
            comments,
            test_name: builder.test_name.clone(),
            pending,
            transport: builder.transport.clone(),
        },
    }
}

/// Sets the key by which the interaction is known.
pub fn with_key(builder: &mut NifInteractionBuilder, key: String)
    ensures
        final(builder)@ == (InteractionBuilderModel { key: Some(key@), ..old(builder)@ }),
{
    builder.key = Some(key);
}

/// Says whether the interaction is pending.
pub fn pending(builder: &mut NifInteractionBuilder, value: bool)
    ensures
        final(builder)@ == (InteractionBuilderModel { pending: Some(value), ..old(builder)@ }),
{
    builder.pending = Some(value);
}

/// Adds a comment behind those that are there.
pub fn comment(builder: &mut NifInteractionBuilder, value: String)
    ensures
        final(builder)@ == (InteractionBuilderModel {
            comments: old(builder)@.comments.push(value@),
            ..old(builder)@
        }),
{
    let ghost text = value@;
    builder.comments.push(value);
    assert(views(builder.comments@) =~= views(old(builder).comments@).push(text));
}

/// Sets the name of the test that makes the interaction.
pub fn test_name(builder: &mut NifInteractionBuilder, value: String)
    ensures
        final(builder)@ == (InteractionBuilderModel { test_name: Some(value@), ..old(builder)@ }),
{
    builder.test_name = Some(value);
}

/// Sets the transport the interaction uses.
pub fn transport(builder: &mut NifInteractionBuilder, name: String)
    ensures
        final(builder)@ == (InteractionBuilderModel { transport: Some(name@), ..old(builder)@ }),
{
    builder.transport = Some(name);
}

} // verus!
