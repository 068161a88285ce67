//! The builder of an asynchronous message.

use vstd::prelude::*;
use crate::builders::{check_json, json_checked, replaced};
use crate::error::{ErrorKind, PactError};
use crate::models::interaction::{
    InteractionModel,
    InteractionResource,
    NifInteraction,
    ProviderState,
    ProviderStateModel,
};
use crate::models::v4::async_message::{MessageContents, MessageModel, NifAsynchronousMessage};
use crate::models::v4::http_parts::{text_of, views, Body, BodyModel};
use crate::patterns::{checked, NifJsonPattern};

verus! {

/// The builder of a message: what has been said of it so far.
#[derive(Debug)]
pub struct NifMessageInteractionBuilder {
    pub description: String,
    /// The provider states, in the order they were given.
    pub provider_states: Vec<ProviderState>,
    /// The comments, in the order they were made.
    pub comments: Vec<String>,
    pub test_name: Option<String>,
    pub key: Option<String>,
    pub pending: Option<bool>,
    pub body: Body,
}

/// What a message builder stands for.
pub ghost struct MessageBuilderModel {
    pub description: Seq<char>,
    pub provider_states: Seq<ProviderStateModel>,
    pub comments: Seq<Seq<char>>,
    pub test_name: Option<Seq<char>>,
    pub key: Option<Seq<char>>,
    pub pending: Option<bool>,
    pub body: BodyModel,
}

impl View for NifMessageInteractionBuilder {
    type V = MessageBuilderModel;

    open spec fn view(&self) -> MessageBuilderModel {
        MessageBuilderModel {
            description: self.description@,
            provider_states: views(self.provider_states@),
            comments: views(self.comments@),
            test_name: text_of(self.test_name),
            key: text_of(self.key),
            pending: self.pending,
            body: self.body@,
        }
    }
}

/// The message a builder gives. It is pending only if it was said to be, and
/// its contents are not resolved yet.
pub open spec fn built_message(builder: MessageBuilderModel) -> InteractionModel {
    InteractionModel::AsynchronousMessage(
        MessageModel {
            description: builder.description,
            provider_states: builder.provider_states,
            key: builder.key,
            pending: builder.pending == Some(true),
            comments: builder.comments,
            test_name: builder.test_name,
            body: builder.body,
            contents: None,
        },
    )
}

/// A new builder for the message described by `description`: no provider
/// states, no comments, nothing optional set, and no body.
pub fn new(description: String) -> (r: NifMessageInteractionBuilder)
    ensures
        r@ == (MessageBuilderModel {
            description: description@,
            provider_states: Seq::empty(),
            comments: Seq::empty(),
            test_name: None,
            key: None,
            pending: None,
            body: BodyModel::Missing,
        }),
{
    let r = NifMessageInteractionBuilder {
        description,
        provider_states: Vec::new(),
        comments: Vec::new(),
        test_name: None,
        key: None,
        pending: None,
        body: Body::Missing,
    };
    assert(views(r.provider_states@) =~= Seq::empty());
    assert(views(r.comments@) =~= Seq::empty());
    r
}

/// Adds a provider state without parameters, behind those that are there.
pub fn given(builder: &mut NifMessageInteractionBuilder, value: String)
    ensures
        final(builder)@ == (MessageBuilderModel {
            provider_states: old(builder)@.provider_states.push(
                ProviderStateModel { name: value@, params: None },
            ),
            ..old(builder)@
        }),
{
    let ghost state = ProviderStateModel { name: value@, params: None };
    builder.provider_states.push(ProviderState { name: value, params: None });
    assert(views(builder.provider_states@) =~= views(old(builder).provider_states@).push(state));
}

/// Adds a provider state with parameters, a JSON text, behind those that are
/// there. Fails with `InvalidArgument`, and changes nothing, where the
/// parameters are not JSON.
pub fn given_with_params(builder: &mut NifMessageInteractionBuilder, given: String, params: String) -> (r:
    Result<(), PactError>)
    ensures
        json_checked(params@, ErrorKind::InvalidArgument, r),
        replaced(
            old(builder)@,
            final(builder)@,
            MessageBuilderModel {
                provider_states: old(builder)@.provider_states.push(
                    ProviderStateModel { name: given@, params: Some(params@) },
                ),
                ..old(builder)@
            },
            r is Ok,
        ),
{
    match check_json(&params, ErrorKind::InvalidArgument) {
        Ok(_) => {
            let ghost state = ProviderStateModel { name: given@, params: Some(params@) };
            builder.provider_states.push(ProviderState { name: given, params: Some(params) });
            assert(views(builder.provider_states@) =~= views(old(builder).provider_states@).push(state));
            Ok(())
        },
        Err(error) => Err(error),
    }
}

/// The message as it stands. The builder stays as it is and can be built from
/// again.
pub fn build(builder: &NifMessageInteractionBuilder) -> (r: NifInteraction)
    ensures
        r@ == built_message(builder@),
{
    let provider_states = builder.provider_states.clone();
    let comments = builder.comments.clone();
    assert(views(provider_states@) =~= views(builder.provider_states@));
    assert(views(comments@) =~= views(builder.comments@));
    let pending = match builder.pending {
        Some(value) => value,
        None => false,
    };
    NifInteraction {
        inner: InteractionResource::AsynchronousMessage(
            NifAsynchronousMessage {
                description: builder.description.clone(),
                provider_states,
                key: builder.key.clone(),
                pending,
                comments,
                test_name: builder.test_name.clone(),
                body: builder.body.clone(),
                contents: MessageContents::Missing,
            },
        ),
    }
}

/// Sets the key by which the message is known.
pub fn with_key(builder: &mut NifMessageInteractionBuilder, key: String)
    ensures
        final(builder)@ == (MessageBuilderModel { key: Some(key@), ..old(builder)@ }),
{
    builder.key = Some(key);
}

/// Says whether the message is pending.
pub fn pending(builder: &mut NifMessageInteractionBuilder, value: bool)
    ensures
        final(builder)@ == (MessageBuilderModel { pending: Some(value), ..old(builder)@ }),
{
    builder.pending = Some(value);
}

/// Adds a comment behind those that are there.
pub fn comment(builder: &mut NifMessageInteractionBuilder, value: String)
    ensures
        final(builder)@ == (MessageBuilderModel {
            comments: old(builder)@.comments.push(value@),
            ..old(builder)@
        }),
{
    let ghost text = value@;
    builder.comments.push(value);
    assert(views(builder.comments@) =~= views(old(builder).comments@).push(text));
}

/// Sets the name of the test that expects the message.
pub fn test_name(builder: &mut NifMessageInteractionBuilder, name: String)
    ensures
        final(builder)@ == (MessageBuilderModel { test_name: Some(name@), ..old(builder)@ }),
{
    builder.test_name = Some(name);
}

/// Sets the body to a JSON pattern, in place of any body that was there.
/// Fails, and changes nothing, on the first fault of the pattern: with
/// `InvalidPattern` where a regular expression does not compile, and with
/// `InvalidKey` where an object names a field twice.
pub fn json_body(builder: &mut NifMessageInteractionBuilder, body: NifJsonPattern) -> (r: Result<
    (),
    PactError,
>)
    ensures
        checked(body@, r),
        replaced(
            old(builder)@,
            final(builder)@,
            MessageBuilderModel { body: BodyModel::Json(body@), ..old(builder)@ },
            r is Ok,
        ),
{
    match body.validate() {
        Ok(_) => {
            builder.body = Body::Json(body);
            Ok(())
        },
        Err(error) => Err(error),
    }
}

} // verus!
