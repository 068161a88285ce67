//! Interactions: one request and response, or one message.

use vstd::prelude::*;
use crate::models::request::NifRequest;
use crate::models::response::NifResponse;
use crate::models::v4::async_message::{MessageModel, NifAsynchronousMessage};
use crate::models::v4::http_parts::{
    text_of,
    views,
    HttpRequestModel,
    HttpResponseModel,
    NifHttpRequest,
    NifHttpResponse,
};

verus! {

/// A state the provider must be in before an interaction is verified: its
/// name and, optionally, its parameters as a JSON text.
#[derive(Debug)]
pub struct ProviderState {
    pub name: String,
    pub params: Option<String>,
}

/// What a [`ProviderState`] stands for.
pub ghost struct ProviderStateModel {
    pub name: Seq<char>,
    pub params: Option<Seq<char>>,
}

impl View for ProviderState {
    type V = ProviderStateModel;

    open spec fn view(&self) -> ProviderStateModel {
        ProviderStateModel { name: self.name@, params: text_of(self.params) }
    }
}

impl Clone for ProviderState {
    /// A copy that stands for the same state.
    fn clone(&self) -> (r: ProviderState)
        ensures
            r@ == self@,
    {
        ProviderState { name: self.name.clone(), params: self.params.clone() }
    }
}

/// The content of an interaction, in one of its representations.
#[derive(Debug)]
#[allow(inconsistent_fields)]
pub enum InteractionResource {
    /// A request and its response in the legacy representation.
    RequestResponse {
        description: String,
        provider_states: Vec<ProviderState>,
        request: NifRequest,
        response: NifResponse,
    },
    /// A request and its response in the extended representation.
    SynchronousHttp {
        key: Option<String>,
        description: String,
        provider_states: Vec<ProviderState>,
        request: NifHttpRequest,
        response: NifHttpResponse,
        comments: Vec<String>,
        test_name: Option<String>,
        pending: bool,
        transport: Option<String>,
    },
    /// A message that is sent without a request.
    AsynchronousMessage(NifAsynchronousMessage),
}

/// What an interaction stands for.
#[allow(inconsistent_fields)]
pub ghost enum InteractionModel {
    RequestResponse {
        description: Seq<char>,
        provider_states: Seq<ProviderStateModel>,
        request: HttpRequestModel,
        response: HttpResponseModel,
    },
    SynchronousHttp {
        key: Option<Seq<char>>,
        description: Seq<char>,
        provider_states: Seq<ProviderStateModel>,
        request: HttpRequestModel,
        response: HttpResponseModel,
        comments: Seq<Seq<char>>,
        test_name: Option<Seq<char>>,
        pending: bool,
        transport: Option<Seq<char>>,
    },
    AsynchronousMessage(MessageModel),
}

impl View for InteractionResource {
    type V = InteractionModel;

    open spec fn view(&self) -> InteractionModel {
        match self {
            InteractionResource::RequestResponse {
                description,
                provider_states,
                request,
                response,
            } => InteractionModel::RequestResponse {
                description: description@,
                provider_states: views(provider_states@),
                request: request@,
                response: response@,
            },
            InteractionResource::SynchronousHttp {
                key,
                description,
                provider_states,
                request,
                response,
                comments,
                test_name,
                pending,
                transport,
            } => InteractionModel::SynchronousHttp {
                key: text_of(*key),
                description: description@,
                provider_states: views(provider_states@),
                request: request@,
                response: response@,
                comments: views(comments@),
                test_name: text_of(*test_name),
                pending: *pending,
                transport: text_of(*transport),
            },
            InteractionResource::AsynchronousMessage(message) => InteractionModel::AsynchronousMessage(
                message@,
            ),
        }
    }
}

impl Clone for InteractionResource {
    /// A copy that stands for the same interaction.
    fn clone(&self) -> (r: InteractionResource)
        ensures
            r@ == self@,
    {
        match self {
            InteractionResource::RequestResponse { description, provider_states, request, response } => {
                let states = provider_states.clone();
                assert(views(states@) =~= views(provider_states@));
                InteractionResource::RequestResponse {
                    description: description.clone(),
                    provider_states: states,
                    request: request.clone(),
                    response: response.clone(),
                }
            },
            InteractionResource::SynchronousHttp {
                key,
                description,
                provider_states,
                request,
                response,
                comments,
                test_name,
                pending,
                transport,
            } => {
                let states = provider_states.clone();
                let notes = comments.clone();
                assert(views(states@) =~= views(provider_states@));
                assert(views(notes@) =~= views(comments@));
                InteractionResource::SynchronousHttp {
                    key: key.clone(),
                    description: description.clone(),
                    provider_states: states,
                    request: request.clone(),
                    response: response.clone(),
                    comments: notes,
                    test_name: test_name.clone(),
                    pending: *pending,
                    transport: transport.clone(),
                }
            },
            InteractionResource::AsynchronousMessage(message) => InteractionResource::AsynchronousMessage(
                message.clone(),
            ),
        }
    }
}

/// An interaction, finished and ready to be added to a contract.
#[derive(Debug)]
pub struct NifInteraction {
    pub inner: InteractionResource,
}

impl View for NifInteraction {
    type V = InteractionModel;

    open spec fn view(&self) -> InteractionModel {
        self.inner@
    }
}

impl Clone for NifInteraction {
    /// A copy that stands for the same interaction.
    fn clone(&self) -> (r: NifInteraction)
        ensures
            r@ == self@,
    {
        NifInteraction { inner: self.inner.clone() }
    }
}

impl NifInteraction {
    /// Whether this is a message.
    pub fn is_message(&self) -> (r: bool)
        ensures
            r == (self@ is AsynchronousMessage),
    {
        match &self.inner {
            InteractionResource::AsynchronousMessage(_) => true,
            _ => false,
        }
    }
}

} // verus!
