//! Asynchronous messages and their contents.

use vstd::prelude::*;
use crate::models::interaction::{ProviderState, ProviderStateModel};
use crate::models::v4::http_parts::{text_of, views, Body, BodyModel};

verus! {

/// The contents of a message once the contract engine has resolved them.
#[derive(Debug)]
pub enum MessageContents {
    /// The contract holds no contents for the message.
    Missing,
    /// The contract holds empty contents.
    Empty,
    /// The contents are the JSON value null.
    Null,
    /// The contents, as bytes.
    Present(Vec<u8>),
}

impl View for MessageContents {
    type V = Option<Seq<u8>>;

    /// The payload, if the contents encode one.
    open spec fn view(&self) -> Option<Seq<u8>> {
        match self {
            MessageContents::Present(payload) => Some(payload@),
            _ => None,
        }
    }
}

/// The bytes a payload comes to: the payload itself, or nothing where there is
/// none.
pub open spec fn payload_bytes(contents: Option<Seq<u8>>) -> Seq<u8> {
    match contents {
        Some(payload) => payload,
        None => Seq::empty(),
    }
}

impl MessageContents {
    /// The payload as bytes; empty where the contents encode none.
    pub fn bytes(&self) -> (r: Vec<u8>)
        ensures
            r@ == payload_bytes(self@),
    {
        match self {
            MessageContents::Present(payload) => payload.clone(),
            _ => Vec::new(),
        }
    }
}

impl Clone for MessageContents {
    /// A copy with the same payload.
    fn clone(&self) -> (r: MessageContents)
        ensures
            r@ == self@,
            r is Present == self is Present,
    {
        match self {
            MessageContents::Missing => MessageContents::Missing,
            MessageContents::Empty => MessageContents::Empty,
            MessageContents::Null => MessageContents::Null,
            MessageContents::Present(payload) => MessageContents::Present(payload.clone()),
        }
    }
}

/// An asynchronous message: what was said of it while it was built, and its
/// contents once they are resolved.
#[derive(Debug)]
pub struct NifAsynchronousMessage {
    pub description: String,
    pub provider_states: Vec<ProviderState>,
    pub key: Option<String>,
    pub pending: bool,
    pub comments: Vec<String>,
    pub test_name: Option<String>,
    /// The body as it was specified.
    pub body: Body,
    /// The resolved contents; missing until the contract engine has made them.
    pub contents: MessageContents,
}

/// What a message stands for.
pub ghost struct MessageModel {
    pub description: Seq<char>,
    pub provider_states: Seq<ProviderStateModel>,
    pub key: Option<Seq<char>>,
    pub pending: bool,
    pub comments: Seq<Seq<char>>,
    pub test_name: Option<Seq<char>>,
    pub body: BodyModel,
    pub contents: Option<Seq<u8>>,
}

impl View for NifAsynchronousMessage {
    type V = MessageModel;

    open spec fn view(&self) -> MessageModel {
        MessageModel {
            description: self.description@,
            provider_states: views(self.provider_states@),
            key: text_of(self.key),
            pending: self.pending,
            comments: views(self.comments@),
            test_name: text_of(self.test_name),
            body: self.body@,
            contents: self.contents@,
        }
    }
}

impl Clone for NifAsynchronousMessage {
    /// A copy that stands for the same message.
    fn clone(&self) -> (r: NifAsynchronousMessage)
        ensures
            r@ == self@,
    {
        let provider_states = self.provider_states.clone();
        let comments = self.comments.clone();
        assert(views(provider_states@) =~= views(self.provider_states@));
        assert(views(comments@) =~= views(self.comments@));
        NifAsynchronousMessage {
            description: self.description.clone(),
            provider_states,
            key: self.key.clone(),
            pending: self.pending,
            comments,
            test_name: self.test_name.clone(),
            body: self.body.clone(),
            contents: self.contents.clone(),
        }
    }
}

/// The resolved contents of `message` as bytes; empty where they encode no
/// payload.
pub fn bytes(message: &NifAsynchronousMessage) -> (r: Vec<u8>)
    ensures
        r@ == payload_bytes(message@.contents),
{
    message.contents.bytes()
}

} // verus!
