//! The error values every fallible operation of the library reports.

use vstd::prelude::*;

verus! {

/// What went wrong, without the details.
#[derive(Clone, Copy, Debug, PartialEq, Eq, Structural)]
pub enum ErrorKind {
    /// A regular expression does not compile, or a matcher is malformed.
    InvalidPattern,
    /// An object key is neither an atom nor well-formed text.
    InvalidKey,
    /// A builder was handed an argument it cannot parse.
    InvalidArgument,
    /// No content generator is registered for a content type.
    UnknownContentType,
    /// A contents definition is not structured data.
    InvalidDefinition,
    /// The content generator itself failed.
    PluginFailure,
    /// The worker behind a mock server is gone and will not answer.
    ServerUnavailable,
    /// The command queue of a mock server has no reader any more.
    ChannelClosed,
    /// A builder was busy in another call.
    LockContention,
}

/// An error: its kind, and the offending input or a message from the
/// collaborator that failed.
#[derive(Debug)]
pub struct PactError {
    pub kind: ErrorKind,
    pub detail: String,
}

impl PactError {
    /// An error of the given kind about the given input.
    pub fn new(kind: ErrorKind, detail: String) -> (e: PactError)
        ensures
            e.kind == kind,
            e.detail == detail,
    {
        PactError { kind, detail }
    }

    /// Whether this error is of kind `kind` and carries `detail`.
    pub open spec fn is(&self, kind: ErrorKind, detail: Seq<char>) -> bool {
        self.kind == kind && self.detail@ == detail
    }

    /// The kind of this error.
    pub fn kind(&self) -> (k: ErrorKind)
        ensures
            k == self.kind,
    {
        self.kind
    }
}

} // verus!
