//! Requests in the legacy representation.

use vstd::prelude::*;
use crate::models::v4::http_parts::{HttpRequestModel, NifHttpRequest};

verus! {

/// An HTTP request in the legacy representation. It holds what the extended
/// one holds.
#[derive(Debug)]
pub struct NifRequest {
    pub inner: NifHttpRequest,
}

impl View for NifRequest {
    type V = HttpRequestModel;

    open spec fn view(&self) -> HttpRequestModel {
        self.inner@
    }
}

impl Clone for NifRequest {
    /// A copy that stands for the same request.
    fn clone(&self) -> (r: NifRequest)
        ensures
            r@ == self@,
    {
        NifRequest { inner: self.inner.clone() }
    }
}

} // verus!
