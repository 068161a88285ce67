//! Responses in the legacy representation.

use vstd::prelude::*;
use crate::models::v4::http_parts::{HttpResponseModel, NifHttpResponse};

verus! {

/// An HTTP response in the legacy representation. It holds what the extended
/// one holds.
#[derive(Debug)]
pub struct NifResponse {
    pub inner: NifHttpResponse,
}

impl View for NifResponse {
    type V = HttpResponseModel;

    open spec fn view(&self) -> HttpResponseModel {
        self.inner@
    }
}

impl Clone for NifResponse {
    /// A copy that stands for the same response.
    fn clone(&self) -> (r: NifResponse)
        ensures
            r@ == self@,
    {
        NifResponse { inner: self.inner.clone() }
    }
}

} // verus!
