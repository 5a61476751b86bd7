//! What the router hands on once a request has been answered.

use crate::context::{CompatRequest, Context, ContextView};
use crate::graphql::{RequestView, ResponseBody, ResponseBodyView};
use crate::http_compat::{http_body, http_status, status_code_number};
use vstd::prelude::*;

verus! {

/// The response that the router emits: an HTTP response whose body is a
/// GraphQL response, and the context of the request that it answers.
pub struct RouterResponse {
    /// The HTTP response.
    pub response: http::Response<ResponseBody>,
    /// The context of the request.
    pub context: Context<CompatRequest>,
}

/// An emitted response as mathematical data.
pub struct RouterResponseView {
    /// The number of the HTTP status.
    pub status: u16,
    /// The body of the HTTP response.
    pub body: ResponseBodyView,
    /// The context of the request.
    pub context: ContextView<RequestView>,
}

impl View for RouterResponse {
    type V = RouterResponseView;

    open spec fn view(&self) -> RouterResponseView {
        RouterResponseView {
            status: status_code_number(http_status(self.response)),
            body: http_body(self.response)@,
            context: self.context.deep_view(),
        }
    }
}

} // verus!
