//! The context that accompanies a request through the router.

use crate::graphql::{Request, RequestView};
use std::sync::Arc;
use vstd::prelude::*;

verus! {

/// The context of one request. `T` is what it knows of the request itself.
#[derive(Clone, Debug, PartialEq, Eq)]
pub struct Context<T> {
    /// The request that this context belongs to.
    pub request: T,
}

/// A context as mathematical data.
pub struct ContextView<R> {
    pub request: R,
}

impl<T: DeepView> DeepView for Context<T> {
    type V = ContextView<T::V>;

    open spec fn deep_view(&self) -> ContextView<T::V> {
        ContextView { request: self.request.deep_view() }
    }
}

/// The request as a context holds it.
pub type CompatRequest = Arc<Request>;

impl Context<()> {
    /// A context that belongs to no request yet.
    pub fn new() -> (context: Context<()>)
        ensures
            context == (Context { request: () }),
    {
        Context { request: () }
    }

    /// Binds the context to `request`.
    pub fn with_request<T>(self, request: T) -> (context: Context<T>)
        ensures
            context == (Context { request }),
    {
        Context { request }
    }
}

/// The context that a response gets when none was supplied, as
/// mathematical data: one that belongs to the request that names no
/// operation.
pub open spec fn default_context_view() -> ContextView<RequestView> {
    ContextView { request: RequestView::empty() }
}

/// Makes the context for a response that was given none: a new context,
/// bound to a request of its own that names no operation.
pub fn default_context() -> (context: Context<CompatRequest>)
    ensures
        context.deep_view() == default_context_view(),
{
    Context::new().with_request(Arc::new(Default::default()))
}

} // verus!
