//! The GraphQL values that a response is made of.

use crate::json::{object_entries, Entries, Object};
use serde_json_bytes::Value;
use vstd::prelude::*;

verus! {

/// One step of a path into a response.
#[derive(Clone, Debug, PartialEq, Eq)]
pub enum PathElement {
    /// Every element of a list.
    Flatten,
    /// One element of a list.
    Index(usize),
    /// One field of an object.
    Key(String),
}

/// A step of a path as mathematical data.
pub enum PathElementView {
    Flatten,
    Index(usize),
    Key(Seq<char>),
}

impl DeepView for PathElement {
    type V = PathElementView;

    open spec fn deep_view(&self) -> PathElementView {
        match *self {
            PathElement::Flatten => PathElementView::Flatten,
            PathElement::Index(index) => PathElementView::Index(index),
            PathElement::Key(key) => PathElementView::Key(key@),
        }
    }
}

/// A path into a response: where in a larger response a part belongs.
#[derive(Clone, Debug, PartialEq, Eq)]
pub struct Path(pub Vec<PathElement>);

impl DeepView for Path {
    type V = Seq<PathElementView>;

    open spec fn deep_view(&self) -> Seq<PathElementView> {
        self.0.deep_view()
    }
}

/// An error that comes with a response.
#[derive(Clone, Debug, PartialEq, Eq)]
pub struct Error {
    /// What went wrong, for a human reader.
    pub message: String,
}

/// An error as mathematical data.
pub struct ErrorView {
    pub message: Seq<char>,
}

impl DeepView for Error {
    type V = ErrorView;

    open spec fn deep_view(&self) -> ErrorView {
        ErrorView { message: self.message@ }
    }
}

/// A GraphQL request.
#[derive(Clone, Debug, PartialEq, Eq)]
pub struct Request {
    /// The text of the operation.
    pub query: Option<String>,
    /// Which operation of the text to run.
    pub operation_name: Option<String>,
}

/// A request as mathematical data.
pub struct RequestView {
    pub query: Option<Seq<char>>,
    pub operation_name: Option<Seq<char>>,
}

impl RequestView {
    /// The request that names no operation.
    pub open spec fn empty() -> RequestView {
        RequestView { query: None, operation_name: None }
    }
}

impl DeepView for Request {
    type V = RequestView;

    open spec fn deep_view(&self) -> RequestView {
        RequestView {
            query: self.query.deep_view(),
            operation_name: self.operation_name.deep_view(),
        }
    }
}

impl Default for Request {
    /// The request that names no operation.
    fn default() -> (request: Request)
        ensures
            request.deep_view() == RequestView::empty(),
    {
        Request { query: None, operation_name: None }
    }
}

/// The body of a response.
#[derive(Debug, PartialEq)]
pub struct ResponseBody {
    /// Names the part of a deferred response that this is.
    pub label: Option<String>,
    /// The result of the operation.
    pub data: Value,
    /// Where in the whole response this part belongs.
    pub path: Option<Path>,
    /// Whether more parts follow.
    pub has_next: Option<bool>,
    /// The errors, in the order in which they arose.
    pub errors: Vec<Error>,
    /// Data beside the result, by name.
    pub extensions: Object,
}

/// A response body as mathematical data. The extensions are the entries of
/// the object, in its order.
pub struct ResponseBodyView {
    pub label: Option<Seq<char>>,
    pub data: Value,
    pub path: Option<Seq<PathElementView>>,
    pub has_next: Option<bool>,
    pub errors: Seq<ErrorView>,
    pub extensions: Entries,
}

impl View for ResponseBody {
    type V = ResponseBodyView;

    open spec fn view(&self) -> ResponseBodyView {
        ResponseBodyView {
            label: self.label.deep_view(),
            data: self.data,
            path: self.path.deep_view(),
            has_next: self.has_next,
            errors: self.errors.deep_view(),
            extensions: object_entries(self.extensions),
        }
    }
}

} // verus!
