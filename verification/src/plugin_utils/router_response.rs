//! A response described by the fields that matter to its author, and its
//! completion into the response that the router emits.

use crate::context::{
    default_context, default_context_view, CompatRequest, Context, ContextView,
};
use crate::graphql::{
    Error, ErrorView, Path, PathElementView, RequestView, ResponseBody, ResponseBodyView,
};
use crate::http_compat::{http_response, status_code_number, status_ok, STATUS_OK};
use crate::json::{json_null, object_entries, value_is_null, Entries, Object};
use crate::plugin_utils::extensions::{from_names_and_values, merge_pairs, pairs_view};
use crate::services::RouterResponseView;
use http::StatusCode;
use serde_json_bytes::Value;
use vstd::prelude::*;
use vstd::std_specs::convert::FromSpecImpl;

verus! {

/// A draft of a response. Every field but the errors may be left out; a
/// draft without errors has an empty list of them.
pub struct RouterResponse {
    label: Option<String>,
    data: Option<Value>,
    path: Option<Path>,
    has_next: Option<bool>,
    errors: Vec<Error>,
    extensions: Option<Object>,
    context: Option<Context<CompatRequest>>,
}

/// A draft as mathematical data. The extensions are the entries of the
/// object, in its order.
pub struct DraftView {
    pub label: Option<Seq<char>>,
    pub data: Option<Value>,
    pub path: Option<Seq<PathElementView>>,
    pub has_next: Option<bool>,
    pub errors: Seq<ErrorView>,
    pub extensions: Option<Entries>,
    pub context: Option<ContextView<RequestView>>,
}

impl DraftView {
    /// The draft in which nothing has been set.
    pub open spec fn empty() -> DraftView {
        DraftView {
            label: None,
            data: None,
            path: None,
            has_next: None,
            errors: Seq::empty(),
            extensions: None,
            context: None,
        }
    }

    /// The draft with the label set to `label`.
    pub open spec fn with_label(self, label: Seq<char>) -> DraftView {
        DraftView { label: Some(label), ..self }
    }

    /// The draft with the data set to `data`.
    pub open spec fn with_data(self, data: Value) -> DraftView {
        DraftView { data: Some(data), ..self }
    }

    /// The draft with the path set to `path`.
    pub open spec fn with_path(self, path: Seq<PathElementView>) -> DraftView {
        DraftView { path: Some(path), ..self }
    }

    /// The draft that says whether more parts follow.
    pub open spec fn with_has_next(self, has_next: bool) -> DraftView {
        DraftView { has_next: Some(has_next), ..self }
    }

    /// The draft with `errors` in place of its errors.
    pub open spec fn with_errors(self, errors: Seq<ErrorView>) -> DraftView {
        DraftView { errors, ..self }
    }

    /// The draft with the extensions set to the object with these entries.
    pub open spec fn with_extensions(self, extensions: Entries) -> DraftView {
        DraftView { extensions: Some(extensions), ..self }
    }

    /// The draft with the context set to `context`.
    pub open spec fn with_context(self, context: ContextView<RequestView>) -> DraftView {
        DraftView { context: Some(context), ..self }
    }
}

impl View for RouterResponse {
    type V = DraftView;

    closed spec fn view(&self) -> DraftView {
        DraftView {
            label: self.label.deep_view(),
            data: self.data,
            path: self.path.deep_view(),
            has_next: self.has_next,
            errors: self.errors.deep_view(),
            extensions: match self.extensions {
                Some(object) => Some(object_entries(object)),
                None => None,
            },
            context: self.context.deep_view(),
        }
    }
}

/// The response that a draft stands for under the status with the number
/// `status`. What the draft sets is kept as it is. Data that was left out is
/// `null`, extensions that were left out are empty, and a context that was
/// left out is the default context.
pub open spec fn canonical(draft: DraftView, status: u16) -> RouterResponseView {
    RouterResponseView {
        status,
        body: ResponseBodyView {
            label: draft.label,
            data: match draft.data {
                Some(data) => data,
                None => json_null(),
            },
            path: draft.path,
            has_next: draft.has_next,
            errors: draft.errors,
            extensions: match draft.extensions {
                Some(extensions) => extensions,
                None => Seq::empty(),
            },
        },
        context: match draft.context {
            Some(context) => context,
            None => default_context_view(),
        },
    }
}

impl Default for RouterResponse {
    /// The draft in which nothing has been set.
    fn default() -> (draft: RouterResponse)
        ensures
            draft@ == DraftView::empty(),
    {
        let draft = RouterResponse {
            label: None,
            data: None,
            path: None,
            has_next: None,
            errors: Vec::new(),
            extensions: None,
            context: None,
        };
        assert(draft.errors.deep_view() =~= Seq::empty());
        draft
    }
}

impl RouterResponse {
    /// Starts a draft in which nothing has been set.
    pub fn builder() -> (builder: RouterResponseBuilder)
        ensures
            builder@ == DraftView::empty(),
    {
        RouterResponseBuilder { fields: RouterResponse::default() }
    }

    /// Completes the draft into the response that the router emits with the
    /// given status. The label, the path, the flag and the errors are those of
    /// the draft, and so are the data, the extensions and the context where
    /// the draft has them. Left out, the data become `null`, the extensions
    /// an empty object, and the context the default context.
    pub fn with_status(self, status: StatusCode) -> (response: crate::services::RouterResponse)
        ensures
            response@ == canonical(self@, status_code_number(status)),
            self@.data is None ==> value_is_null(response@.body.data),
            self@.extensions is None ==> response@.body.extensions == Entries::empty(),
            self@.context is None ==> response@.context == default_context_view(),
            self@.context matches Some(context) ==> response@.context == context,
    {
        let body = ResponseBody {
            label: self.label,
            data: self.data.unwrap_or_default(),
            path: self.path,
            has_next: self.has_next,
            errors: self.errors,
            extensions: self.extensions.unwrap_or_default(),
        };
        let context = match self.context {
            Some(context) => context,
            None => default_context(),
        };
        match http_response(status, body) {
            Some(response) => crate::services::RouterResponse { response, context },
            None => unreached(),
        }
    }
}

impl From<RouterResponse> for crate::services::RouterResponse {
    /// Completes the draft into the response that the router emits with the
    /// status `OK`.
    fn from(response: RouterResponse) -> (router_response: crate::services::RouterResponse)
        ensures
            router_response@ == canonical(response@, STATUS_OK),
            response@.data is None ==> value_is_null(router_response@.body.data),
    {
        response.with_status(status_ok())
    }
}

/// A response holds values that only the outside crates can make, so no
/// specification function gives the response itself. What `from` returns is
/// stated on `from`, over the view of the response.
impl FromSpecImpl<RouterResponse> for crate::services::RouterResponse {
    open spec fn obeys_from_spec() -> bool {
        false
    }

    open spec fn from_spec(response: RouterResponse) -> crate::services::RouterResponse {
        arbitrary()
    }
}

/// A draft that is still being put together.
pub struct RouterResponseBuilder {
    fields: RouterResponse,
}

impl View for RouterResponseBuilder {
    type V = DraftView;

    closed spec fn view(&self) -> DraftView {
        self.fields@
    }
}

impl RouterResponseBuilder {
    /// Sets the label.
    pub fn label(self, label: String) -> (builder: RouterResponseBuilder)
        ensures
            builder@ == self@.with_label(label@),
    {
        let mut fields = self.fields;
        fields.label = Some(label);
        RouterResponseBuilder { fields }
    }

    /// Sets the data.
    pub fn data(self, data: Value) -> (builder: RouterResponseBuilder)
        ensures
            builder@ == self@.with_data(data),
    {
        let mut fields = self.fields;
        fields.data = Some(data);
        RouterResponseBuilder { fields }
    }

    /// Sets the path.
    pub fn path(self, path: Path) -> (builder: RouterResponseBuilder)
        ensures
            builder@ == self@.with_path(path.deep_view()),
    {
        let mut fields = self.fields;
        fields.path = Some(path);
        RouterResponseBuilder { fields }
    }

    /// Sets whether more parts follow.
    pub fn has_next(self, has_next: bool) -> (builder: RouterResponseBuilder)
        ensures
            builder@ == self@.with_has_next(has_next),
    {
        let mut fields = self.fields;
        fields.has_next = Some(has_next);
        RouterResponseBuilder { fields }
    }

    /// Replaces the errors.
    pub fn errors(self, errors: Vec<Error>) -> (builder: RouterResponseBuilder)
        ensures
            builder@ == self@.with_errors(errors.deep_view()),
    {
        let mut fields = self.fields;
        fields.errors = errors;
        RouterResponseBuilder { fields }
    }

    /// Sets the extensions to the object made of the given names and values.
    /// Extensions that were set before are dropped, not merged with.
    pub fn extensions(self, extensions: Vec<(&str, Value)>) -> (builder: RouterResponseBuilder)
        ensures
            builder@ == self@.with_extensions(merge_pairs(pairs_view(extensions@))),
    {
        let mut fields = self.fields;
        fields.extensions = Some(from_names_and_values(extensions));
        RouterResponseBuilder { fields }
    }

    /// Sets the context.
    pub fn context(self, context: Context<CompatRequest>) -> (builder: RouterResponseBuilder)
        ensures
            builder@ == self@.with_context(context.deep_view()),
    {
        let mut fields = self.fields;
        fields.context = Some(context);
        RouterResponseBuilder { fields }
    }

    /// Finishes the draft. Nothing is checked: every field may be left out.
    pub fn build(self) -> (draft: RouterResponse)
        ensures
            draft@ == self@,
    {
        self.fields
    }
}

/// Completing a draft is a function: two responses that complete the same
/// draft under the same status are equal, field by field.
pub proof fn lemma_completion_is_a_function(
    draft: RouterResponse,
    status: StatusCode,
    first: crate::services::RouterResponse,
    second: crate::services::RouterResponse,
)
    requires
        first@ == canonical(draft@, status_code_number(status)),
        second@ == canonical(draft@, status_code_number(status)),
    ensures
        first@ == second@,
        first@.status == second@.status,
        first@.body.label == second@.body.label,
        first@.body.data == second@.body.data,
        first@.body.path == second@.body.path,
        first@.body.has_next == second@.body.has_next,
        first@.body.errors == second@.body.errors,
        first@.body.extensions == second@.body.extensions,
        first@.context == second@.context,
{
}

/// A field that is set twice has the value that was set last: the earlier
/// value is dropped, whatever the field.
pub proof fn lemma_later_value_replaces_earlier(
    draft: DraftView,
    labels: (Seq<char>, Seq<char>),
    data: (Value, Value),
    paths: (Seq<PathElementView>, Seq<PathElementView>),
    flags: (bool, bool),
    errors: (Seq<ErrorView>, Seq<ErrorView>),
    extensions: (Entries, Entries),
    contexts: (ContextView<RequestView>, ContextView<RequestView>),
)
    ensures
        draft.with_label(labels.0).with_label(labels.1) == draft.with_label(labels.1),
        draft.with_data(data.0).with_data(data.1) == draft.with_data(data.1),
        draft.with_path(paths.0).with_path(paths.1) == draft.with_path(paths.1),
        draft.with_has_next(flags.0).with_has_next(flags.1) == draft.with_has_next(flags.1),
        draft.with_errors(errors.0).with_errors(errors.1) == draft.with_errors(errors.1),
        draft.with_extensions(extensions.0).with_extensions(extensions.1) == draft.with_extensions(
            extensions.1,
        ),
        draft.with_context(contexts.0).with_context(contexts.1) == draft.with_context(contexts.1),
{
}

} // verus!
