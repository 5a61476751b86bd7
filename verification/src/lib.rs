//! Assembly of router responses.
//!
//! A plugin or a test describes a response by the fields it cares about
//! ([`plugin_utils::RouterResponse`]). This crate completes such a draft into
//! the response that the router emits ([`RouterResponse`]): an HTTP response
//! with a status and a GraphQL body, together with the context of the request.

pub mod context;
pub mod graphql;
pub mod http_compat;
pub mod json;
pub mod plugin_utils;
pub mod services;

pub use context::{default_context, CompatRequest, Context};
pub use graphql::{Error, Path, PathElement, Request, ResponseBody};
pub use json::Object;
pub use services::RouterResponse;
