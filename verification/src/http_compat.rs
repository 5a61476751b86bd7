//! The HTTP side of a response, as the `http` crate represents it.

use crate::graphql::ResponseBody;
use http::StatusCode;
use vstd::prelude::*;

verus! {

/// An HTTP status code of the `http` crate.
#[verifier::external_type_specification]
#[verifier::external_body]
pub struct ExStatusCode(StatusCode);

/// An HTTP response of the `http` crate, with a body of type `T`.
#[verifier::external_type_specification]
#[verifier::external_body]
#[verifier::reject_recursive_types(T)]
pub struct ExHttpResponse<T>(http::Response<T>);

/// What `StatusCode::as_u16` returns for `status`: the code as a number.
pub uninterp spec fn status_code_number(status: StatusCode) -> u16;

/// What `Response::status` returns for `response`.
pub uninterp spec fn http_status(response: http::Response<ResponseBody>) -> StatusCode;

/// What `Response::body` returns for `response`.
pub uninterp spec fn http_body(response: http::Response<ResponseBody>) -> ResponseBody;

/// The number of the status `OK`.
pub const STATUS_OK: u16 = 200;

/// `StatusCode::OK`, the status with the number 200.
#[verifier::external_body]
pub(crate) fn status_ok() -> (status: StatusCode)
    ensures
        status_code_number(status) == STATUS_OK,
{
    StatusCode::OK
}

/// `Response::builder().status(..).body(..)`, with the error dropped. The
/// builder starts from an empty head, sets the status and attaches the body.
/// It fails only where an argument could not be converted; a `StatusCode` is
/// a status already, so with these arguments there always is a response.
#[verifier::external_body]
pub(crate) fn http_response(status: StatusCode, body: ResponseBody) -> (built: Option<
    http::Response<ResponseBody>,
>)
    ensures
        built is Some,
        built matches Some(response) ==> http_status(response) == status,
        built matches Some(response) ==> http_body(response) == body,
{
    http::Response::builder().status(status).body(body).ok()
}

} // verus!
