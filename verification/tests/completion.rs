use http::StatusCode;
use router_response::plugin_utils::RouterResponse as Draft;
use router_response::{
    Context, Error, Object, Path, PathElement, Request, ResponseBody, RouterResponse,
};
use serde_json_bytes::Value;
use std::sync::Arc;

fn entries(object: &Object) -> Vec<(String, Value)> {
    object
        .iter()
        .map(|(name, value)| (name.as_str().to_string(), value.clone()))
        .collect()
}

fn error(message: &str) -> Error {
    Error { message: message.to_string() }
}

fn assert_defaulted(body: &ResponseBody) {
    assert_eq!(body.label, None);
    assert_eq!(body.data, Value::default());
    assert_eq!(body.data, Value::Null);
    assert_eq!(body.path, None);
    assert_eq!(body.has_next, None);
    assert_eq!(body.extensions.len(), 0);
}

#[test]
fn draft_without_fields_becomes_ok_response_with_defaults() {
    let response: RouterResponse = Draft::builder().build().into();
    assert_eq!(response.response.status(), StatusCode::OK);
    assert_eq!(response.response.status().as_u16(), 200);
    let body = response.response.body();
    assert_defaulted(body);
    assert_eq!(body.errors, vec![]);
    assert_eq!(entries(&body.extensions), vec![]);
    assert_eq!(*response.context.request, Request::default());
}

#[test]
fn draft_with_errors_only_and_server_error_status() {
    let response = Draft::builder()
        .errors(vec![error("E1"), error("E2")])
        .build()
        .with_status(StatusCode::INTERNAL_SERVER_ERROR);
    assert_eq!(response.response.status(), StatusCode::INTERNAL_SERVER_ERROR);
    assert_eq!(response.response.status().as_u16(), 500);
    let body = response.response.body();
    assert_eq!(body.errors, vec![error("E1"), error("E2")]);
    assert_eq!(body.errors[0].message, "E1");
    assert_eq!(body.errors[1].message, "E2");
    assert_defaulted(body);
    assert_eq!(*response.context.request, Request::default());
}

#[test]
fn default_draft_is_the_draft_without_fields() {
    let response = RouterResponse::from(Draft::default());
    assert_eq!(response.response.status(), StatusCode::OK);
    let body = response.response.body();
    assert_defaulted(body);
    assert_eq!(body.errors, vec![]);
    assert_eq!(*response.context.request, Request::default());
}

#[test]
fn from_and_with_status_ok_agree() {
    let by_from = RouterResponse::from(
        Draft::builder().label("l".to_string()).errors(vec![error("e")]).build(),
    );
    let by_status = Draft::builder()
        .label("l".to_string())
        .errors(vec![error("e")])
        .build()
        .with_status(StatusCode::OK);
    assert_eq!(by_from.response.status(), by_status.response.status());
    assert_eq!(by_from.response.body(), by_status.response.body());
    assert_eq!(by_from.context, by_status.context);
}

#[test]
fn every_field_of_a_full_draft_is_kept() {
    let path = Path(vec![
        PathElement::Key("items".to_string()),
        PathElement::Index(3),
        PathElement::Flatten,
    ]);
    let request = Request { query: Some("{ me }".to_string()), operation_name: None };
    let context = Context::new().with_request(Arc::new(request.clone()));
    let response = Draft::builder()
        .label("part".to_string())
        .data(Value::from("payload"))
        .path(path.clone())
        .has_next(true)
        .errors(vec![error("first"), error("second"), error("third")])
        .extensions(vec![("cost", Value::from(7)), ("trace", Value::from("t"))])
        .context(context)
        .build()
        .with_status(StatusCode::ACCEPTED);
    assert_eq!(response.response.status().as_u16(), 202);
    let body = response.response.body();
    assert_eq!(body.label, Some("part".to_string()));
    assert_eq!(body.data, Value::String("payload".into()));
    assert_eq!(body.path, Some(path));
    assert_eq!(body.has_next, Some(true));
    assert_eq!(body.errors, vec![error("first"), error("second"), error("third")]);
    assert_eq!(
        entries(&body.extensions),
        vec![
            ("cost".to_string(), Value::from(7)),
            ("trace".to_string(), Value::from("t")),
        ]
    );
    assert_eq!(*response.context.request, request);
}

#[test]
fn data_left_out_is_null_whatever_else_is_set() {
    let response = Draft::builder()
        .label("l".to_string())
        .has_next(false)
        .errors(vec![error("e")])
        .extensions(vec![("k", Value::from(1))])
        .build()
        .with_status(StatusCode::OK);
    let body = response.response.body();
    assert!(body.data.is_null());
    assert_eq!(body.data, Value::Null);
    assert_eq!(body.data, Value::default());
}

#[test]
fn data_that_is_set_is_not_replaced() {
    let kept = [
        Value::Null,
        Value::from(false),
        Value::from(0),
        Value::from(""),
        Value::Array(vec![]),
        Value::Object(Object::new()),
    ];
    for value in kept {
        let response = Draft::builder().data(value.clone()).build().with_status(StatusCode::OK);
        assert_eq!(response.response.body().data, value);
    }
}

#[test]
fn extensions_left_out_are_an_empty_object() {
    let response = Draft::builder()
        .label("l".to_string())
        .data(Value::from(1))
        .errors(vec![error("e")])
        .build()
        .with_status(StatusCode::OK);
    let body = response.response.body();
    assert_eq!(body.extensions.len(), 0);
    assert!(body.extensions.is_empty());
    assert_eq!(entries(&body.extensions), vec![]);
}

#[test]
fn extensions_from_no_pairs_are_an_empty_object() {
    let response = Draft::builder().extensions(vec![]).build().with_status(StatusCode::OK);
    assert_eq!(entries(&response.response.body().extensions), vec![]);
}

#[test]
fn extensions_of_the_draft_follow_the_merge() {
    let response = Draft::builder()
        .extensions(vec![
            ("a", Value::from(1)),
            ("b", Value::from(2)),
            ("a", Value::from(3)),
        ])
        .build()
        .with_status(StatusCode::OK);
    assert_eq!(
        entries(&response.response.body().extensions),
        vec![("a".to_string(), Value::from(3)), ("b".to_string(), Value::from(2))]
    );
}

#[test]
fn optional_fields_left_out_stay_absent() {
    let response = Draft::builder()
        .data(Value::from(1))
        .extensions(vec![("k", Value::from(1))])
        .build()
        .with_status(StatusCode::OK);
    let body = response.response.body();
    assert_eq!(body.label, None);
    assert_eq!(body.path, None);
    assert_eq!(body.has_next, None);
    assert_eq!(body.errors, vec![]);
}

#[test]
fn status_is_the_one_given() {
    for number in [100u16, 200, 204, 301, 404, 418, 500, 503, 599, 600, 999] {
        let status = StatusCode::from_u16(number).unwrap();
        let response = Draft::builder().build().with_status(status);
        assert_eq!(response.response.status(), status);
        assert_eq!(response.response.status().as_u16(), number);
    }
}

#[test]
fn errors_keep_their_order_and_repetitions() {
    let errors = vec![error("b"), error("a"), error("b"), error(""), error("a")];
    let response = Draft::builder().errors(errors.clone()).build().with_status(StatusCode::OK);
    assert_eq!(response.response.body().errors, errors);
}

#[test]
fn same_draft_and_status_give_equal_responses() {
    let draft = || {
        Draft::builder()
            .label("again".to_string())
            .path(Path(vec![PathElement::Index(0)]))
            .errors(vec![error("e1"), error("e2")])
            .extensions(vec![("n", Value::from(1)), ("n", Value::from(2))])
            .build()
    };
    let first = draft().with_status(StatusCode::NOT_FOUND);
    let second = draft().with_status(StatusCode::NOT_FOUND);
    assert_eq!(first.response.status(), second.response.status());
    let (one, two) = (first.response.body(), second.response.body());
    assert_eq!(one.label, two.label);
    assert_eq!(one.data, two.data);
    assert_eq!(one.path, two.path);
    assert_eq!(one.has_next, two.has_next);
    assert_eq!(one.errors, two.errors);
    assert_eq!(entries(&one.extensions), entries(&two.extensions));
    assert_eq!(first.context, second.context);
}
