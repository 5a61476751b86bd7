use http::StatusCode;
use router_response::plugin_utils::{RouterResponse as Draft, RouterResponseBuilder};
use router_response::{Context, Error, Object, Path, PathElement, Request, ResponseBody};
use serde_json_bytes::Value;
use std::sync::Arc;

fn entries(object: &Object) -> Vec<(String, Value)> {
    object
        .iter()
        .map(|(name, value)| (name.as_str().to_string(), value.clone()))
        .collect()
}

fn body_of(builder: RouterResponseBuilder) -> ResponseBody {
    builder.build().with_status(StatusCode::OK).response.into_body()
}

fn error(message: &str) -> Error {
    Error { message: message.to_string() }
}

#[test]
fn later_label_replaces_earlier() {
    let body = body_of(Draft::builder().label("first".to_string()).label("second".to_string()));
    assert_eq!(body.label, Some("second".to_string()));
}

#[test]
fn later_data_replace_earlier() {
    let body = body_of(Draft::builder().data(Value::from(1)).data(Value::from("two")));
    assert_eq!(body.data, Value::from("two"));
}

#[test]
fn later_path_replaces_earlier() {
    let first = Path(vec![PathElement::Key("a".to_string()), PathElement::Index(1)]);
    let second = Path(vec![PathElement::Flatten]);
    let body = body_of(Draft::builder().path(first).path(second.clone()));
    assert_eq!(body.path, Some(second));
}

#[test]
fn later_flag_replaces_earlier() {
    let body = body_of(Draft::builder().has_next(true).has_next(false));
    assert_eq!(body.has_next, Some(false));
    let body = body_of(Draft::builder().has_next(false).has_next(true));
    assert_eq!(body.has_next, Some(true));
}

#[test]
fn later_errors_replace_earlier() {
    let body = body_of(
        Draft::builder().errors(vec![error("a"), error("b")]).errors(vec![error("c")]),
    );
    assert_eq!(body.errors, vec![error("c")]);
    let body = body_of(Draft::builder().errors(vec![error("a")]).errors(vec![]));
    assert_eq!(body.errors, vec![]);
}

#[test]
fn later_extensions_replace_earlier_without_merging() {
    let body = body_of(
        Draft::builder()
            .extensions(vec![("a", Value::from(1)), ("b", Value::from(2))])
            .extensions(vec![("b", Value::from(3)), ("c", Value::from(4))]),
    );
    assert_eq!(
        entries(&body.extensions),
        vec![("b".to_string(), Value::from(3)), ("c".to_string(), Value::from(4))]
    );
    let body = body_of(
        Draft::builder().extensions(vec![("a", Value::from(1))]).extensions(vec![]),
    );
    assert_eq!(entries(&body.extensions), vec![]);
}

#[test]
fn later_context_replaces_earlier() {
    let first = Arc::new(Request { query: Some("first".to_string()), operation_name: None });
    let second = Arc::new(Request { query: Some("second".to_string()), operation_name: None });
    let response = Draft::builder()
        .context(Context::new().with_request(first.clone()))
        .context(Context::new().with_request(second.clone()))
        .build()
        .with_status(StatusCode::OK);
    assert!(Arc::ptr_eq(&response.context.request, &second));
    assert!(!Arc::ptr_eq(&response.context.request, &first));
}

#[test]
fn setting_one_field_leaves_the_others() {
    let body = body_of(Draft::builder().label("only".to_string()));
    assert_eq!(body.label, Some("only".to_string()));
    assert_eq!(body.data, Value::Null);
    assert_eq!(body.path, None);
    assert_eq!(body.has_next, None);
    assert_eq!(body.errors, vec![]);
    assert_eq!(body.extensions.len(), 0);

    let body = body_of(Draft::builder().has_next(true));
    assert_eq!(body.label, None);
    assert_eq!(body.has_next, Some(true));
}

#[test]
fn order_of_setting_different_fields_does_not_matter() {
    let one = body_of(
        Draft::builder()
            .label("l".to_string())
            .data(Value::from(1))
            .has_next(true)
            .errors(vec![error("e")]),
    );
    let other = body_of(
        Draft::builder()
            .errors(vec![error("e")])
            .has_next(true)
            .data(Value::from(1))
            .label("l".to_string()),
    );
    assert_eq!(one, other);
}

#[test]
fn setting_again_after_other_fields_still_replaces() {
    let body = body_of(
        Draft::builder()
            .label("first".to_string())
            .data(Value::from(1))
            .errors(vec![error("e")])
            .label("second".to_string()),
    );
    assert_eq!(body.label, Some("second".to_string()));
    assert_eq!(body.data, Value::from(1));
    assert_eq!(body.errors, vec![error("e")]);
}

#[test]
fn builder_without_calls_builds_the_default_draft() {
    let built = body_of(Draft::builder());
    let default = Draft::default().with_status(StatusCode::OK).response.into_body();
    assert_eq!(built, default);
    assert_eq!(built.errors, vec![]);
}
