use memproxy::json::{error_document, index_document, success_document};
use memproxy::response::{
    err_500, err_not_found, json_response, method_not_allowed, ok_binary, ok_json, ok_result,
    Body, Response, CODE_INTERNAL_SERVER_ERROR, CODE_NOT_FOUND, STATUS_INTERNAL_SERVER_ERROR,
    STATUS_METHOD_NOT_ALLOWED, STATUS_NOT_FOUND, STATUS_OK,
};

fn json_text(reply: &Response) -> String {
    match &reply.body {
        Body::Json(text) => text.clone(),
        other => panic!("no JSON body: {:?}", other),
    }
}

#[test]
fn constants_have_their_values() {
    assert_eq!(STATUS_OK, 200);
    assert_eq!(STATUS_NOT_FOUND, 404);
    assert_eq!(STATUS_METHOD_NOT_ALLOWED, 405);
    assert_eq!(STATUS_INTERNAL_SERVER_ERROR, 500);
    assert_eq!(CODE_NOT_FOUND, -404);
    assert_eq!(CODE_INTERNAL_SERVER_ERROR, -500);
}

#[test]
fn not_found_is_404_with_code_and_message() {
    let reply = err_not_found();
    assert_eq!(reply.status, 404);
    assert_eq!(reply.content_type(), Some("application/json"));
    assert_eq!(json_text(&reply), "{\"error\":{\"code\":-404,\"message\":\"not found\"}}");
}

#[test]
fn internal_error_is_500_with_code_and_message() {
    let reply = err_500();
    assert_eq!(reply.status, 500);
    assert_eq!(reply.content_type(), Some("application/json"));
    assert_eq!(
        json_text(&reply),
        "{\"error\":{\"code\":-500,\"message\":\"internal server error\"}}"
    );
}

#[test]
fn error_bodies_have_the_fixed_shape() {
    let not_found: serde_json::Value = serde_json::from_str(&json_text(&err_not_found())).unwrap();
    let error = not_found.get("error").unwrap();
    assert_eq!(not_found.as_object().unwrap().len(), 1);
    assert_eq!(error.as_object().unwrap().len(), 2);
    assert_eq!(error.get("code").unwrap().as_i64(), Some(-404));
    assert_eq!(error.get("message").unwrap().as_str(), Some("not found"));

    let failure: serde_json::Value = serde_json::from_str(&json_text(&err_500())).unwrap();
    let error = failure.get("error").unwrap();
    assert_eq!(error.get("code").unwrap().as_i64(), Some(-500));
    assert_eq!(error.get("message").unwrap().as_str(), Some("internal server error"));
}

#[test]
fn success_is_200_with_result_true() {
    let reply = ok_result();
    assert_eq!(reply.status, 200);
    assert_eq!(reply.content_type(), Some("application/json"));
    assert_eq!(json_text(&reply), "{\"result\":true}");
}

#[test]
fn binary_reply_hands_the_bytes_out_unchanged() {
    let value = vec![0u8, 255, 10, 13, 34, 92, 128];
    let reply = ok_binary(value.clone());
    assert_eq!(reply.status, 200);
    assert_eq!(reply.content_type(), Some("application/octet-stream"));
    assert_eq!(reply.body, Body::Binary(value));
}

#[test]
fn binary_reply_may_be_empty() {
    let reply = ok_binary(Vec::new());
    assert_eq!(reply.status, 200);
    assert_eq!(reply.body, Body::Binary(Vec::new()));
    assert_eq!(reply.content_type(), Some("application/octet-stream"));
}

#[test]
fn method_not_allowed_is_405_without_body() {
    let reply = method_not_allowed();
    assert_eq!(reply.status, 405);
    assert_eq!(reply.body, Body::Empty);
    assert_eq!(reply.content_type(), None);
}

#[test]
fn json_response_keeps_status_and_text() {
    let reply = json_response(418, "{\"tea\":true}".to_string());
    assert_eq!(reply, Response { status: 418, body: Body::Json("{\"tea\":true}".to_string()) });
    assert_eq!(reply.content_type(), Some("application/json"));
}

#[test]
fn ok_json_writes_the_value_compactly() {
    let mut object = serde_json::Map::new();
    object.insert("b".to_string(), serde_json::Value::from(2));
    object.insert("a".to_string(), serde_json::Value::from("x y"));
    let value = serde_json::Value::Object(object);
    let reply = ok_json(value.clone());
    assert_eq!(reply.status, 200);
    assert_eq!(json_text(&reply), value.to_string());
    assert_eq!(json_text(&reply), "{\"a\":\"x y\",\"b\":2}");
}

#[test]
fn success_document_is_result_true() {
    let mut object = serde_json::Map::new();
    object.insert("result".to_string(), serde_json::Value::Bool(true));
    assert_eq!(success_document(), serde_json::Value::Object(object));
}

#[test]
fn error_document_nests_code_and_message() {
    let mut detail = serde_json::Map::new();
    detail.insert("code".to_string(), serde_json::Value::from(-7));
    detail.insert("message".to_string(), serde_json::Value::from("seven"));
    let mut envelope = serde_json::Map::new();
    envelope.insert("error".to_string(), serde_json::Value::Object(detail));
    assert_eq!(error_document(-7, "seven"), serde_json::Value::Object(envelope));
    assert_eq!(
        error_document(-7, "seven").to_string(),
        "{\"error\":{\"code\":-7,\"message\":\"seven\"}}"
    );
}

#[test]
fn error_document_takes_the_whole_range_of_codes() {
    assert_eq!(
        error_document(i64::MIN, "").to_string(),
        "{\"error\":{\"code\":-9223372036854775808,\"message\":\"\"}}"
    );
    assert_eq!(
        error_document(i64::MAX, "m").to_string(),
        "{\"error\":{\"code\":9223372036854775807,\"message\":\"m\"}}"
    );
    assert_eq!(error_document(0, "m").to_string(), "{\"error\":{\"code\":0,\"message\":\"m\"}}");
}

#[test]
fn index_document_holds_name_and_version() {
    assert_eq!(
        index_document("memproxy", "0.1.0").to_string(),
        "{\"name\":\"memproxy\",\"version\":\"0.1.0\"}"
    );
}

#[test]
fn documents_escape_what_json_must_escape() {
    assert_eq!(
        index_document("a\"b", "1\\2\n").to_string(),
        "{\"name\":\"a\\\"b\",\"version\":\"1\\\\2\\n\"}"
    );
    let parsed: serde_json::Value =
        serde_json::from_str(&error_document(-1, "tab\there \u{e9}").to_string()).unwrap();
    assert_eq!(
        parsed.get("error").unwrap().get("message").unwrap().as_str(),
        Some("tab\there \u{e9}")
    );
}
