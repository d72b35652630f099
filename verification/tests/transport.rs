use cloudiful_docling_convert::json::{JsonMember, JsonValue};
use cloudiful_docling_convert::transport::{
    collect_error_details, extract_error_details, response_error, unreadable_body_error,
    DetailValue,
};

#[test]
fn extracts_nested_and_document_errors() {
    let details = extract_error_details(
        r#"{"failure":{"message":"failed"},"error_message":"outer","errors":[{"error_message":"page failed"}],"detail":"bad request"}"#,
    );
    assert!(details.contains("failure.message: failed"));
    assert!(details.contains("document error: page failed"));
    assert!(details.contains("detail: bad request"));
}

#[test]
fn details_keep_their_order_and_json_values() {
    let details = extract_error_details(
        r#"{"detail":[{"loc":["body","files"],"msg":"field required"}],"message":"m","errors":[{"code":7}]}"#,
    );
    assert_eq!(
        details,
        r#"message: m, detail: [{"loc":["body","files"],"msg":"field required"}], document error: {"code":7}"#
    );
    assert_eq!(extract_error_details("plain text"), "plain text");
    assert_eq!(extract_error_details("[1,2]"), "[1,2]");
}

#[test]
fn error_responses_preserve_fastapi_details() {
    let body = r#"{"detail":[{"loc":["body","files"],"msg":"field required"}]}"#;
    let details = extract_error_details(body);
    let error = response_error("Converting file", 422, body, &details);
    let message = error.display();
    assert!(message.contains("HTTP 422"));
    assert!(message.contains("field required"));
    assert!(message.contains(body));
    assert!(message.contains(
        "Converting file failed: 422 Unprocessable Entity Unprocessable Entity; detail: "
    ));
    assert_eq!(error.status_code(), Some(422));
}

#[test]
fn blank_and_plain_bodies() {
    assert_eq!(
        response_error("Polling task status", 503, "  ", "  ").display(),
        "HTTP 503: Polling task status failed: 503 Service Unavailable Service Unavailable"
    );
    assert_eq!(
        response_error("Polling task status", 500, "oops", "oops").display(),
        "HTTP 500: Polling task status failed: 500 Internal Server Error Internal Server Error; response body: oops"
    );
    assert_eq!(
        response_error("Fetching", 599, "x", "x").display(),
        "HTTP 599: Fetching failed: 599 <unknown status code> Unknown; response body: x"
    );
    assert_eq!(
        unreadable_body_error("Fetching", 404, "eof").display(),
        "HTTP 404: Fetching failed: 404 Not Found Not Found; failed to read response body: eof"
    );
}

#[test]
fn bodies_without_details_are_written_back_as_compact_json() {
    assert_eq!(extract_error_details("[1, 2]"), "[1,2]");
    assert_eq!(extract_error_details("{ \"a\" : 1 }"), r#"{"a":1}"#);
    assert_eq!(extract_error_details("{\"detail\": 1.5}"), "detail: 1.5");
    assert_eq!(extract_error_details("not json {"), "not json {");
}

#[test]
fn collected_details_keep_strings_as_text() {
    let body = JsonValue::Object(vec![
        JsonMember {
            key: "error".to_string(),
            value: JsonValue::Str("bad".to_string()),
        },
        JsonMember {
            key: "detail".to_string(),
            value: JsonValue::Array(vec![JsonValue::Number("3".to_string())]),
        },
    ]);
    let details = collect_error_details(&body);
    assert_eq!(details.len(), 2);
    assert_eq!(details[0].label, "error");
    assert!(matches!(&details[0].value, DetailValue::Text(t) if t == "bad"));
    assert_eq!(details[1].label, "detail");
    assert!(matches!(&details[1].value, DetailValue::Json(JsonValue::Array(items)) if items.len() == 1));
    assert!(collect_error_details(&JsonValue::Null).is_empty());
}
