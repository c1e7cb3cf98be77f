use glimmer::reply::Reply;

fn fields(body: &str) -> (String, String) {
    let value: serde_json::Value = serde_json::from_str(body).expect("the body is JSON");
    let object = value.as_object().expect("the body is a JSON object");
    assert_eq!(object.len(), 2);
    (
        object["status"].as_str().expect("status is text").to_string(),
        object["response"].as_str().expect("response is text").to_string(),
    )
}

#[test]
fn reply_error_body_carries_message() {
    let r = Reply::error("Malformed location json");
    assert_eq!(r.status_code(), 200);
    assert!(r.is_json());
    assert_eq!(fields(&r.body()), ("error".to_string(), "Malformed location json".to_string()));
}

#[test]
fn reply_success_body_carries_response() {
    let r = Reply::success("12.345678|-98.765432".to_string());
    assert_eq!(r.status_code(), 200);
    assert_eq!(fields(&r.body()), ("ok".to_string(), "12.345678|-98.765432".to_string()));
}

#[test]
fn reply_body_escapes_quotes() {
    let r = Reply::error("say \"hi\"");
    let body = r.body();
    assert!(body.contains("\\\"hi\\\""));
    assert_eq!(fields(&body).1, "say \"hi\"");
}

#[test]
fn reply_internal_error_has_no_body() {
    let r = Reply::InternalServerError;
    assert_eq!(r.status_code(), 500);
    assert!(!r.is_json());
    assert_eq!(r.body(), "");
}

#[test]
fn reply_body_is_compact_object_in_key_order() {
    assert_eq!(
        Reply::success("1.000000|2.000000".to_string()).body(),
        "{\"response\":\"1.000000|2.000000\",\"status\":\"ok\"}"
    );
    assert_eq!(
        Reply::error("Invalid latitude coordinates").body(),
        "{\"response\":\"Invalid latitude coordinates\",\"status\":\"error\"}"
    );
}

#[test]
fn reply_body_escapes_as_serde_json() {
    let r = Reply::error("a\"b\\c\nd\u{1}\u{8}\u{c}\r\t\u{1f}\u{7f}é/");
    assert_eq!(
        r.body(),
        "{\"response\":\"a\\\"b\\\\c\\nd\\u0001\\b\\f\\r\\t\\u001f\u{7f}é/\",\"status\":\"error\"}"
    );
    assert_eq!(Reply::success(String::new()).body(), "{\"response\":\"\",\"status\":\"ok\"}");
}
