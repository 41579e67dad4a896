use interact_sms::message::sms_api;
use interact_sms::time::UtcTime;

fn ts(secs: i64) -> UtcTime {
    UtcTime::from_timestamp(secs).unwrap()
}

#[test]
fn payload_with_explicit_times() {
    let msg = sms_api("KEY".to_string())
        .message("hello".to_string())
        .set_originator("me".to_string())
        .add_recipient("123".to_string())
        .add_recipient("456".to_string())
        .send_at(ts(0))
        .expires(ts(1_000_000_000));
    let req = msg.prepare_at(ts(500));
    let expected = "{\"message_body\":\"hello\",\"from\":\"me\",\"send_at\":\"1970-01-01T00:00:00Z\",\"valid_until\":\"2001-09-09T01:46:40Z\",\"to\":[{\"phone\":[\"123\",\"456\"]}]}";
    assert_eq!(req.body, expected.as_bytes().to_vec());
    assert_eq!(req.url, "https://api.webexinteract.com/v1/sms");
}

#[test]
fn default_times_come_from_now() {
    let msg = sms_api("KEY".to_string()).message("hi".to_string());
    let req = msg.prepare_at(ts(1_700_000_000));
    let body = String::from_utf8(req.body).unwrap();
    assert!(body.contains("\"send_at\":\"2023-11-14T22:18:20Z\""));
    assert!(body.contains("\"valid_until\":\"2023-11-16T22:13:20Z\""));
}

#[test]
fn explicit_send_at_beats_default() {
    let msg = sms_api("KEY".to_string()).send_at(ts(0));
    let req = msg.prepare_at(ts(1_700_000_000));
    let body = String::from_utf8(req.body).unwrap();
    assert!(body.contains("\"send_at\":\"1970-01-01T00:00:00Z\""));
    assert!(body.contains("\"valid_until\":\"2023-11-16T22:13:20Z\""));
}

#[test]
fn empty_builder_still_dispatches() {
    let req = sms_api("KEY".to_string()).prepare_at(ts(0));
    let expected = "{\"message_body\":\"\",\"from\":\"\",\"send_at\":\"1970-01-01T00:05:00Z\",\"valid_until\":\"1970-01-03T00:00:00Z\",\"to\":[{\"phone\":[]}]}";
    assert_eq!(req.body, expected.as_bytes().to_vec());
}

#[test]
fn recipients_keep_call_order_and_duplicates() {
    let msg = sms_api("KEY".to_string())
        .add_recipient("7".to_string())
        .add_recipient("5".to_string())
        .add_recipient("7".to_string())
        .send_at(ts(0))
        .expires(ts(0));
    let req = msg.prepare_at(ts(0));
    let body = String::from_utf8(req.body).unwrap();
    assert!(body.contains("\"to\":[{\"phone\":[\"7\",\"5\",\"7\"]}]"));
}

#[test]
fn last_message_and_originator_win() {
    let msg = sms_api("KEY".to_string())
        .message("first".to_string())
        .set_originator("one".to_string())
        .message("second".to_string())
        .set_originator("two".to_string())
        .send_at(ts(0))
        .expires(ts(0));
    let req = msg.prepare_at(ts(0));
    let body = String::from_utf8(req.body).unwrap();
    assert!(body.contains("\"message_body\":\"second\""));
    assert!(body.contains("\"from\":\"two\""));
    assert!(!body.contains("first"));
    assert!(!body.contains("\"one\""));
}

#[test]
fn message_body_is_json_escaped() {
    let msg = sms_api("KEY".to_string())
        .message("a\"b\\c\nd\te\u{1}f\u{e9}".to_string())
        .send_at(ts(0))
        .expires(ts(0));
    let req = msg.prepare_at(ts(0));
    let body = String::from_utf8(req.body).unwrap();
    assert!(body.contains("\"message_body\":\"a\\\"b\\\\c\\nd\\te\\u0001f\u{e9}\""));
}

#[test]
fn headers_are_exactly_the_five() {
    let msg = sms_api("secret-key".to_string()).message("hello".to_string());
    let req = msg.prepare_at(ts(0));
    let headers = req.headers;
    assert_eq!(headers.len(), 5);
    assert_eq!(headers[0], ("accept".to_string(), "application/json".to_string()));
    assert_eq!(headers[1], ("Content-Type".to_string(), "application/json".to_string()));
    assert_eq!(headers[2], ("X-auth-key".to_string(), "secret-key".to_string()));
    assert_eq!(headers[3], ("Content-Length".to_string(), req.body.len().to_string()));
    assert_eq!(headers[4], ("User-Agent".to_string(), "Rust/interact.rs".to_string()));
}

#[test]
fn prepare_reads_the_clock_for_defaults() {
    let before = chrono::Utc::now().timestamp();
    let req = sms_api("KEY".to_string()).prepare();
    let after = chrono::Utc::now().timestamp();
    let body = String::from_utf8(req.body).unwrap();
    let start = body.find("\"send_at\":\"").unwrap() + "\"send_at\":\"".len();
    let rendered = &body[start..start + 20];
    let parsed = chrono::DateTime::parse_from_rfc3339(rendered).unwrap().timestamp();
    assert!(before + 300 <= parsed && parsed <= after + 300);
    let start = body.find("\"valid_until\":\"").unwrap() + "\"valid_until\":\"".len();
    let rendered = &body[start..start + 20];
    let parsed = chrono::DateTime::parse_from_rfc3339(rendered).unwrap().timestamp();
    assert!(before + 172800 <= parsed && parsed <= after + 172800);
}
