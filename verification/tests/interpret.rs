use interact_sms::response::{interpret_response, InteractError, TransportOutcome};

#[test]
fn success_with_readable_body_is_ok() {
    let r = interpret_response(TransportOutcome::Received {
        status: 200,
        body: Some("OK".to_string()),
    });
    let resp = r.unwrap();
    assert_eq!(resp.status, 200);
    assert_eq!(resp.response_body, "OK");
}

#[test]
fn failure_with_readable_body_carries_it() {
    let r = interpret_response(TransportOutcome::Received {
        status: 400,
        body: Some("{\"error\":\"bad number\"}".to_string()),
    });
    let err = r.unwrap_err();
    let InteractError::Error { ref message, ref data } = err;
    assert!(message.contains("400"));
    assert_eq!(message.as_str(), "API returned error 400");
    assert_eq!(*data, Some("{\"error\":\"bad number\"}".to_string()));
    assert_eq!(err.get_data(), Some("{\"error\":\"bad number\"}".to_string()));
}

#[test]
fn transport_failure_is_fatal_prefixed() {
    let r = interpret_response(TransportOutcome::Failed {
        reason: "connection refused".to_string(),
    });
    let err = r.unwrap_err();
    let InteractError::Error { ref message, ref data } = err;
    assert!(message.starts_with("Fatal Error: "));
    assert_eq!(message.as_str(), "Fatal Error: connection refused");
    assert_eq!(*data, None);
}

#[test]
fn unreadable_body_on_success_is_still_an_error() {
    let r = interpret_response(TransportOutcome::Received { status: 200, body: None });
    let err = r.unwrap_err();
    let InteractError::Error { ref message, ref data } = err;
    assert_eq!(message.as_str(), "API call successful, but unable to parse response body");
    assert_eq!(*data, None);
}

#[test]
fn unreadable_body_on_failure_has_its_own_message() {
    let r = interpret_response(TransportOutcome::Received { status: 500, body: None });
    let err = r.unwrap_err();
    let InteractError::Error { ref message, ref data } = err;
    assert_eq!(message.as_str(), "API call was unsuccessful, and unable to parse response body");
    assert_eq!(*data, None);
}

#[test]
fn success_range_is_exactly_2xx() {
    for status in [200u16, 204, 299] {
        let r = interpret_response(TransportOutcome::Received {
            status,
            body: Some("body".to_string()),
        });
        assert_eq!(r.unwrap().status, status);
    }
    for status in [100u16, 199, 300, 404, 503] {
        let r = interpret_response(TransportOutcome::Received {
            status,
            body: Some("body".to_string()),
        });
        let err = r.unwrap_err();
        let InteractError::Error { ref message, .. } = err;
        assert_eq!(message, &format!("API returned error {}", status));
    }
}

#[test]
fn message_text_appends_a_full_stop() {
    let err = InteractError::Error { message: "API returned error 400".to_string(), data: None };
    assert_eq!(err.message_text(), "API returned error 400.");
    assert_eq!(err.get_data(), None);
}
