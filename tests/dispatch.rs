use fitbit_sdk::client::{
    accept_response, assemble_client, decode_body, is_success, json_failure_message,
    settle_decoding, settle_exchange, Exchange,
    FitbitClient,
};
use fitbit_sdk::types::sleep::SleepError;
use fitbit_sdk::types::user::UserError;

fn received(status: u16, body: &str) -> Exchange {
    Exchange::Received { status, body: body.to_string() }
}

#[test]
fn success_range() {
    assert!(!is_success(199));
    assert!(is_success(200));
    assert!(is_success(204));
    assert!(is_success(299));
    assert!(!is_success(300));
    assert!(!is_success(404));
}

#[test]
fn error_status_passes_body_through() {
    match accept_response::<UserError>(received(429, "quota exceeded")) {
        Err(UserError::ApiError(m)) => assert_eq!(m, "quota exceeded"),
        other => panic!("unexpected {:?}", other),
    }
    match settle_exchange::<serde_json::Value, SleepError>(received(500, "quota exceeded")) {
        Err(SleepError::ApiError(m)) => assert_eq!(m, "quota exceeded"),
        other => panic!("unexpected {:?}", other),
    }
}

#[test]
fn success_keeps_body() {
    match accept_response::<UserError>(received(200, "{\"a\":1}")) {
        Ok(b) => assert_eq!(b, "{\"a\":1}"),
        other => panic!("unexpected {:?}", other),
    }
}

#[test]
fn send_failure_carries_description() {
    match accept_response::<UserError>(Exchange::SendFailed("connection refused".to_string())) {
        Err(UserError::ApiError(m)) => assert_eq!(m, "connection refused"),
        other => panic!("unexpected {:?}", other),
    }
}

#[test]
fn unreadable_body_has_prefix() {
    match accept_response::<UserError>(Exchange::BodyUnreadable("reset".to_string())) {
        Err(UserError::ApiError(m)) => assert_eq!(m, "Failed to get response body: reset"),
        other => panic!("unexpected {:?}", other),
    }
}

#[test]
fn success_with_json_decodes_envelope() {
    let r = settle_exchange::<serde_json::Value, SleepError>(received(
        200,
        "{\"goal\":{\"goal\":480}}",
    ));
    let v = r.unwrap();
    assert_eq!(v["goal"]["goal"].as_i64(), Some(480));
}

#[test]
fn success_with_typed_payload() {
    let r = settle_exchange::<Vec<i32>, SleepError>(received(201, "[1,2,3]"));
    assert_eq!(r.unwrap(), vec![1, 2, 3]);
}

#[test]
fn success_with_bad_json_reports_parser_and_body() {
    match settle_exchange::<serde_json::Value, SleepError>(received(200, "not json")) {
        Err(SleepError::ApiError(m)) => {
            assert!(m.starts_with("JSON parsing error: "));
            assert!(m.ends_with(". Response body: not json"));
            assert!(m.len() > "JSON parsing error: . Response body: not json".len());
        }
        other => panic!("unexpected {:?}", other),
    }
    match decode_body::<Vec<i32>, UserError>("{}".to_string()) {
        Err(UserError::ApiError(m)) => {
            assert!(m.starts_with("JSON parsing error: "));
            assert!(m.ends_with(". Response body: {}"));
        }
        other => panic!("unexpected {:?}", other),
    }
}

#[test]
fn json_failure_message_layout() {
    assert_eq!(
        json_failure_message("expected value at line 1 column 1", "oops"),
        "JSON parsing error: expected value at line 1 column 1. Response body: oops"
    );
}

#[test]
fn url_and_authorization() {
    let client = FitbitClient::builder()
        .with_access_token("tok123")
        .with_api_base_url("http://localhost:8080/1")
        .with_http_client(reqwest::Client::new())
        .build::<UserError>(None)
        .unwrap();
    assert_eq!(client.request_url("/user/-/profile.json"), "http://localhost:8080/1/user/-/profile.json");
    assert_eq!(client.request_url(""), "http://localhost:8080/1");
    assert_eq!(client.authorization(), "Bearer tok123");
}

#[test]
fn settle_decoding_outcomes() {
    assert_eq!(settle_decoding::<i32, UserError>(Ok(7), "7").unwrap(), 7);
    match settle_decoding::<i32, UserError>(Err("bad".to_string()), "oops") {
        Err(UserError::ApiError(m)) => assert_eq!(m, "JSON parsing error: bad. Response body: oops"),
        other => panic!("unexpected {:?}", other),
    }
}

#[test]
fn assemble_client_outcomes() {
    let c = assemble_client::<UserError>(
        "tok".to_string(),
        "http://h/1".to_string(),
        Ok(reqwest::Client::new()),
    )
    .unwrap();
    assert_eq!(c.get_access_token(), "tok");
    assert_eq!(c.get_api_base_url(), "http://h/1");
    match assemble_client::<UserError>("tok".to_string(), "u".to_string(), Err("no tls".to_string())) {
        Err(UserError::ApiError(m)) => assert_eq!(m, "no tls"),
        Ok(_) => panic!("unexpected client"),
        Err(other) => panic!("unexpected {:?}", other),
    }
}
