use sync_point::response::{ApiResponse, ResponseStatus, StatusClass};

#[test]
fn success_message_is_tagged_with_key() {
    let r = ApiResponse::success("Welcome! (first party)", "A");
    assert_eq!(r.status, ResponseStatus::Success);
    assert_eq!(r.message, "[A] Welcome! (first party)");
    assert_eq!(r.timeout_duration_sec, None);
}

#[test]
fn success_keeps_key_verbatim() {
    let r = ApiResponse::success("hi", "abcDef-456");
    assert_eq!(r.message, "[abcDef-456] hi");
    let empty = ApiResponse::success("hi", "");
    assert_eq!(empty.message, "[] hi");
}

#[test]
fn timeout_carries_duration() {
    let r = ApiResponse::timeout(1, "A");
    assert_eq!(r.status, ResponseStatus::Timeout);
    assert_eq!(r.message, "[A] Request timed out");
    assert_eq!(r.timeout_duration_sec, Some(1));
    let r = ApiResponse::timeout(300, "123");
    assert_eq!(r.message, "[123] Request timed out");
    assert_eq!(r.timeout_duration_sec, Some(300));
}

#[test]
fn error_keeps_message() {
    let r = ApiResponse::error("Only 2 parties allowed at a time");
    assert_eq!(r.status, ResponseStatus::Error);
    assert_eq!(r.message, "Only 2 parties allowed at a time");
    assert_eq!(r.timeout_duration_sec, None);
}

#[test]
fn service_unavailable_reply() {
    let r = ApiResponse::service_unavailable();
    assert_eq!(r.status, StatusClass::ServiceUnavailable);
    assert_eq!(r.status.code(), 503);
    assert_eq!(r.body.status, ResponseStatus::Error);
    assert_eq!(r.body.message, "Service temporarily unavailable");
    assert_eq!(r.body.timeout_duration_sec, None);
}

#[test]
fn status_codes() {
    assert_eq!(StatusClass::Success.code(), 200);
    assert_eq!(StatusClass::RequestTimeout.code(), 408);
    assert_eq!(StatusClass::Conflict.code(), 409);
    assert_eq!(StatusClass::ServiceUnavailable.code(), 503);
}
