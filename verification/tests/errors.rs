use chat_core::errors::ServiceError;

#[test]
fn new_keeps_message_and_status() {
    let e = ServiceError::new("boom", 418);
    assert_eq!(e.message, "boom");
    assert_eq!(e.status_code, 418);
}

#[test]
fn bad_request_is_400() {
    let e = ServiceError::bad_request("no");
    assert_eq!(e.message, "no");
    assert_eq!(e.status_code, 400);
}

#[test]
fn not_found_is_404() {
    let e = ServiceError::not_found("gone");
    assert_eq!(e.message, "gone");
    assert_eq!(e.status_code, 404);
}

#[test]
fn internal_error_is_500() {
    let e = ServiceError::internal_error("oops");
    assert_eq!(e.message, "oops");
    assert_eq!(e.status_code, 500);
    assert_eq!(e.to_text(), "oops");
}
