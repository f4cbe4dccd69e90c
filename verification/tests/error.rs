use nullith::error::{bad_request, internal, not_found, unauthorized, AppError, AppResult};
use nullith::response::{error_response, ErrorResponse};

#[test]
fn test_error_not_found() {
    let err = not_found("item not found");
    match err {
        AppError::NotFound(msg) => assert_eq!(msg, "item not found"),
        _ => panic!("Expected NotFound error"),
    }
}

#[test]
fn test_error_bad_request() {
    let err = bad_request("invalid input");
    match err {
        AppError::BadRequest(msg) => assert_eq!(msg, "invalid input"),
        _ => panic!("Expected BadRequest error"),
    }
}

#[test]
fn test_error_unauthorized() {
    let err = unauthorized("invalid token");
    match err {
        AppError::Unauthorized(msg) => assert_eq!(msg, "invalid token"),
        _ => panic!("Expected Unauthorized error"),
    }
}

#[test]
fn test_result_handling() {
    let result: AppResult<i32> = Ok(42);
    assert!(result.is_ok());

    let err_result: AppResult<i32> = Err(not_found("test"));
    assert!(err_result.is_err());
}

#[test]
fn internal_constructor_keeps_message() {
    match internal("db down") {
        AppError::Internal(msg) => assert_eq!(msg, "db down"),
        _ => panic!("Expected Internal error"),
    }
}

#[test]
fn display_text_prefixes_kind() {
    assert_eq!(not_found("x").display_text(), "Not found: x");
    assert_eq!(bad_request("y").display_text(), "Bad request: y");
    assert_eq!(internal("z").display_text(), "Internal error: z");
    assert_eq!(unauthorized("w").display_text(), "Unauthorized: w");
}

#[test]
fn error_response_constructors() {
    let r = ErrorResponse::new(418, "TEAPOT", "short and stout");
    assert_eq!((r.code, r.error.as_str(), r.message.as_str()), (418, "TEAPOT", "short and stout"));
    let r = ErrorResponse::not_found("file");
    assert_eq!((r.code, r.error.as_str(), r.message.as_str()), (404, "NOT_FOUND", "file not found"));
    let r = ErrorResponse::bad_request("no body");
    assert_eq!((r.code, r.error.as_str(), r.message.as_str()), (400, "BAD_REQUEST", "no body"));
    let r = ErrorResponse::unauthorized("no key");
    assert_eq!((r.code, r.error.as_str(), r.message.as_str()), (401, "UNAUTHORIZED", "no key"));
    let r = ErrorResponse::internal("oops");
    assert_eq!((r.code, r.error.as_str(), r.message.as_str()), (500, "INTERNAL_ERROR", "oops"));
}

#[test]
fn error_response_per_variant() {
    let r = error_response(not_found("note"));
    assert_eq!((r.code, r.error.as_str(), r.message.as_str()), (404, "NOT_FOUND", "note not found"));
    let r = error_response(bad_request("bad json"));
    assert_eq!((r.code, r.error.as_str(), r.message.as_str()), (400, "BAD_REQUEST", "bad json"));
    let r = error_response(unauthorized("Missing API key"));
    assert_eq!((r.code, r.error.as_str(), r.message.as_str()), (401, "UNAUTHORIZED", "Missing API key"));
    let r = error_response(internal("secret stack trace"));
    assert_eq!((r.code, r.error.as_str(), r.message.as_str()), (500, "INTERNAL_ERROR", "An error occurred"));
}

#[test]
fn internal_detail_is_hidden() {
    let a = error_response(internal("password=hunter2"));
    let b = error_response(internal("another detail"));
    assert_eq!(a.message, b.message);
    assert!(!a.message.contains("hunter2"));
}

#[test]
fn code_matches_label() {
    let all = vec![
        error_response(not_found("a")),
        error_response(bad_request("b")),
        error_response(unauthorized("c")),
        error_response(internal("d")),
        error_response(not_found("e")),
    ];
    for x in &all {
        for y in &all {
            assert_eq!(x.code == y.code, x.error == y.error);
        }
    }
}
