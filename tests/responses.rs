use ideno::error::{AppError, AppSuccess};
use ideno::text::decimal_text;

#[test]
fn error_status_codes() {
    assert_eq!(AppError::StateNotFound.status_code(), 401);
    assert_eq!(AppError::InternalError.status_code(), 500);
    assert_eq!(AppError::UserNotFound.status_code(), 404);
    assert_eq!(AppError::NotLoggedIn.status_code(), 401);
    assert_eq!(AppError::BadRequest { error: None }.status_code(), 400);
    assert_eq!(AppError::Forbidden { error: None }.status_code(), 403);
    assert_eq!(AppError::NotAllowed { error: "no".to_string() }.status_code(), 403);
    assert_eq!(AppError::DataConflict { error: "dup".to_string() }.status_code(), 409);
    assert_eq!(AppError::NotFound { error: "gone".to_string() }.status_code(), 404);
}

#[test]
fn error_bodies() {
    assert_eq!(AppError::StateNotFound.body(), "");
    assert_eq!(AppError::InternalError.body(), "Internal server error");
    assert_eq!(AppError::UserNotFound.body(), "User not found");
    assert_eq!(AppError::NotLoggedIn.body(), "Not logged in");
    assert_eq!(AppError::BadRequest { error: None }.body(), "");
    assert_eq!(AppError::BadRequest { error: Some("bad".to_string()) }.body(), "bad");
    assert_eq!(AppError::Forbidden { error: Some("Invalid credentials".to_string()) }.body(), "Invalid credentials");
    assert_eq!(AppError::NotAllowed { error: "no".to_string() }.body(), "no");
    assert_eq!(AppError::DataConflict { error: "dup".to_string() }.body(), "dup");
    assert_eq!(AppError::NotFound { error: "gone".to_string() }.body(), "gone");
}

#[test]
fn success_status_codes() {
    assert_eq!(AppSuccess::OK { data: None }.status_code(), 200);
    assert_eq!(AppSuccess::CREATED { id: Some(4) }.status_code(), 201);
    assert_eq!(AppSuccess::DELETED.status_code(), 202);
    assert_eq!(AppSuccess::UPDATED.status_code(), 202);
}

#[test]
fn success_bodies() {
    assert_eq!(AppSuccess::OK { data: None }.body(), "");
    assert_eq!(AppSuccess::OK { data: Some("{\"id\":1}".to_string()) }.body(), "{\"id\":1}");
    assert_eq!(AppSuccess::CREATED { id: None }.body(), "");
    assert_eq!(AppSuccess::CREATED { id: Some(0) }.body(), "0");
    assert_eq!(AppSuccess::CREATED { id: Some(7) }.body(), "7");
    assert_eq!(AppSuccess::CREATED { id: Some(1234567890) }.body(), "1234567890");
    assert_eq!(AppSuccess::DELETED.body(), "");
    assert_eq!(AppSuccess::UPDATED.body(), "");
}

#[test]
fn decimal_text_extremes() {
    assert_eq!(decimal_text(10), "10");
    assert_eq!(decimal_text(-45), "-45");
    assert_eq!(decimal_text(i64::MAX), i64::MAX.to_string());
    assert_eq!(decimal_text(i64::MIN), i64::MIN.to_string());
}
