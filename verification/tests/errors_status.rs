use backend::errors::{AppError, ErrorKind};

#[test]
fn statuses_per_kind() {
    assert_eq!(AppError::Validation("v".into()).status_code(), 400);
    assert_eq!(AppError::Unauthorized("u".into()).status_code(), 401);
    assert_eq!(AppError::Forbidden("f".into()).status_code(), 403);
    assert_eq!(AppError::NotFound("n".into()).status_code(), 404);
    assert_eq!(AppError::Conflict("c".into()).status_code(), 409);
    assert_eq!(AppError::Internal("i".into()).status_code(), 500);
    assert_eq!(AppError::Argon2("a".into()).status_code(), 500);
    assert_eq!(AppError::Database("d".into()).status_code(), 500);
    assert_eq!(AppError::Cache("c".into()).status_code(), 500);
    assert_eq!(AppError::Token("t".into()).status_code(), 500);
}

#[test]
fn kind_and_message() {
    let e = AppError::Forbidden("nope".into());
    assert_eq!(e.kind(), ErrorKind::Forbidden);
    assert_eq!(e.message(), "nope");
}
