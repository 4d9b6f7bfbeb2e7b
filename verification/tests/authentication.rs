use backend::errors::AppError;
use backend::auth::{bearer_token, blacklist_probe, invalid_token, accept_unless_logged_out, require_admin, AdminUser, AuthUser};
use backend::jwt::Claims;

fn claims(token_type: &str, role: &str) -> Claims {
    Claims {
        sub: "550e8400-e29b-41d4-a716-446655440000".into(),
        email: "a@b.c".into(),
        role: role.into(),
        jti: "jti-1".into(),
        exp: 2000,
        iat: 1000,
        token_type: token_type.into(),
    }
}

#[test]
fn missing_header_is_refused() {
    assert_eq!(
        bearer_token(None),
        Err(AppError::Unauthorized("Authorization header tidak ada".into()))
    );
}

#[test]
fn non_bearer_header_is_refused() {
    assert_eq!(
        bearer_token(Some("Basic abc")),
        Err(AppError::Unauthorized("Format token salah, gunakan Bearer".into()))
    );
    assert_eq!(
        bearer_token(Some("bearer abc")),
        Err(AppError::Unauthorized("Format token salah, gunakan Bearer".into()))
    );
    assert_eq!(
        bearer_token(Some("Bearer")),
        Err(AppError::Unauthorized("Format token salah, gunakan Bearer".into()))
    );
}

#[test]
fn bearer_token_is_extracted() {
    assert_eq!(bearer_token(Some("Bearer abc.def.ghi")), Ok("abc.def.ghi".to_string()));
    assert_eq!(bearer_token(Some("Bearer ")), Ok(String::new()));
}

#[test]
fn invalid_token_message() {
    assert_eq!(
        invalid_token("ExpiredSignature"),
        AppError::Unauthorized("Token tidak valid: ExpiredSignature".into())
    );
}

#[test]
fn access_token_probes_its_blacklist_key() {
    assert_eq!(blacklist_probe(&claims("access", "user")), Ok("blacklist:jti-1".to_string()));
}

#[test]
fn refresh_token_is_not_an_access_token() {
    assert_eq!(
        blacklist_probe(&claims("refresh", "user")),
        Err(AppError::Unauthorized("Bukan access token".into()))
    );
}

#[test]
fn logged_out_token_is_refused() {
    assert_eq!(
        accept_unless_logged_out(claims("access", "user"), true),
        Err(AppError::Unauthorized("Token sudah di-logout".into()))
    );
    assert_eq!(accept_unless_logged_out(claims("access", "user"), false), Ok(AuthUser(claims("access", "user"))));
}

#[test]
fn only_admins_pass_admin_check() {
    assert_eq!(
        require_admin(AuthUser(claims("access", "user"))),
        Err(AppError::Forbidden("Hanya admin yang bisa mengakses ini".into()))
    );
    assert_eq!(
        require_admin(AuthUser(claims("access", "moderator"))),
        Err(AppError::Forbidden("Hanya admin yang bisa mengakses ini".into()))
    );
    assert_eq!(
        require_admin(AuthUser(claims("access", "admin"))),
        Ok(AdminUser(claims("access", "admin")))
    );
}
