use backend::errors::AppError;
use backend::jwt::{build_claims, Claims, TokenKind};
use backend::models::User;
use backend::passwords::{hash_new_password, password_matches};
use backend::requests::RegisterRequest;
use backend::users::new_account;
use backend::sessions::{
    authenticate, email_available, logged_out, login_session, logout_plan, logout_plan_at,
    refresh_session_key, refresh_subject, registered, CacheWrite,
};

const ID: u128 = 0x550e8400_e29b_41d4_a716_446655440000;

fn user_with_hash(hash: &str) -> User {
    User {
        id: ID,
        email: "bagas@example.com".into(),
        name: "Bagas".into(),
        password_hash: hash.into(),
        role: "user".into(),
        is_active: true,
        created_at: 1,
        updated_at: 2,
    }
}

#[test]
fn taken_email_conflicts() {
    assert_eq!(email_available(true), Err(AppError::Conflict("Email sudah terdaftar".into())));
    assert_eq!(email_available(false), Ok(()));
}

#[test]
fn registration_reply() {
    let r = registered(user_with_hash("h"));
    assert!(r.success);
    assert_eq!(r.message.as_deref(), Some("Registrasi berhasil"));
    assert_eq!(r.user.email, "bagas@example.com");
}

#[test]
fn hashed_password_verifies() {
    let hash = hash_new_password("password123").unwrap();
    assert!(hash.starts_with("$argon2"));
    assert_eq!(password_matches("password123", &hash), Ok(true));
    assert_eq!(password_matches("password124", &hash), Ok(false));
}

#[test]
fn login_accepts_right_password_only() {
    let hash = hash_new_password("password123").unwrap();
    let user = user_with_hash(&hash);
    assert_eq!(authenticate("password123", Some(user.clone())), Ok(user.clone()));
    assert_eq!(
        authenticate("wrong", Some(user)),
        Err(AppError::Unauthorized("Email atau password salah".into()))
    );
    assert_eq!(
        authenticate("password123", None),
        Err(AppError::Unauthorized("Email atau password salah".into()))
    );
}

#[test]
fn unparsable_stored_hash_is_an_argon2_error() {
    match authenticate("password123", Some(user_with_hash("not-a-phc-string"))) {
        Err(AppError::Argon2(msg)) => assert!(!msg.is_empty()),
        other => panic!("unexpected {:?}", other),
    }
}

#[test]
fn login_records_refresh_jti() {
    let w = login_session(ID, "jti-9", 604800);
    assert_eq!(
        w,
        CacheWrite {
            key: "refresh_token:550e8400-e29b-41d4-a716-446655440000".into(),
            value: "jti-9".into(),
            ttl_seconds: 604800,
        }
    );
}

fn refresh_claims() -> Claims {
    build_claims(ID, "bagas@example.com", "user", "jti-9", 100, 1000, TokenKind::Refresh)
}

#[test]
fn refresh_key_for_refresh_token() {
    assert_eq!(
        refresh_session_key(&Ok(refresh_claims())),
        Ok("refresh_token:550e8400-e29b-41d4-a716-446655440000".to_string())
    );
}

#[test]
fn refresh_rejects_bad_tokens() {
    assert_eq!(
        refresh_session_key(&Err(AppError::Unauthorized("Token tidak valid: x".into()))),
        Err(AppError::Unauthorized("Refresh token tidak valid atau expired".into()))
    );
    let access = build_claims(ID, "e", "user", "j", 0, 10, TokenKind::Access);
    assert_eq!(
        refresh_session_key(&Ok(access)),
        Err(AppError::Unauthorized("Bukan refresh token".into()))
    );
}

#[test]
fn login_then_refresh_round_trip() {
    let c = refresh_claims();
    let w = login_session(ID, &c.jti, 1000);
    assert_eq!(refresh_session_key(&Ok(c.clone())), Ok(w.key.clone()));
    assert_eq!(refresh_subject(&c, Some(&w.value)), Ok(ID));
}

#[test]
fn superseded_or_missing_session_is_refused() {
    let c = refresh_claims();
    assert_eq!(
        refresh_subject(&c, Some("another")),
        Err(AppError::Unauthorized("Refresh token sudah tidak valid".into()))
    );
    assert_eq!(
        refresh_subject(&c, None),
        Err(AppError::Unauthorized("Refresh token sudah tidak valid".into()))
    );
}

#[test]
fn non_uuid_subject_is_internal_error() {
    let mut c = refresh_claims();
    c.sub = "not-a-uuid".into();
    assert_eq!(refresh_subject(&c, Some("jti-9")), Err(AppError::Internal("ID tidak valid".into())));
}

#[test]
fn uppercase_subject_is_accepted() {
    let mut c = refresh_claims();
    c.sub = "550E8400-E29B-41D4-A716-446655440000".into();
    assert_eq!(refresh_subject(&c, Some("jti-9")), Ok(ID));
}

#[test]
fn logout_blacklists_for_remaining_life() {
    let c = build_claims(ID, "e", "user", "jti-1", 1000, 900, TokenKind::Access);
    let p = logout_plan_at(&c, 1500);
    assert_eq!(p.logged_out_at, 1500);
    assert_eq!(
        p.blacklist,
        Some(CacheWrite { key: "blacklist:jti-1".into(), value: "1".into(), ttl_seconds: 400 })
    );
    assert_eq!(p.refresh_key, "refresh_token:550e8400-e29b-41d4-a716-446655440000");
}

#[test]
fn logout_of_expired_token_only_drops_session() {
    let c = build_claims(ID, "e", "user", "jti-1", 1000, 900, TokenKind::Access);
    assert_eq!(logout_plan_at(&c, 1900).blacklist, None);
    assert_eq!(logout_plan_at(&c, 5000).blacklist, None);
}

#[test]
fn logout_now() {
    let c = build_claims(ID, "e", "user", "jti-1", 0, 1, TokenKind::Access);
    let p = logout_plan(&c).unwrap();
    assert_eq!(p.blacklist, None);
    assert!(p.logged_out_at > 1_600_000_000);
    let far = build_claims(ID, "e", "user", "jti-2", 0, i64::MAX, TokenKind::Access);
    let q = logout_plan(&far).unwrap();
    assert_eq!(q.blacklist.unwrap().key, "blacklist:jti-2");
    let reply = logged_out();
    assert!(reply.success);
    assert_eq!(reply.message, "Logout berhasil");
}

#[test]
fn logout_with_unrepresentable_lifetime() {
    let c = build_claims(ID, "e", "user", "jti-1", i64::MIN + 10, 0, TokenKind::Access);
    assert!(logout_plan(&c).is_none());
}

#[test]
fn expired_tokens_in_clock_range_always_plan() {
    let c = build_claims(ID, "e", "user", "jti-1", i64::MIN + 8_210_266_876_799, 0, TokenKind::Access);
    assert!(logout_plan(&c).is_some());
}

#[test]
fn empty_password_is_hashed() {
    let hash = hash_new_password("").unwrap();
    assert_eq!(password_matches("", &hash), Ok(true));
}

#[test]
fn new_account_takes_form_and_defaults() {
    let req = RegisterRequest {
        name: "Bagas".into(),
        email: "bagas@example.com".into(),
        password: "password123".into(),
    };
    let hash = hash_new_password(&req.password).unwrap();
    let u = new_account(&req, ID, &hash, 42);
    assert_eq!(u.id, ID);
    assert_eq!(u.name, "Bagas");
    assert_eq!(u.email, "bagas@example.com");
    assert_eq!(u.role, "user");
    assert!(u.is_active);
    assert_eq!((u.created_at, u.updated_at), (42, 42));
    assert_eq!(authenticate("password123", Some(u.clone())), Ok(u));
}
