use backend::accounts::subject_id;
use backend::jwt::{build_claims, issue_claims, TokenKind};

const ID: u128 = 0x550e8400_e29b_41d4_a716_446655440000;

#[test]
fn built_claims_hold_every_field() {
    let c = build_claims(ID, "a@b.c", "admin", "j1", 1_700_000_000, 900, TokenKind::Access);
    assert_eq!(c.sub, "550e8400-e29b-41d4-a716-446655440000");
    assert_eq!(c.email, "a@b.c");
    assert_eq!(c.role, "admin");
    assert_eq!(c.jti, "j1");
    assert_eq!(c.iat, 1_700_000_000);
    assert_eq!(c.exp, 1_700_000_900);
    assert_eq!(c.token_type, "access");
}

#[test]
fn refresh_kind_is_written() {
    let c = build_claims(1, "e", "user", "j", 0, -5, TokenKind::Refresh);
    assert_eq!(c.token_type, "refresh");
    assert_eq!(c.sub, "00000000-0000-0000-0000-000000000001");
    assert_eq!(c.exp, -5);
}

#[test]
fn issued_claims_have_fresh_uuid_ids() {
    let a = issue_claims(ID, "a@b.c", "user", 60, TokenKind::Access).unwrap();
    let b = issue_claims(ID, "a@b.c", "user", 60, TokenKind::Refresh).unwrap();
    assert_eq!(a.exp - a.iat, 60);
    assert_eq!(a.sub, "550e8400-e29b-41d4-a716-446655440000");
    assert_eq!(b.token_type, "refresh");
    assert_ne!(a.jti, b.jti);
    assert!(uuid::Uuid::parse_str(&a.jti).is_ok());
    assert!(a.iat > 1_600_000_000);
}

#[test]
fn overflowing_expiry_is_refused() {
    assert!(issue_claims(ID, "a", "user", i64::MAX, TokenKind::Access).is_none());
}

#[test]
fn subject_round_trips_through_claims() {
    let c = build_claims(ID, "a@b.c", "user", "j", 0, 0, TokenKind::Access);
    assert_eq!(subject_id(&c), Ok(ID));
}

#[test]
fn issued_jti_is_a_version_4_uuid() {
    let c = issue_claims(ID, "a@b.c", "user", 60, TokenKind::Access).unwrap();
    let chars: Vec<char> = c.jti.chars().collect();
    assert_eq!(chars.len(), 36);
    assert_eq!(chars[14], '4');
    assert!("89ab".contains(chars[19]));
}

#[test]
fn lifetimes_within_clock_range_always_issue() {
    let limit = i64::MAX - 8_210_266_876_799;
    let c = issue_claims(ID, "a", "user", limit, TokenKind::Refresh).unwrap();
    assert_eq!(c.exp - c.iat, limit);
    assert!(issue_claims(ID, "a", "user", i64::MIN, TokenKind::Access).is_some());
}
