use backend::accounts::{
    activated, deactivated, deactivation_allowed, deleted, deletion_allowed, found_user,
    role_change_allowed, role_changed, subject_id,
};
use backend::errors::AppError;
use backend::jwt::Claims;
use backend::models::{User, UserResponse};
use backend::replies::user_list;
use backend::requests::UpdateRoleRequest;

const ADMIN: u128 = 0x11111111_2222_3333_4444_555555555555;
const OTHER: u128 = 0xaaaaaaaa_bbbb_cccc_dddd_eeeeeeeeeeee;

fn admin() -> Claims {
    Claims {
        sub: "11111111-2222-3333-4444-555555555555".into(),
        email: "root@example.com".into(),
        role: "admin".into(),
        jti: "j".into(),
        exp: 10,
        iat: 0,
        token_type: "access".into(),
    }
}

fn user(id: u128, email: &str) -> User {
    User {
        id,
        email: email.into(),
        name: "N".into(),
        password_hash: "secret".into(),
        role: "user".into(),
        is_active: true,
        created_at: 5,
        updated_at: 6,
    }
}

fn role(r: &str) -> UpdateRoleRequest {
    UpdateRoleRequest { role: r.into() }
}

#[test]
fn known_roles_may_be_given() {
    for r in ["user", "admin", "moderator"] {
        assert_eq!(role_change_allowed(&admin(), OTHER, &role(r)), Ok(()));
    }
}

#[test]
fn unknown_role_is_refused() {
    assert_eq!(
        role_change_allowed(&admin(), OTHER, &role("Admin")),
        Err(AppError::Validation("Role tidak valid. Pilihan: user, admin, moderator".into()))
    );
    match role_change_allowed(&admin(), OTHER, &role("")) {
        Err(AppError::Validation(text)) => assert!(text.starts_with("role: Validation error: length [")),
        other => panic!("unexpected {:?}", other),
    }
}

#[test]
fn admin_cannot_change_own_role() {
    assert_eq!(
        role_change_allowed(&admin(), ADMIN, &role("user")),
        Err(AppError::Forbidden("Tidak bisa mengubah role diri sendiri".into()))
    );
    // the role is checked before the target
    assert_eq!(
        role_change_allowed(&admin(), ADMIN, &role("boss")),
        Err(AppError::Validation("Role tidak valid. Pilihan: user, admin, moderator".into()))
    );
}

#[test]
fn admin_cannot_deactivate_or_delete_self() {
    assert_eq!(
        deactivation_allowed(&admin(), ADMIN),
        Err(AppError::Forbidden("Tidak bisa menonaktifkan akun sendiri".into()))
    );
    assert_eq!(
        deletion_allowed(&admin(), ADMIN),
        Err(AppError::Forbidden("Tidak bisa menghapus akun sendiri".into()))
    );
    assert_eq!(deactivation_allowed(&admin(), OTHER), Ok(()));
    assert_eq!(deletion_allowed(&admin(), OTHER), Ok(()));
}

#[test]
fn role_change_notice_names_the_role() {
    let r = role_changed(Some(user(OTHER, "x@y.z")), "moderator").unwrap();
    assert_eq!(r.message.as_deref(), Some("Role berhasil diubah menjadi 'moderator'"));
    assert_eq!(r.user.email, "x@y.z");
    assert_eq!(
        role_changed(None, "user"),
        Err(AppError::NotFound("User tidak ditemukan".into()))
    );
}

#[test]
fn activation_notices() {
    assert_eq!(
        deactivated(Some(user(OTHER, "a@b.c"))).unwrap().message.as_deref(),
        Some("User berhasil dinonaktifkan")
    );
    assert_eq!(
        activated(Some(user(OTHER, "a@b.c"))).unwrap().message.as_deref(),
        Some("User berhasil diaktifkan kembali")
    );
    assert_eq!(deactivated(None), Err(AppError::NotFound("User tidak ditemukan".into())));
    assert_eq!(activated(None), Err(AppError::NotFound("User tidak ditemukan".into())));
}

#[test]
fn deletion_reports() {
    assert_eq!(deleted(0), Err(AppError::NotFound("User tidak ditemukan".into())));
    let r = deleted(1).unwrap();
    assert!(r.success);
    assert_eq!(r.message, "User berhasil dihapus");
}

#[test]
fn found_user_hides_password_hash() {
    let r = found_user(Some(user(OTHER, "a@b.c"))).unwrap();
    assert!(r.success);
    assert_eq!(r.message, None);
    assert_eq!(
        r.user,
        UserResponse {
            id: OTHER,
            email: "a@b.c".into(),
            name: "N".into(),
            role: "user".into(),
            is_active: true,
            created_at: 5,
            updated_at: 6,
        }
    );
    assert_eq!(found_user(None), Err(AppError::NotFound("User tidak ditemukan".into())));
}

#[test]
fn bad_subject_is_internal_error() {
    let mut c = admin();
    c.sub = "x".into();
    assert_eq!(subject_id(&c), Err(AppError::Internal("ID tidak valid".into())));
    assert_eq!(subject_id(&admin()), Ok(ADMIN));
}

#[test]
fn list_keeps_order_and_counts() {
    let r = user_list(vec![user(1, "a@x"), user(2, "b@x"), user(3, "c@x")]);
    assert!(r.success);
    assert_eq!(r.total, 3);
    let emails: Vec<&str> = r.users.iter().map(|u| u.email.as_str()).collect();
    assert_eq!(emails, vec!["a@x", "b@x", "c@x"]);
    assert_eq!(user_list(vec![]).total, 0);
}
