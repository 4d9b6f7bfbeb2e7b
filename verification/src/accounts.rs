use vstd::prelude::*;

use crate::errors::{fails_with, AppError, ErrorKind};
use crate::ids::{format_uuid, parse_uuid, uuid_parse, uuid_text};
use crate::jwt::Claims;
use crate::models::User;
use crate::replies::{
    message_reply, plain_user_reply, user_reply, user_reply_with, MessageReply, UserReply,
};
use crate::requests::{role_form_ok, UpdateRoleRequest};
use crate::text::same_text;

verus! {

/// The id of the user a token speaks for; a subject that is not a UUID is an
/// internal error.
pub fn subject_id(claims: &Claims) -> (r: Result<u128, AppError>)
    ensures
        match uuid_parse(claims.sub@) {
            Some(id) => r == Ok::<u128, AppError>(id),
            None => fails_with(r, ErrorKind::Internal, "ID tidak valid"@),
        },
{
    match parse_uuid(claims.sub.as_str()) {
        Some(id) => Ok(id),
        None => Err(AppError::Internal(String::from_str("ID tidak valid"))),
    }
}

/// The answer about one account looked up by id.
pub open spec fn lookup_answer(found: Option<User>, r: Result<UserReply, AppError>) -> bool {
    match found {
        None => fails_with(r, ErrorKind::NotFound, "User tidak ditemukan"@),
        Some(u) => r matches Ok(reply) && plain_user_reply(reply, u),
    }
}

/// Shows an account that was found, or reports that there is none.
pub fn found_user(found: Option<User>) -> (r: Result<UserReply, AppError>)
    ensures
        lookup_answer(found, r),
{
    match found {
        Some(u) => Ok(user_reply(u, None)),
        None => Err(AppError::NotFound(String::from_str("User tidak ditemukan"))),
    }
}

/// The answer after updating an account, with the given notice.
pub open spec fn update_answer(found: Option<User>, msg: Seq<char>, r: Result<UserReply, AppError>) -> bool {
    match found {
        None => fails_with(r, ErrorKind::NotFound, "User tidak ditemukan"@),
        Some(u) => r matches Ok(reply) && user_reply_with(reply, u, msg),
    }
}

/// Shows an account that was updated, or reports that there is none.
fn updated_user(found: Option<User>, message: &str) -> (r: Result<UserReply, AppError>)
    ensures
        update_answer(found, message@, r),
{
    match found {
        Some(u) => Ok(user_reply(u, Some(message))),
        None => Err(AppError::NotFound(String::from_str("User tidak ditemukan"))),
    }
}

/// Whether the admin's token speaks for the target account itself.
pub open spec fn is_self(admin: Claims, target: u128) -> bool {
    admin.sub@ == uuid_text(target)
}

/// Refuses, with `refusal`, an action of an admin on their own account.
fn not_self(admin: &Claims, target: u128, refusal: &str) -> (r: Result<(), AppError>)
    ensures
        is_self(*admin, target) ==> fails_with(r, ErrorKind::Forbidden, refusal@),
        !is_self(*admin, target) ==> r is Ok,
{
    let target_text = format_uuid(target);
    if same_text(admin.sub.as_str(), target_text.as_str()) {
        Err(AppError::Forbidden(String::from_str(refusal)))
    } else {
        Ok(())
    }
}

/// The roles an account may be given.
pub open spec fn allowed_role(role: Seq<char>) -> bool {
    role == "user"@ || role == "admin"@ || role == "moderator"@
}

/// Whether a role change may go ahead, in the order the checks are made:
/// the form, the role's value, then that the admin does not change their own
/// role.
pub open spec fn role_change_answer(admin: Claims, target: u128, role: Seq<char>, r: Result<(), AppError>) -> bool {
    if !role_form_ok(role) {
        r matches Err(e) && e@.0 == ErrorKind::Validation
    } else if !allowed_role(role) {
        fails_with(r, ErrorKind::Validation, "Role tidak valid. Pilihan: user, admin, moderator"@)
    } else if is_self(admin, target) {
        fails_with(r, ErrorKind::Forbidden, "Tidak bisa mengubah role diri sendiri"@)
    } else {
        r is Ok
    }
}

/// Checks a role change before the database is touched.
pub fn role_change_allowed(admin: &Claims, target: u128, req: &UpdateRoleRequest) -> (r: Result<(), AppError>)
    ensures
        role_change_answer(*admin, target, req.role@, r),
{
    match req.validate() {
        Err(e) => return Err(e),
        Ok(()) => {},
    }
    let role = req.role.as_str();
    if !(same_text(role, "user") || same_text(role, "admin") || same_text(role, "moderator")) {
        return Err(AppError::Validation(String::from_str("Role tidak valid. Pilihan: user, admin, moderator")));
    }
    not_self(admin, target, "Tidak bisa mengubah role diri sendiri")
}

/// The notice after a role change.
pub open spec fn role_notice(role: Seq<char>) -> Seq<char> {
    "Role berhasil diubah menjadi '"@ + role + "'"@
}

/// Shows the account whose role was changed to `role`.
pub fn role_changed(found: Option<User>, role: &str) -> (r: Result<UserReply, AppError>)
    ensures
        update_answer(found, role_notice(role@), r),
{
    let mut notice = String::from_str("Role berhasil diubah menjadi '");
    notice.append(role);
    notice.append("'");
    updated_user(found, notice.as_str())
}

/// Refuses an admin deactivating their own account.
pub fn deactivation_allowed(admin: &Claims, target: u128) -> (r: Result<(), AppError>)
    ensures
        is_self(*admin, target) ==> fails_with(
            r,
            ErrorKind::Forbidden,
            "Tidak bisa menonaktifkan akun sendiri"@,
        ),
        !is_self(*admin, target) ==> r is Ok,
{
    not_self(admin, target, "Tidak bisa menonaktifkan akun sendiri")
}

/// Shows the account that was deactivated.
pub fn deactivated(found: Option<User>) -> (r: Result<UserReply, AppError>)
    ensures
        update_answer(found, "User berhasil dinonaktifkan"@, r),
{
    updated_user(found, "User berhasil dinonaktifkan")
}

/// Shows the account that was activated again.
pub fn activated(found: Option<User>) -> (r: Result<UserReply, AppError>)
    ensures
        update_answer(found, "User berhasil diaktifkan kembali"@, r),
{
    updated_user(found, "User berhasil diaktifkan kembali")
}

/// Refuses an admin deleting their own account.
pub fn deletion_allowed(admin: &Claims, target: u128) -> (r: Result<(), AppError>)
    ensures
        is_self(*admin, target) ==> fails_with(r, ErrorKind::Forbidden, "Tidak bisa menghapus akun sendiri"@),
        !is_self(*admin, target) ==> r is Ok,
{
    not_self(admin, target, "Tidak bisa menghapus akun sendiri")
}

/// Reports the deletion, or that no account had that id.
pub fn deleted(rows_affected: u64) -> (r: Result<MessageReply, AppError>)
    ensures
        rows_affected == 0 ==> fails_with(r, ErrorKind::NotFound, "User tidak ditemukan"@),
        rows_affected != 0 ==> (r matches Ok(m) && m.success && m.message@ == "User berhasil dihapus"@),
{
    if rows_affected == 0 {
        Err(AppError::NotFound(String::from_str("User tidak ditemukan")))
    } else {
        Ok(message_reply("User berhasil dihapus"))
    }
}

/// An admin can never change the role of, deactivate, or delete their own
/// account: whenever the token's subject is the text of the target id, each
/// check refuses with `Forbidden` and its own message (for a role change,
/// once the requested role itself is acceptable), whatever else the token
/// says.
pub proof fn lemma_admin_cannot_act_on_self(
    admin: Claims,
    target: u128,
    role: Seq<char>,
    role_change: Result<(), AppError>,
    deactivation: Result<(), AppError>,
    deletion: Result<(), AppError>,
)
    requires
        admin.sub@ == uuid_text(target),
        role_form_ok(role),
        allowed_role(role),
        role_change_answer(admin, target, role, role_change),
        is_self(admin, target) ==> fails_with(
            deactivation,
            ErrorKind::Forbidden,
            "Tidak bisa menonaktifkan akun sendiri"@,
        ),
        !is_self(admin, target) ==> deactivation is Ok,
        is_self(admin, target) ==> fails_with(deletion, ErrorKind::Forbidden, "Tidak bisa menghapus akun sendiri"@),
        !is_self(admin, target) ==> deletion is Ok,
    ensures
        fails_with(role_change, ErrorKind::Forbidden, "Tidak bisa mengubah role diri sendiri"@),
        fails_with(deactivation, ErrorKind::Forbidden, "Tidak bisa menonaktifkan akun sendiri"@),
        fails_with(deletion, ErrorKind::Forbidden, "Tidak bisa menghapus akun sendiri"@),
{
}

/// Whether an action is on the admin's own account depends only on the
/// token's subject and the target id: two tokens with the same subject get
/// the same answer, and a subject that is not the target's text never counts.
pub proof fn lemma_self_check_uses_subject_only(a: Claims, b: Claims, target: u128)
    requires
        a.sub@ == b.sub@,
    ensures
        is_self(a, target) == is_self(b, target),
        is_self(a, target) <==> a.sub@ == uuid_text(target),
{
}

/// An account shown after a lookup or an update is the stored row as it
/// came back, field for field (minus the hash): a deactivated account is
/// shown inactive, an activated one active.
pub proof fn lemma_shown_account_is_the_row(
    found: User,
    msg: Seq<char>,
    looked_up: Result<UserReply, AppError>,
    updated: Result<UserReply, AppError>,
)
    requires
        lookup_answer(Some(found), looked_up),
        update_answer(Some(found), msg, updated),
    ensures
        looked_up matches Ok(r) && r.user.id == found.id && r.user.email@ == found.email@
            && r.user.name@ == found.name@ && r.user.role@ == found.role@ && r.user.is_active
            == found.is_active && r.user.created_at == found.created_at && r.user.updated_at
            == found.updated_at,
        updated matches Ok(r) && r.user.id == found.id && r.user.email@ == found.email@
            && r.user.name@ == found.name@ && r.user.role@ == found.role@ && r.user.is_active
            == found.is_active && r.user.created_at == found.created_at && r.user.updated_at
            == found.updated_at,
{
}

/// A role change is only ever let through for one of the three known roles.
pub proof fn lemma_role_change_only_to_known_roles(
    admin: Claims,
    target: u128,
    role: Seq<char>,
    r: Result<(), AppError>,
)
    requires
        role_change_answer(admin, target, role, r),
        r is Ok,
    ensures
        allowed_role(role),
        !is_self(admin, target),
{
}

} // verus!
