use vstd::prelude::*;

use crate::cache::{blacklist_key, spec_blacklist_key};
use crate::errors::{fails_with, AppError, ErrorKind};
use crate::jwt::{kind_text, Claims, TokenKind};
use crate::text::{opt_text, same_text, strip_prefix};

verus! {

/// A request whose access token passed every authentication check.
#[derive(Debug, Clone, PartialEq, Eq)]
pub struct AuthUser(pub Claims);

/// An authenticated request whose token carries the `admin` role.
#[derive(Debug, Clone, PartialEq, Eq)]
pub struct AdminUser(pub Claims);

/// The scheme that must open the `Authorization` header.
pub open spec fn bearer_prefix() -> Seq<char> {
    "Bearer "@
}

/// What the first stage answers: the bearer token, or why there is none.
pub open spec fn bearer_answer(header: Option<Seq<char>>, r: Result<String, AppError>) -> bool {
    match header {
        None => fails_with(r, ErrorKind::Unauthorized, "Authorization header tidak ada"@),
        Some(h) => if bearer_prefix().is_prefix_of(h) {
            r matches Ok(t) && t@ == h.skip(bearer_prefix().len() as int)
        } else {
            fails_with(r, ErrorKind::Unauthorized, "Format token salah, gunakan Bearer"@)
        },
    }
}

/// Takes the token out of an `Authorization: Bearer <token>` header.
pub fn bearer_token(header: Option<&str>) -> (r: Result<String, AppError>)
    ensures
        bearer_answer(opt_text(header), r),
{
    match header {
        None => Err(AppError::Unauthorized(String::from_str("Authorization header tidak ada"))),
        Some(h) => match strip_prefix(h, "Bearer ") {
            Some(token) => Ok(String::from_str(token)),
            None => Err(AppError::Unauthorized(String::from_str("Format token salah, gunakan Bearer"))),
        },
    }
}

/// The failure reported when a token does not verify, with the verifier's
/// explanation appended.
pub fn invalid_token(detail: &str) -> (e: AppError)
    ensures
        e@ == (ErrorKind::Unauthorized, "Token tidak valid: "@ + detail@),
{
    let mut msg = String::from_str("Token tidak valid: ");
    msg.append(detail);
    AppError::Unauthorized(msg)
}

/// What the second stage answers for verified claims: the cache key to probe
/// for a logout, or a refusal of a token that is not an access token.
pub open spec fn probe_answer(claims: Claims, r: Result<String, AppError>) -> bool {
    if claims.token_type@ == kind_text(TokenKind::Access) {
        r matches Ok(key) && key@ == spec_blacklist_key(claims.jti@)
    } else {
        fails_with(r, ErrorKind::Unauthorized, "Bukan access token"@)
    }
}

/// Accepts only access tokens, and names the cache key that would mark this
/// token as logged out.
pub fn blacklist_probe(claims: &Claims) -> (r: Result<String, AppError>)
    ensures
        probe_answer(*claims, r),
{
    if same_text(claims.token_type.as_str(), TokenKind::Access.as_str()) {
        Ok(blacklist_key(claims.jti.as_str()))
    } else {
        Err(AppError::Unauthorized(String::from_str("Bukan access token")))
    }
}

/// What the last stage answers, knowing whether the token was logged out.
pub open spec fn entry_answer(claims: Claims, logged_out: bool, r: Result<AuthUser, AppError>) -> bool {
    if logged_out {
        fails_with(r, ErrorKind::Unauthorized, "Token sudah di-logout"@)
    } else {
        r == Ok::<AuthUser, AppError>(AuthUser(claims))
    }
}

/// Admits the request unless its token was logged out.
pub fn accept_unless_logged_out(claims: Claims, logged_out: bool) -> (r: Result<AuthUser, AppError>)
    ensures
        entry_answer(claims, logged_out, r),
{
    if logged_out {
        Err(AppError::Unauthorized(String::from_str("Token sudah di-logout")))
    } else {
        Ok(AuthUser(claims))
    }
}

/// What the admin check answers.
pub open spec fn admin_answer(user: AuthUser, r: Result<AdminUser, AppError>) -> bool {
    if user.0.role@ == "admin"@ {
        r == Ok::<AdminUser, AppError>(AdminUser(user.0))
    } else {
        fails_with(r, ErrorKind::Forbidden, "Hanya admin yang bisa mengakses ini"@)
    }
}

/// Lets an authenticated request through only when its role is `admin`.
pub fn require_admin(user: AuthUser) -> (r: Result<AdminUser, AppError>)
    ensures
        admin_answer(user, r),
{
    let AuthUser(claims) = user;
    if same_text(claims.role.as_str(), "admin") {
        Ok(AdminUser(claims))
    } else {
        Err(AppError::Forbidden(String::from_str("Hanya admin yang bisa mengakses ini")))
    }
}

/// A request is authenticated only when its header is `Bearer <token>`, the
/// token's claims are those of an access token, the cache was asked about
/// exactly that token's `jti`, and the answer was that it is not logged out.
pub proof fn lemma_only_live_access_tokens_authenticate(
    header: Option<Seq<char>>,
    token: String,
    claims: Claims,
    probe: Result<String, AppError>,
    logged_out: bool,
    outcome: Result<AuthUser, AppError>,
)
    requires
        bearer_answer(header, Ok(token)),
        probe_answer(claims, probe),
        probe is Ok,
        entry_answer(claims, logged_out, outcome),
        outcome is Ok,
    ensures
        header matches Some(h) && bearer_prefix().is_prefix_of(h) && token@ == h.skip(7),
        claims.token_type@ == "access"@,
        probe matches Ok(key) && key@ == spec_blacklist_key(claims.jti@),
        !logged_out,
        outcome == Ok::<AuthUser, AppError>(AuthUser(claims)),
{
    reveal_strlit("Bearer ");
}

/// Refresh tokens never authenticate a request: their claims are refused before the
/// cache is even asked.
pub proof fn lemma_refresh_token_refused(claims: Claims, probe: Result<String, AppError>)
    requires
        claims.token_type@ == kind_text(TokenKind::Refresh),
        probe_answer(claims, probe),
    ensures
        fails_with(probe, ErrorKind::Unauthorized, "Bukan access token"@),
{
    reveal_strlit("access");
    reveal_strlit("refresh");
    assert(kind_text(TokenKind::Access)[1] != kind_text(TokenKind::Refresh)[1]);
}

/// An admin request is one that is authenticated and carries the `admin` role.
pub proof fn lemma_admin_requires_admin_role(user: AuthUser, r: Result<AdminUser, AppError>)
    requires
        admin_answer(user, r),
        r is Ok,
    ensures
        user.0.role@ == "admin"@,
        r == Ok::<AdminUser, AppError>(AdminUser(user.0)),
{
}

} // verus!
