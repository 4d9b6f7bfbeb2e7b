use vstd::prelude::*;

use crate::auth::{entry_answer, probe_answer, AuthUser};
use crate::cache::{
    blacklist_key, lemma_key_namespaces_disjoint, live, read_at, refresh_token_key, set_with_ttl,
    spec_blacklist_key, spec_refresh_token_key, without_key,
};
use crate::errors::{fails_with, AppError, ErrorKind};
use crate::ids::{format_uuid, max_timestamp, parse_uuid, unix_now, uuid_parse, uuid_text};
use crate::jwt::{kind_text, Claims, TokenKind};
use crate::models::User;
use crate::passwords::{argon2_accepts, password_matches, phc_rejection};
use crate::replies::{user_reply, user_reply_with, UserReply};
use crate::text::{opt_text, same_text};

verus! {

// ── Registration ────────────────────────────────────────────────────────────

/// What the e-mail check of a registration answers.
pub open spec fn availability_answer(taken: bool, r: Result<(), AppError>) -> bool {
    if taken {
        fails_with(r, ErrorKind::Conflict, "Email sudah terdaftar"@)
    } else {
        r is Ok
    }
}

/// Refuses a registration whose e-mail is already taken.
pub fn email_available(taken: bool) -> (r: Result<(), AppError>)
    ensures
        availability_answer(taken, r),
{
    if taken {
        Err(AppError::Conflict(String::from_str("Email sudah terdaftar")))
    } else {
        Ok(())
    }
}

/// The answer to a completed registration.
pub fn registered(user: User) -> (r: UserReply)
    ensures
        user_reply_with(r, user, "Registrasi berhasil"@),
{
    user_reply(user, Some("Registrasi berhasil"))
}

// ── Login ───────────────────────────────────────────────────────────────────

/// What checking a login against the account found for its e-mail answers.
pub open spec fn login_answer(password: Seq<char>, found: Option<User>, r: Result<User, AppError>) -> bool {
    match found {
        None => fails_with(r, ErrorKind::Unauthorized, "Email atau password salah"@),
        Some(u) => match phc_rejection(u.password_hash@) {
            Some(msg) => r matches Err(e) && e@ == (ErrorKind::Argon2, msg),
            None => if argon2_accepts(password, u.password_hash@) {
                r == Ok::<User, AppError>(u)
            } else {
                fails_with(r, ErrorKind::Unauthorized, "Email atau password salah"@)
            },
        },
    }
}

/// Checks the password of a login against the active account with its
/// e-mail. An unknown e-mail and a wrong password get the same answer.
pub fn authenticate(password: &str, found: Option<User>) -> (r: Result<User, AppError>)
    ensures
        login_answer(password@, found, r),
{
    match found {
        None => Err(AppError::Unauthorized(String::from_str("Email atau password salah"))),
        Some(user) => match password_matches(password, user.password_hash.as_str()) {
            Err(e) => Err(e),
            Ok(true) => Ok(user),
            Ok(false) => Err(AppError::Unauthorized(String::from_str("Email atau password salah"))),
        },
    }
}

/// A cache write: `value` under `key` for `ttl_seconds`.
#[derive(Debug, Clone, PartialEq, Eq)]
pub struct CacheWrite {
    pub key: String,
    pub value: String,
    pub ttl_seconds: i64,
}

/// What a login records: the `jti` of the refresh token just issued, under
/// the user's refresh key, for the refresh token's lifetime.
pub open spec fn session_answer(user_id: u128, refresh_jti: Seq<char>, ttl: i64, w: CacheWrite) -> bool {
    &&& w.key@ == spec_refresh_token_key(uuid_text(user_id))
    &&& w.value@ == refresh_jti
    &&& w.ttl_seconds == ttl
    &&& uuid_parse(uuid_text(user_id)) == Some(user_id)
}

/// The cache write that makes the refresh token with id `refresh_jti` the
/// user's one valid refresh token.
pub fn login_session(user_id: u128, refresh_jti: &str, ttl: i64) -> (w: CacheWrite)
    ensures
        session_answer(user_id, refresh_jti@, ttl, w),
{
    let id = format_uuid(user_id);
    CacheWrite {
        key: refresh_token_key(id.as_str()),
        value: String::from_str(refresh_jti),
        ttl_seconds: ttl,
    }
}

// ── Refresh ─────────────────────────────────────────────────────────────────

/// What the first refresh check answers for the outcome of verifying the
/// presented token: the cache key of its user's session, or a refusal.
pub open spec fn refresh_key_answer(verified: Result<Claims, AppError>, r: Result<String, AppError>) -> bool {
    match verified {
        Err(_) => fails_with(r, ErrorKind::Unauthorized, "Refresh token tidak valid atau expired"@),
        Ok(c) => if c.token_type@ == kind_text(TokenKind::Refresh) {
            r matches Ok(key) && key@ == spec_refresh_token_key(c.sub@)
        } else {
            fails_with(r, ErrorKind::Unauthorized, "Bukan refresh token"@)
        },
    }
}

/// Accepts only verified refresh tokens and names the session key to read.
/// Whatever made verification fail, the answer is the same.
pub fn refresh_session_key(verified: &Result<Claims, AppError>) -> (r: Result<String, AppError>)
    ensures
        refresh_key_answer(*verified, r),
{
    match verified {
        Err(_) => Err(AppError::Unauthorized(String::from_str("Refresh token tidak valid atau expired"))),
        Ok(c) => if same_text(c.token_type.as_str(), TokenKind::Refresh.as_str()) {
            Ok(refresh_token_key(c.sub.as_str()))
        } else {
            Err(AppError::Unauthorized(String::from_str("Bukan refresh token")))
        },
    }
}

/// What the second refresh check answers, given the `jti` stored for the
/// user: the user's id, or a refusal.
pub open spec fn refresh_subject_answer(claims: Claims, stored: Option<Seq<char>>, r: Result<u128, AppError>) -> bool {
    if stored != Some(claims.jti@) {
        fails_with(r, ErrorKind::Unauthorized, "Refresh token sudah tidak valid"@)
    } else {
        match uuid_parse(claims.sub@) {
            None => fails_with(r, ErrorKind::Internal, "ID tidak valid"@),
            Some(id) => r == Ok::<u128, AppError>(id),
        }
    }
}

/// Accepts the refresh token only if it is the one last recorded for its
/// user, and reads the user's id from its subject.
pub fn refresh_subject(claims: &Claims, stored: Option<&str>) -> (r: Result<u128, AppError>)
    ensures
        refresh_subject_answer(*claims, opt_text(stored), r),
{
    let current = match stored {
        Some(jti) => same_text(jti, claims.jti.as_str()),
        None => false,
    };
    if !current {
        return Err(AppError::Unauthorized(String::from_str("Refresh token sudah tidak valid")));
    }
    match parse_uuid(claims.sub.as_str()) {
        Some(id) => Ok(id),
        None => Err(AppError::Internal(String::from_str("ID tidak valid"))),
    }
}

/// The refresh token recorded at login is accepted by refresh: the session
/// key refresh reads is the one login wrote, the stored `jti` matches, and
/// the subject gives back the user's id.
pub proof fn lemma_login_then_refresh(
    user_id: u128,
    refresh: Claims,
    ttl: i64,
    session: CacheWrite,
    key: Result<String, AppError>,
    subject: Result<u128, AppError>,
)
    requires
        refresh.sub@ == uuid_text(user_id),
        refresh.token_type@ == kind_text(TokenKind::Refresh),
        session_answer(user_id, refresh.jti@, ttl, session),
        refresh_key_answer(Ok(refresh), key),
        refresh_subject_answer(refresh, Some(session.value@), subject),
    ensures
        key matches Ok(k) && k@ == session.key@,
        subject == Ok::<u128, AppError>(user_id),
{
}

/// The session written at login lets refresh through for as long as it
/// lives: read back at any time before its lifetime ends, the stored `jti`
/// is the refresh token's own and its user's id comes back.
pub proof fn lemma_session_read_back(
    user_id: u128,
    refresh: Claims,
    ttl: i64,
    session: CacheWrite,
    store: Map<Seq<char>, (Seq<char>, int)>,
    written_at: int,
    t: int,
    key: String,
    subject: Result<u128, AppError>,
)
    requires
        refresh.sub@ == uuid_text(user_id),
        refresh.token_type@ == kind_text(TokenKind::Refresh),
        session_answer(user_id, refresh.jti@, ttl, session),
        written_at <= t < written_at + ttl,
        refresh_key_answer(Ok(refresh), Ok(key)),
        refresh_subject_answer(
            refresh,
            read_at(set_with_ttl(store, session.key@, session.value@, ttl as int, written_at), key@, t),
            subject,
        ),
    ensures
        subject == Ok::<u128, AppError>(user_id),
{
}

/// Access tokens cannot be used to refresh: refresh refuses them before the
/// cache is read.
pub proof fn lemma_access_token_cannot_refresh(claims: Claims, key: Result<String, AppError>)
    requires
        claims.token_type@ == kind_text(TokenKind::Access),
        refresh_key_answer(Ok(claims), key),
    ensures
        fails_with(key, ErrorKind::Unauthorized, "Bukan refresh token"@),
{
    reveal_strlit("access");
    reveal_strlit("refresh");
    assert(kind_text(TokenKind::Access)[1] != kind_text(TokenKind::Refresh)[1]);
}

/// Login does not tell an unknown e-mail from a wrong password: both get the
/// same refusal.
pub proof fn lemma_login_hides_which_part_failed(
    password: Seq<char>,
    user: User,
    unknown: Result<User, AppError>,
    wrong: Result<User, AppError>,
)
    requires
        login_answer(password, None, unknown),
        phc_rejection(user.password_hash@) is None,
        !argon2_accepts(password, user.password_hash@),
        login_answer(password, Some(user), wrong),
    ensures
        unknown matches Err(e1) && wrong matches Err(e2) && e1@ == e2@,
        fails_with(unknown, ErrorKind::Unauthorized, "Email atau password salah"@),
{
}

/// Once a newer refresh token has been recorded for a user, an older one
/// (with another `jti`) is refused.
pub proof fn lemma_superseded_refresh_refused(
    old: Claims,
    stored: Seq<char>,
    subject: Result<u128, AppError>,
)
    requires
        stored != old.jti@,
        refresh_subject_answer(old, Some(stored), subject),
    ensures
        fails_with(subject, ErrorKind::Unauthorized, "Refresh token sudah tidak valid"@),
{
}

// ── Logout ──────────────────────────────────────────────────────────────────

/// What logout does: possibly blacklist the access token until it expires,
/// and always drop the user's refresh session.
#[derive(Debug, Clone, PartialEq, Eq)]
pub struct LogoutPlan {
    pub blacklist: Option<CacheWrite>,
    pub refresh_key: String,
    /// The time (Unix seconds) the plan was made for.
    pub logged_out_at: i64,
}

/// The logout plan for an access token with these claims at time `now`.
pub open spec fn logout_answer(claims: Claims, now: i64, p: LogoutPlan) -> bool {
    &&& p.logged_out_at == now
    &&& p.refresh_key@ == spec_refresh_token_key(claims.sub@)
    &&& if claims.exp - now > 0 {
        p.blacklist matches Some(w) && w.key@ == spec_blacklist_key(claims.jti@) && w.value@
            == "1"@ && w.ttl_seconds == claims.exp - now
    } else {
        p.blacklist is None
    }
}

/// Plans a logout at time `now`: a token that has not expired yet is
/// blacklisted for exactly the rest of its life.
pub fn logout_plan_at(claims: &Claims, now: i64) -> (p: LogoutPlan)
    requires
        i64::MIN <= claims.exp - now <= i64::MAX,
    ensures
        logout_answer(*claims, now, p),
{
    let remaining = claims.exp - now;
    let blacklist = if remaining > 0 {
        Some(
            CacheWrite {
                key: blacklist_key(claims.jti.as_str()),
                value: String::from_str("1"),
                ttl_seconds: remaining,
            },
        )
    } else {
        None
    };
    LogoutPlan {
        blacklist,
        refresh_key: refresh_token_key(claims.sub.as_str()),
        logged_out_at: now,
    }
}

/// Whether the remaining lifetime `exp - now` fits in an `i64`.
pub open spec fn lifetime_fits(exp: i64, now: i64) -> bool {
    i64::MIN <= exp - now <= i64::MAX
}

/// Plans a logout now (the clock is read). `None` when the remaining
/// lifetime of the token does not fit in an `i64` at the time read, which
/// cannot happen for an expiry of at least `i64::MIN + max_timestamp()`.
pub fn logout_plan(claims: &Claims) -> (p: Option<LogoutPlan>)
    ensures
        p matches Some(plan) ==> logout_answer(*claims, plan.logged_out_at, plan) && 0
            <= plan.logged_out_at <= max_timestamp(),
        p is None ==> exists|now: i64|
            0 <= now <= max_timestamp() && !#[trigger] lifetime_fits(claims.exp, now),
        claims.exp >= i64::MIN + max_timestamp() ==> p is Some,
{
    let now = unix_now();
    match claims.exp.checked_sub(now) {
        Some(_) => Some(logout_plan_at(claims, now)),
        None => {
            assert(!lifetime_fits(claims.exp, now));
            None
        },
    }
}

/// The cache after logout's writes, made at the time of the plan: the
/// blacklist entry (if any) is set, then the refresh session is deleted.
pub open spec fn after_logout(store: Map<Seq<char>, (Seq<char>, int)>, plan: LogoutPlan) -> Map<
    Seq<char>,
    (Seq<char>, int),
> {
    let blacklisted = match plan.blacklist {
        Some(w) => set_with_ttl(store, w.key@, w.value@, w.ttl_seconds as int, plan.logged_out_at as int),
        None => store,
    };
    without_key(blacklisted, plan.refresh_key@)
}

/// Logout blacklists a token for exactly the rest of its life: from the
/// logout time on, its blacklist entry is live at time `t` if and only if
/// the token has not expired at `t`.
pub proof fn lemma_blacklist_lasts_until_expiry(
    claims: Claims,
    now: i64,
    plan: LogoutPlan,
    store: Map<Seq<char>, (Seq<char>, int)>,
    t: int,
)
    requires
        logout_answer(claims, now, plan),
        now < claims.exp,
        now <= t,
    ensures
        live(after_logout(store, plan), spec_blacklist_key(claims.jti@), t) <==> t < claims.exp,
{
    lemma_key_namespaces_disjoint(claims.sub@, claims.jti@);
}

/// A logged-out access token is refused until it expires: after logout has
/// made its writes, whenever the token is presented again before its
/// expiry, the key authentication probes is live and the request is
/// refused with "Token sudah di-logout".
pub proof fn lemma_logged_out_token_refused_until_expiry(
    claims: Claims,
    plan: LogoutPlan,
    store: Map<Seq<char>, (Seq<char>, int)>,
    t: int,
    key: String,
    later: Result<AuthUser, AppError>,
)
    requires
        logout_answer(claims, plan.logged_out_at, plan),
        plan.logged_out_at < claims.exp,
        plan.logged_out_at <= t < claims.exp,
        probe_answer(claims, Ok(key)),
        entry_answer(claims, live(after_logout(store, plan), key@, t), later),
    ensures
        live(after_logout(store, plan), key@, t),
        fails_with(later, ErrorKind::Unauthorized, "Token sudah di-logout"@),
{
    lemma_key_namespaces_disjoint(claims.sub@, claims.jti@);
}

/// Logging out revokes the token: while it has not expired, logout writes
/// exactly the key that authentication probes for that token, and a token
/// found under that key is refused.
pub proof fn lemma_logout_blacklists_probed_key(
    claims: Claims,
    now: i64,
    plan: LogoutPlan,
    probe: Result<String, AppError>,
    later: Result<crate::auth::AuthUser, AppError>,
)
    requires
        claims.exp > now,
        logout_answer(claims, now, plan),
        crate::auth::probe_answer(claims, probe),
        probe is Ok,
        crate::auth::entry_answer(claims, true, later),
    ensures
        plan.blacklist matches Some(w) && probe matches Ok(k) && w.key@ == k@,
        fails_with(later, ErrorKind::Unauthorized, "Token sudah di-logout"@),
{
}

/// Logging out also ends the refresh session that login recorded for the
/// token's user.
pub proof fn lemma_logout_ends_session(
    user_id: u128,
    claims: Claims,
    now: i64,
    plan: LogoutPlan,
    refresh: Claims,
    ttl: i64,
    session: CacheWrite,
)
    requires
        claims.sub@ == uuid_text(user_id),
        logout_answer(claims, now, plan),
        session_answer(user_id, refresh.jti@, ttl, session),
    ensures
        plan.refresh_key@ == session.key@,
{
}

/// The answer to a completed logout.
pub fn logged_out() -> (r: crate::replies::MessageReply)
    ensures
        r.success,
        r.message@ == "Logout berhasil"@,
{
    crate::replies::message_reply("Logout berhasil")
}

} // verus!
