use vstd::prelude::*;

use crate::ids::{format_uuid, max_timestamp, random_uuid, unix_now, uuid_parse, uuid_text};

verus! {

/// The claims carried by every token this service issues.
#[derive(Debug, Clone, PartialEq, Eq)]
pub struct Claims {
    /// The id of the user, in canonical UUID text.
    pub sub: String,
    pub email: String,
    pub role: String,
    /// A unique id of this token, used to revoke it.
    pub jti: String,
    /// Expiry, as a Unix timestamp in seconds.
    pub exp: i64,
    /// Issue time, as a Unix timestamp in seconds.
    pub iat: i64,
    /// `"access"` or `"refresh"`.
    pub token_type: String,
}

/// The two kinds of token: short-lived access tokens and long-lived refresh tokens.
#[derive(Clone, Copy, Debug, PartialEq, Eq, Structural)]
pub enum TokenKind {
    Access,
    Refresh,
}

/// The `token_type` claim written for each kind.
pub open spec fn kind_text(kind: TokenKind) -> Seq<char> {
    match kind {
        TokenKind::Access => "access"@,
        TokenKind::Refresh => "refresh"@,
    }
}

impl TokenKind {
    /// The `token_type` claim of this kind.
    pub fn as_str(&self) -> (s: &'static str)
        ensures
            s@ == kind_text(*self),
    {
        match self {
            TokenKind::Access => "access",
            TokenKind::Refresh => "refresh",
        }
    }
}

/// `c` is what a token of `kind` for this user says when it is issued at
/// `now` with id `jti` and lifetime `expires_in` seconds.
pub open spec fn issued_for(
    c: Claims,
    user_id: u128,
    email: Seq<char>,
    role: Seq<char>,
    jti: Seq<char>,
    now: i64,
    expires_in: i64,
    kind: TokenKind,
) -> bool {
    &&& c.sub@ == uuid_text(user_id)
    &&& c.email@ == email
    &&& c.role@ == role
    &&& c.jti@ == jti
    &&& c.iat == now
    &&& c.exp == now + expires_in
    &&& c.token_type@ == kind_text(kind)
}

/// Assembles the claims of a token issued at `now`, valid for `expires_in`
/// seconds.
pub fn build_claims(
    user_id: u128,
    email: &str,
    role: &str,
    jti: &str,
    now: i64,
    expires_in: i64,
    kind: TokenKind,
) -> (c: Claims)
    requires
        i64::MIN <= now + expires_in <= i64::MAX,
    ensures
        issued_for(c, user_id, email@, role@, jti@, now, expires_in, kind),
{
    Claims {
        sub: format_uuid(user_id),
        email: String::from_str(email),
        role: String::from_str(role),
        jti: String::from_str(jti),
        exp: now + expires_in,
        iat: now,
        token_type: String::from_str(kind.as_str()),
    }
}

/// Whether a UUID carries version 4 and the RFC 4122 variant, as every
/// randomly generated one does.
pub open spec fn is_v4(id: u128) -> bool {
    (id >> 76u128) & 0xfu128 == 4 && (id >> 62u128) & 0x3u128 == 2
}

/// Whether a token issued at `now` with lifetime `expires_in` has an expiry
/// that fits in an `i64`.
pub open spec fn expiry_fits(now: i64, expires_in: i64) -> bool {
    i64::MIN <= now + expires_in <= i64::MAX
}

/// Claims for a new token of `kind`: a fresh random version-4 UUID becomes
/// its `jti` and the clock gives its issue time. `None` when the expiry
/// would not fit in an `i64` at the time read, which no lifetime up to
/// `i64::MAX - max_timestamp()` can cause.
pub fn issue_claims(user_id: u128, email: &str, role: &str, expires_in: i64, kind: TokenKind) -> (c:
    Option<Claims>)
    ensures
        c matches Some(c) ==> exists|jti_id: u128|
            #[trigger] issued_for(c, user_id, email@, role@, uuid_text(jti_id), c.iat, expires_in, kind)
                && is_v4(jti_id),
        c matches Some(c) ==> 0 <= c.iat <= max_timestamp() && uuid_parse(c.jti@) is Some,
        c is None ==> exists|now: i64|
            0 <= now <= max_timestamp() && !#[trigger] expiry_fits(now, expires_in),
        expires_in <= i64::MAX - max_timestamp() ==> c is Some,
{
    let now = unix_now();
    match now.checked_add(expires_in) {
        Some(_) => {
            let jti_id = random_uuid();
            let jti = format_uuid(jti_id);
            let c = build_claims(user_id, email, role, jti.as_str(), now, expires_in, kind);
            assert(issued_for(c, user_id, email@, role@, uuid_text(jti_id), c.iat, expires_in, kind));
            Some(c)
        },
        None => {
            assert(!expiry_fits(now, expires_in));
            None
        },
    }
}

} // verus!
