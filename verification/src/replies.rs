use vstd::prelude::*;

use crate::models::{public_part, User, UserResponse};

verus! {

/// A successful answer about one account, with an optional notice.
#[derive(Debug, Clone, PartialEq, Eq)]
pub struct UserReply {
    pub success: bool,
    pub message: Option<String>,
    pub user: UserResponse,
}

/// A successful answer listing accounts.
#[derive(Debug, Clone, PartialEq, Eq)]
pub struct UserListReply {
    pub success: bool,
    pub total: usize,
    pub users: Vec<UserResponse>,
}

/// A successful answer that only carries a notice.
#[derive(Debug, Clone, PartialEq, Eq)]
pub struct MessageReply {
    pub success: bool,
    pub message: String,
}

/// The answer to a successful login.
#[derive(Debug, Clone, PartialEq, Eq)]
pub struct AuthResponse {
    pub success: bool,
    pub access_token: String,
    pub refresh_token: String,
    pub user: UserResponse,
}

/// The answer to a successful refresh.
#[derive(Debug, Clone, PartialEq, Eq)]
pub struct AccessTokenReply {
    pub success: bool,
    pub access_token: String,
}

/// `r` is a successful answer about `user` carrying the notice `msg`.
pub open spec fn user_reply_with(r: UserReply, user: User, msg: Seq<char>) -> bool {
    &&& r.success
    &&& r.message matches Some(m) && m@ == msg
    &&& r.user == public_part(user)
}

/// `r` is a successful answer about `user` without a notice.
pub open spec fn plain_user_reply(r: UserReply, user: User) -> bool {
    &&& r.success
    &&& r.message is None
    &&& r.user == public_part(user)
}

/// A successful answer about `user`, with an optional notice.
pub fn user_reply(user: User, message: Option<&str>) -> (r: UserReply)
    ensures
        r.success,
        r.user == public_part(user),
        match message {
            Some(m) => r.message matches Some(rm) && rm@ == m@,
            None => r.message is None,
        },
{
    let message = match message {
        Some(m) => Some(String::from_str(m)),
        None => None,
    };
    UserReply { success: true, message, user: UserResponse::from(user) }
}

/// A successful answer carrying only a notice.
pub fn message_reply(message: &str) -> (r: MessageReply)
    ensures
        r.success,
        r.message@ == message@,
{
    MessageReply { success: true, message: String::from_str(message) }
}

/// The answer to a successful login.
pub fn auth_response(access_token: String, refresh_token: String, user: User) -> (r: AuthResponse)
    ensures
        r == (AuthResponse {
            success: true,
            access_token,
            refresh_token,
            user: public_part(user),
        }),
{
    AuthResponse { success: true, access_token, refresh_token, user: UserResponse::from(user) }
}

/// The answer to a successful refresh.
pub fn access_token_reply(access_token: String) -> (r: AccessTokenReply)
    ensures
        r == (AccessTokenReply { success: true, access_token }),
{
    AccessTokenReply { success: true, access_token }
}

/// Lists accounts in the order given, with their number.
pub fn user_list(users: Vec<User>) -> (r: UserListReply)
    ensures
        r.success,
        r.total == users@.len(),
        r.users@ == users@.map_values(|u: User| public_part(u)),
{
    let ghost original = users@;
    let n = users.len();
    let mut out: Vec<UserResponse> = Vec::new();
    let mut rest = users;
    while rest.len() > 0
        invariant
            n == original.len(),
            rest@.len() <= n,
            rest@ =~= original.subrange(0, rest@.len() as int),
            out@ =~= original.subrange(rest@.len() as int, n as int).map_values(
                |u: User| public_part(u),
            ),
        decreases rest.len(),
    {
        let ghost k = rest@.len() - 1;
        let u = rest.pop().unwrap();
        assert(u == original[k]);
        out.insert(0, UserResponse::from(u));
        assert(original.subrange(k, n as int) =~= seq![original[k]] + original.subrange(k + 1, n as int));
    }
    assert(original.subrange(0, n as int) =~= original);
    UserListReply { success: true, total: n, users: out }
}

/// A listing shows every account in the order given, each exactly as
/// stored (minus the hash), so inactive accounts are listed as inactive.
pub proof fn lemma_listing_shows_rows(users: Seq<User>, r: UserListReply, i: int)
    requires
        r.total == users.len(),
        r.users@ == users.map_values(|u: User| public_part(u)),
        0 <= i < users.len(),
    ensures
        r.users@.len() == users.len(),
        r.users@[i].id == users[i].id,
        r.users@[i].email@ == users[i].email@,
        r.users@[i].name@ == users[i].name@,
        r.users@[i].role@ == users[i].role@,
        r.users@[i].is_active == users[i].is_active,
        r.users@[i].created_at == users[i].created_at,
        r.users@[i].updated_at == users[i].updated_at,
{
}

} // verus!
