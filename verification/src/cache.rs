use vstd::prelude::*;

verus! {

/// The prefix under which the id of a user's current refresh token is stored.
pub open spec fn refresh_prefix() -> Seq<char> {
    "refresh_token:"@
}

/// The prefix under which revoked access tokens are stored.
pub open spec fn blacklist_prefix() -> Seq<char> {
    "blacklist:"@
}

/// Cache key holding the `jti` of the refresh token last issued to a user.
pub open spec fn spec_refresh_token_key(user_id: Seq<char>) -> Seq<char> {
    refresh_prefix() + user_id
}

/// Cache key marking an access token (by its `jti`) as logged out.
pub open spec fn spec_blacklist_key(jti: Seq<char>) -> Seq<char> {
    blacklist_prefix() + jti
}

/// Builds `refresh_token:<user_id>`.
pub fn refresh_token_key(user_id: &str) -> (key: String)
    ensures
        key@ == spec_refresh_token_key(user_id@),
{
    let mut key = String::from_str("refresh_token:");
    key.append(user_id);
    key
}

/// Builds `blacklist:<jti>`.
pub fn blacklist_key(jti: &str) -> (key: String)
    ensures
        key@ == spec_blacklist_key(jti@),
{
    let mut key = String::from_str("blacklist:");
    key.append(jti);
    key
}

/// The cache store after `SET key value EX ttl` at time `now`. The store is
/// modelled as a map from each key to its value and the Unix time (in
/// seconds) at which it expires.
pub open spec fn set_with_ttl(
    store: Map<Seq<char>, (Seq<char>, int)>,
    key: Seq<char>,
    value: Seq<char>,
    ttl: int,
    now: int,
) -> Map<Seq<char>, (Seq<char>, int)> {
    store.insert(key, (value, now + ttl))
}

/// The store after `DEL key`.
pub open spec fn without_key(store: Map<Seq<char>, (Seq<char>, int)>, key: Seq<char>) -> Map<
    Seq<char>,
    (Seq<char>, int),
> {
    store.remove(key)
}

/// Whether `key` holds a value that has not expired at time `t` (what
/// `EXISTS` answers).
pub open spec fn live(store: Map<Seq<char>, (Seq<char>, int)>, key: Seq<char>, t: int) -> bool {
    store.contains_key(key) && t < store[key].1
}

/// What `GET key` answers at time `t`.
pub open spec fn read_at(store: Map<Seq<char>, (Seq<char>, int)>, key: Seq<char>, t: int) -> Option<
    Seq<char>,
> {
    if live(store, key, t) {
        Some(store[key].0)
    } else {
        None
    }
}

/// Distinct users get distinct refresh-token keys, and distinct tokens get
/// distinct blacklist keys: a key names exactly one user or one token.
pub proof fn lemma_keys_injective(a: Seq<char>, b: Seq<char>)
    ensures
        spec_refresh_token_key(a) == spec_refresh_token_key(b) ==> a == b,
        spec_blacklist_key(a) == spec_blacklist_key(b) ==> a == b,
{
    let rp = refresh_prefix();
    let bp = blacklist_prefix();
    assert((rp + a).subrange(rp.len() as int, (rp + a).len() as int) =~= a);
    assert((rp + b).subrange(rp.len() as int, (rp + b).len() as int) =~= b);
    assert((bp + a).subrange(bp.len() as int, (bp + a).len() as int) =~= a);
    assert((bp + b).subrange(bp.len() as int, (bp + b).len() as int) =~= b);
}

/// No refresh-token key is ever a blacklist key, so logging a token out can
/// never overwrite or delete a stored refresh session, and vice versa.
pub proof fn lemma_key_namespaces_disjoint(user_id: Seq<char>, jti: Seq<char>)
    ensures
        spec_refresh_token_key(user_id) != spec_blacklist_key(jti),
{
    reveal_strlit("refresh_token:");
    reveal_strlit("blacklist:");
    assert(spec_refresh_token_key(user_id)[0] == 'r');
    assert(spec_blacklist_key(jti)[0] == 'b');
}

} // verus!
