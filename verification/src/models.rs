use vstd::prelude::*;

verus! {

/// A stored account. Timestamps are microseconds since the Unix epoch.
#[derive(Debug, Clone, PartialEq, Eq)]
pub struct User {
    pub id: u128,
    pub email: String,
    pub name: String,
    pub password_hash: String,
    pub role: String,
    pub is_active: bool,
    pub created_at: i64,
    pub updated_at: i64,
}

/// What clients may see of an account: everything but the password hash.
#[derive(Debug, Clone, PartialEq, Eq)]
pub struct UserResponse {
    pub id: u128,
    pub email: String,
    pub name: String,
    pub role: String,
    pub is_active: bool,
    pub created_at: i64,
    pub updated_at: i64,
}

/// The public part of an account.
pub open spec fn public_part(u: User) -> UserResponse {
    UserResponse {
        id: u.id,
        email: u.email,
        name: u.name,
        role: u.role,
        is_active: u.is_active,
        created_at: u.created_at,
        updated_at: u.updated_at,
    }
}

impl From<User> for UserResponse {
    fn from(u: User) -> (r: UserResponse)
        ensures
            r.id == u.id,
            r.email == u.email,
            r.name == u.name,
            r.role == u.role,
            r.is_active == u.is_active,
            r.created_at == u.created_at,
            r.updated_at == u.updated_at,
    {
        UserResponse {
            id: u.id,
            email: u.email,
            name: u.name,
            role: u.role,
            is_active: u.is_active,
            created_at: u.created_at,
            updated_at: u.updated_at,
        }
    }
}

impl vstd::std_specs::convert::FromSpecImpl<User> for UserResponse {
    open spec fn obeys_from_spec() -> bool {
        true
    }

    open spec fn from_spec(u: User) -> UserResponse {
        public_part(u)
    }
}

/// What a client is shown of an account is the stored account itself, field
/// for field, minus the password hash: in particular a deactivated account is
/// shown as inactive.
pub proof fn lemma_public_part_keeps_fields(u: User)
    ensures
        public_part(u).id == u.id,
        public_part(u).email@ == u.email@,
        public_part(u).name@ == u.name@,
        public_part(u).role@ == u.role@,
        public_part(u).is_active == u.is_active,
        public_part(u).created_at == u.created_at,
        public_part(u).updated_at == u.updated_at,
{
}

} // verus!
