use vstd::prelude::*;

use crate::models::User;
use crate::passwords::hash_answer;
use crate::requests::RegisterRequest;
use crate::sessions::{availability_answer, login_answer};

verus! {

/// The role every new account starts with.
pub open spec fn default_role() -> Seq<char> {
    "user"@
}

/// The account a registration inserts: the form's name and e-mail, the
/// password's hash, the default role, active, created and updated at `now`
/// (microseconds since the Unix epoch).
pub open spec fn account_for(u: User, id: u128, name: Seq<char>, email: Seq<char>, phc: Seq<char>, now: i64) -> bool {
    &&& u.id == id
    &&& u.name@ == name
    &&& u.email@ == email
    &&& u.password_hash@ == phc
    &&& u.role@ == default_role()
    &&& u.is_active
    &&& u.created_at == now
    &&& u.updated_at == now
}

/// The row to insert for a registration with this id, stored hash and time.
pub fn new_account(req: &RegisterRequest, id: u128, password_hash: &str, now: i64) -> (u: User)
    ensures
        account_for(u, id, req.name@, req.email@, password_hash@, now),
{
    User {
        id,
        email: String::from_str(req.email.as_str()),
        name: String::from_str(req.name.as_str()),
        password_hash: String::from_str(password_hash),
        role: String::from_str("user"),
        is_active: true,
        created_at: now,
        updated_at: now,
    }
}

// ── A model of the users table ──────────────────────────────────────────────

/// No two accounts share an e-mail.
pub open spec fn emails_distinct(table: Seq<User>) -> bool {
    forall|i: int, j: int|
        0 <= i < table.len() && 0 <= j < table.len() && i != j ==> #[trigger] table[i].email@
            != #[trigger] table[j].email@
}

/// Whether some account has this e-mail (what the registration query asks).
pub open spec fn email_taken(table: Seq<User>, email: Seq<char>) -> bool {
    exists|i: int| 0 <= i < table.len() && #[trigger] table[i].email@ == email
}

/// Whether row `i` is an active account with this e-mail.
pub open spec fn active_with(table: Seq<User>, email: Seq<char>, i: int) -> bool {
    0 <= i < table.len() && table[i].email@ == email && table[i].is_active
}

/// The active account with this e-mail, if any (what the login query finds).
pub open spec fn find_active(table: Seq<User>, email: Seq<char>) -> Option<User> {
    if exists|i: int| #[trigger] active_with(table, email, i) {
        Some(table[choose|i: int| #[trigger] active_with(table, email, i)])
    } else {
        None
    }
}

/// The table after a registration: the new account is added only when the
/// registration succeeded.
pub open spec fn after_register(table: Seq<User>, ok: bool, inserted: User) -> Seq<User> {
    if ok {
        table.push(inserted)
    } else {
        table
    }
}

/// Registration keeps e-mails unique: an account is inserted only after the
/// check that no account has its e-mail passed, so a table without shared
/// e-mails stays so, whatever the registration answered.
pub proof fn lemma_register_keeps_emails_distinct(
    table: Seq<User>,
    email: Seq<char>,
    available: Result<(), crate::errors::AppError>,
    inserted: User,
    ok: bool,
)
    requires
        emails_distinct(table),
        availability_answer(email_taken(table, email), available),
        inserted.email@ == email,
        ok ==> available is Ok,
    ensures
        emails_distinct(after_register(table, ok, inserted)),
{
    if ok {
        let after = table.push(inserted);
        assert forall|i: int, j: int|
            0 <= i < after.len() && 0 <= j < after.len() && i != j implies #[trigger] after[i].email@
                != #[trigger] after[j].email@ by {
            if i == table.len() as int {
                assert(table[j].email@ != email);
            } else if j == table.len() as int {
                assert(table[i].email@ != email);
            } else {
                assert(table[i].email@ != table[j].email@);
            }
        }
    }
}

/// A registered account can log in: after registering with a password,
/// logging in with the same e-mail and password finds the new account and
/// accepts it, with the form's name and e-mail and the default role.
pub proof fn lemma_register_then_login(
    table: Seq<User>,
    req: RegisterRequest,
    id: u128,
    stored: Result<String, crate::errors::AppError>,
    inserted: User,
    now: i64,
    login: Result<User, crate::errors::AppError>,
)
    requires
        !email_taken(table, req.email@),
        hash_answer(req.password@, stored),
        stored matches Ok(phc) && account_for(inserted, id, req.name@, req.email@, phc@, now),
        login_answer(req.password@, find_active(table.push(inserted), req.email@), login),
    ensures
        login == Ok::<User, crate::errors::AppError>(inserted),
        inserted.email@ == req.email@,
        inserted.name@ == req.name@,
        inserted.role@ == "user"@,
{
    let after = table.push(inserted);
    let n = table.len() as int;
    assert(active_with(after, req.email@, n));
    let k = choose|i: int| #[trigger] active_with(after, req.email@, i);
    if k < n {
        assert(table[k].email@ == req.email@);
        assert(email_taken(table, req.email@));
    }
    assert(find_active(after, req.email@) == Some(inserted));
}

} // verus!
