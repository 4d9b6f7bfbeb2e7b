use vstd::prelude::*;

use argon2::password_hash::rand_core::OsRng;
use argon2::password_hash::{PasswordHash, PasswordHasher, PasswordVerifier, SaltString};
use argon2::Argon2;

use crate::errors::{AppError, ErrorKind};

verus! {

/// What `argon2::PasswordHash::new` says of a PHC string: `None` when it
/// parses, otherwise the text of the parse error.
pub uninterp spec fn phc_rejection(phc: Seq<char>) -> Option<Seq<char>>;

/// Whether `Argon2::default().verify_password` accepts `password` (as UTF-8
/// bytes) against the parsed PHC string.
pub uninterp spec fn argon2_accepts(password: Seq<char>, phc: Seq<char>) -> bool;

/// Hashes with Argon2 under default parameters and a salt drawn from
/// `OsRng` (`SaltString::generate`, `Argon2::hash_password`, then the PHC
/// text). Trusted: the salt is random, so the hash itself is not stated;
/// what is stated is what the crate documents, that the PHC text parses and
/// verifies against the same password. With default parameters and a
/// generated 16-byte salt, hashing fails only for a password longer than
/// `MAX_PWD_LEN` (`0xFFFF_FFFF`) bytes; a password of at most
/// `0x3FFF_FFFF` characters (4 bytes each at most) is always hashed.
/// On failure, the error's text.
#[verifier::external_body]
fn hash_with_random_salt(password: &str) -> (r: Result<String, String>)
    ensures
        r matches Ok(phc) ==> phc_rejection(phc@) is None && argon2_accepts(password@, phc@),
        password@.len() <= 0x3FFF_FFFF ==> r is Ok,
{
    let salt = SaltString::generate(&mut OsRng);
    match Argon2::default().hash_password(password.as_bytes(), &salt) {
        Ok(hash) => Ok(hash.to_string()),
        Err(e) => Err(e.to_string()),
    }
}

/// Parses a PHC string (`PasswordHash::new`) and checks a password against
/// it (`Argon2::default().verify_password`). Trusted: a parse failure gives
/// its error text, otherwise the answer is `argon2_accepts`.
#[verifier::external_body]
fn check_password(password: &str, phc: &str) -> (r: Result<bool, String>)
    ensures
        match r {
            Ok(ok) => phc_rejection(phc@) is None && ok == argon2_accepts(password@, phc@),
            Err(msg) => phc_rejection(phc@) == Some(msg@),
        },
{
    match PasswordHash::new(phc) {
        Ok(parsed) => Ok(Argon2::default().verify_password(password.as_bytes(), &parsed).is_ok()),
        Err(e) => Err(e.to_string()),
    }
}

/// What hashing a new password answers: a PHC string that verifies against
/// the password, always for a password of at most `0x3FFF_FFFF` characters;
/// otherwise possibly an `Argon2` error.
pub open spec fn hash_answer(password: Seq<char>, r: Result<String, AppError>) -> bool {
    &&& match r {
        Ok(phc) => phc_rejection(phc@) is None && argon2_accepts(password, phc@),
        Err(e) => e@.0 == ErrorKind::Argon2,
    }
    &&& password.len() <= 0x3FFF_FFFF ==> r is Ok
}

/// Hashes a password for storage; a hashing failure is an `Argon2` error
/// with the crate's message.
pub fn hash_new_password(password: &str) -> (r: Result<String, AppError>)
    ensures
        hash_answer(password@, r),
{
    match hash_with_random_salt(password) {
        Ok(phc) => Ok(phc),
        Err(msg) => Err(AppError::Argon2(msg)),
    }
}

/// What checking a password against a stored PHC string answers.
pub open spec fn password_answer(password: Seq<char>, phc: Seq<char>, r: Result<bool, AppError>) -> bool {
    match phc_rejection(phc) {
        Some(msg) => r matches Err(e) && e@ == (ErrorKind::Argon2, msg),
        None => r == Ok::<bool, AppError>(argon2_accepts(password, phc)),
    }
}

/// Checks a password against a stored hash. A stored hash that does not
/// parse is an `Argon2` error carrying the parser's message.
pub fn password_matches(password: &str, phc: &str) -> (r: Result<bool, AppError>)
    ensures
        password_answer(password@, phc@, r),
{
    match check_password(password, phc) {
        Ok(ok) => Ok(ok),
        Err(msg) => Err(AppError::Argon2(msg)),
    }
}

/// A password that was hashed successfully is accepted against its hash:
/// whatever `hash_new_password` stores, `password_matches` later answers
/// `Ok(true)` for the same password.
pub proof fn lemma_hash_then_check(password: Seq<char>, stored: Result<String, AppError>, phc: Seq<char>, checked: Result<bool, AppError>)
    requires
        hash_answer(password, stored),
        stored matches Ok(h) && h@ == phc,
        password_answer(password, phc, checked),
    ensures
        checked == Ok::<bool, AppError>(true),
{
}

} // verus!
