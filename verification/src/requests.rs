use vstd::prelude::*;

use crate::errors::AppError;

verus! {

/// Body of `POST /auth/register`.
#[derive(Debug, Clone, PartialEq, Eq)]
pub struct RegisterRequest {
    pub name: String,
    pub email: String,
    pub password: String,
}

/// Body of `POST /auth/login`.
#[derive(Debug, Clone, PartialEq, Eq)]
pub struct LoginRequest {
    pub email: String,
    pub password: String,
}

/// Body of `POST /auth/refresh`.
#[derive(Debug, Clone, PartialEq, Eq)]
pub struct RefreshRequest {
    pub refresh_token: String,
}

/// Body of `PATCH /admin/users/:id/role`.
#[derive(Debug, Clone, PartialEq, Eq)]
pub struct UpdateRoleRequest {
    pub role: String,
}

/// Whether `validator::validate_email` accepts a text (the HTML5 e-mail
/// grammar with length limits and IDN and IP-literal domains).
pub uninterp spec fn email_accepted(text: Seq<char>) -> bool;

/// Calls `validator::validate_email`. Trusted: the answer is
/// `email_accepted`, and no text without an `@` is accepted (the crate
/// rejects such texts before anything else).
#[verifier::external_body]
fn email_is_valid(value: &str) -> (ok: bool)
    ensures
        ok == email_accepted(value@),
        ok ==> value@.contains('@'),
{
    validator::validate_email(value)
}

/// `validator::validate_length` on a string: the number of characters lies
/// within the given bounds.
pub open spec fn length_ok(text: Seq<char>, min: Option<u64>, max: Option<u64>) -> bool {
    &&& (min matches Some(lo) ==> lo <= text.len())
    &&& (max matches Some(hi) ==> text.len() <= hi)
}

/// Calls `validator::validate_length` with no exact length. Trusted: a
/// string's length is its number of `char`s, compared with both bounds.
#[verifier::external_body]
fn length_within(value: &str, min: Option<u64>, max: Option<u64>) -> (ok: bool)
    ensures
        ok == length_ok(value@, min, max),
{
    validator::validate_length(value, min, max, None)
}

/// An empty report of failed checks (`validator::ValidationErrors`).
#[verifier::external_type_specification]
#[verifier::external_body]
pub struct ExValidationErrors(validator::ValidationErrors);

/// One failed check (`validator::ValidationError`).
#[verifier::external_type_specification]
#[verifier::external_body]
pub struct ExValidationError(validator::ValidationError);

/// Calls `validator::ValidationErrors::new`. The report is opaque: nothing
/// is stated of it.
#[verifier::external_body]
fn empty_report() -> validator::ValidationErrors {
    validator::ValidationErrors::new()
}

/// Calls `validator::ValidationError::new(code)` and `add_param` with the
/// parameters the crate's derive records for a length check with both
/// bounds: `min`, `max` and the checked `value`. Nothing is stated of the
/// opaque result.
#[verifier::external_body]
fn length_problem_between(code: &'static str, value: &str, min: u64, max: u64) -> validator::ValidationError {
    let mut err = validator::ValidationError::new(code);
    err.add_param(std::borrow::Cow::from("min"), &min);
    err.add_param(std::borrow::Cow::from("max"), &max);
    err.add_param(std::borrow::Cow::from("value"), &value);
    err
}

/// Calls `validator::ValidationError::new(code)` and `add_param` with the
/// parameters the crate's derive records for a length check with a lower
/// bound only: `min` and the checked `value`. Nothing is stated of the
/// opaque result.
#[verifier::external_body]
fn length_problem_at_least(code: &'static str, value: &str, min: u64) -> validator::ValidationError {
    let mut err = validator::ValidationError::new(code);
    err.add_param(std::borrow::Cow::from("min"), &min);
    err.add_param(std::borrow::Cow::from("value"), &value);
    err
}

/// Calls `validator::ValidationError::new(code)` and `add_param` with the
/// parameter the crate's derive records for an e-mail check: the checked
/// `value`. Nothing is stated of the opaque result.
#[verifier::external_body]
fn email_problem(code: &'static str, value: &str) -> validator::ValidationError {
    let mut err = validator::ValidationError::new(code);
    err.add_param(std::borrow::Cow::from("value"), &value);
    err
}

/// Sets the `message` field of a failed check, which the crate then prints
/// in place of its code and parameters. Nothing is stated of the opaque
/// result.
#[verifier::external_body]
fn with_message(problem: validator::ValidationError, message: &'static str) -> validator::ValidationError {
    let mut problem = problem;
    problem.message = Some(std::borrow::Cow::from(message));
    problem
}

/// Calls `validator::ValidationErrors::add` to record a failed check of a
/// field. Nothing is stated of the opaque report.
#[verifier::external_body]
fn add_problem(report: &mut validator::ValidationErrors, field: &'static str, problem: validator::ValidationError) {
    report.add(field, problem)
}

/// The crate's `Display` text of a report. Its fields and parameters are
/// kept in `HashMap`s whose order is seeded per process, so the text is
/// not stated.
#[verifier::external_body]
fn report_text(report: &validator::ValidationErrors) -> String {
    report.to_string()
}

/// Whether a registration form passes: a name of 2 to 100 characters, a
/// valid e-mail and a password of at least 8 characters.
pub open spec fn register_ok(name: Seq<char>, email: Seq<char>, password: Seq<char>) -> bool {
    &&& length_ok(name, Some(2), Some(100))
    &&& email_accepted(email)
    &&& length_ok(password, Some(8), None)
}

/// Whether a login form passes: a valid e-mail.
pub open spec fn login_ok(email: Seq<char>) -> bool {
    email_accepted(email)
}

/// Whether a role-change form passes: a role of at least one character.
pub open spec fn role_form_ok(role: Seq<char>) -> bool {
    length_ok(role, Some(1), None)
}

/// The outcome of validating a form: `Ok` when it passes, otherwise a
/// validation error (whose text, the crate's report, is not stated).
pub open spec fn verdict(ok: bool, r: Result<(), AppError>) -> bool {
    if ok {
        r is Ok
    } else {
        r matches Err(e) && e@.0 == crate::errors::ErrorKind::Validation
    }
}

impl RegisterRequest {
    /// Name of 2 to 100 characters, a valid e-mail, a password of at least 8
    /// characters; otherwise a validation error reporting every failed field.
    pub fn validate(&self) -> (r: Result<(), AppError>)
        ensures
            verdict(register_ok(self.name@, self.email@, self.password@), r),
    {
        let mut report = empty_report();
        let mut failed = false;
        if !length_within(self.name.as_str(), Some(2), Some(100)) {
            add_problem(&mut report, "name", length_problem_between("length", self.name.as_str(), 2, 100));
            failed = true;
        }
        if !email_is_valid(self.email.as_str()) {
            add_problem(&mut report, "email", email_problem("email", self.email.as_str()));
            failed = true;
        }
        if !length_within(self.password.as_str(), Some(8), None) {
            let problem = with_message(
                length_problem_at_least("length", self.password.as_str(), 8),
                "Password minimal 8 karakter",
            );
            add_problem(&mut report, "password", problem);
            failed = true;
        }
        if failed {
            Err(AppError::Validation(report_text(&report)))
        } else {
            Ok(())
        }
    }
}

impl LoginRequest {
    /// A valid e-mail; the password is not checked here.
    pub fn validate(&self) -> (r: Result<(), AppError>)
        ensures
            verdict(login_ok(self.email@), r),
    {
        if email_is_valid(self.email.as_str()) {
            Ok(())
        } else {
            let mut report = empty_report();
            add_problem(&mut report, "email", email_problem("email", self.email.as_str()));
            Err(AppError::Validation(report_text(&report)))
        }
    }
}

impl UpdateRoleRequest {
    /// A role of at least one character.
    pub fn validate(&self) -> (r: Result<(), AppError>)
        ensures
            verdict(role_form_ok(self.role@), r),
    {
        if length_within(self.role.as_str(), Some(1), None) {
            Ok(())
        } else {
            let mut report = empty_report();
            add_problem(&mut report, "role", length_problem_at_least("length", self.role.as_str(), 1));
            Err(AppError::Validation(report_text(&report)))
        }
    }
}

/// Login validation is exactly validator's e-mail check: a login form
/// passes if and only if its e-mail is accepted.
pub proof fn lemma_login_validation_is_email_check(email: Seq<char>, password: Seq<char>, r: Result<(), AppError>)
    requires
        verdict(login_ok(email), r),
    ensures
        r is Ok <==> email_accepted(email),
{
}

/// An e-mail that registration accepted is accepted at login too.
pub proof fn lemma_registered_email_passes_login(
    name: Seq<char>,
    email: Seq<char>,
    password: Seq<char>,
    registered: Result<(), AppError>,
    login: Result<(), AppError>,
)
    requires
        verdict(register_ok(name, email, password), registered),
        registered is Ok,
        verdict(login_ok(email), login),
    ensures
        login is Ok,
{
}

} // verus!
