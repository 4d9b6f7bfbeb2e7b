use vstd::prelude::*;

verus! {

/// The category of a failed request; each category answers with one HTTP status.
#[derive(Clone, Copy, Debug, PartialEq, Eq, Structural)]
pub enum ErrorKind {
    Validation,
    Unauthorized,
    Forbidden,
    NotFound,
    Conflict,
    Internal,
    Argon2,
    Database,
    Cache,
    Token,
}

/// Every way a request can fail, each with the message shown to the client.
#[derive(Debug, Clone, PartialEq, Eq)]
pub enum AppError {
    Validation(String),
    Unauthorized(String),
    Forbidden(String),
    NotFound(String),
    Conflict(String),
    Internal(String),
    Argon2(String),
    Database(String),
    Cache(String),
    Token(String),
}

impl View for AppError {
    type V = (ErrorKind, Seq<char>);

    open spec fn view(&self) -> (ErrorKind, Seq<char>) {
        match self {
            AppError::Validation(m) => (ErrorKind::Validation, m@),
            AppError::Unauthorized(m) => (ErrorKind::Unauthorized, m@),
            AppError::Forbidden(m) => (ErrorKind::Forbidden, m@),
            AppError::NotFound(m) => (ErrorKind::NotFound, m@),
            AppError::Conflict(m) => (ErrorKind::Conflict, m@),
            AppError::Internal(m) => (ErrorKind::Internal, m@),
            AppError::Argon2(m) => (ErrorKind::Argon2, m@),
            AppError::Database(m) => (ErrorKind::Database, m@),
            AppError::Cache(m) => (ErrorKind::Cache, m@),
            AppError::Token(m) => (ErrorKind::Token, m@),
        }
    }
}

/// The HTTP status that answers each kind of failure.
pub open spec fn spec_status(kind: ErrorKind) -> u16 {
    match kind {
        ErrorKind::Validation => 400,
        ErrorKind::Unauthorized => 401,
        ErrorKind::Forbidden => 403,
        ErrorKind::NotFound => 404,
        ErrorKind::Conflict => 409,
        _ => 500,
    }
}

/// A failure whose kind and message are exactly the given ones.
pub open spec fn fails_with<T>(r: Result<T, AppError>, kind: ErrorKind, msg: Seq<char>) -> bool {
    r matches Err(e) && e@ == (kind, msg)
}

impl AppError {
    /// The category of this failure.
    pub fn kind(&self) -> (k: ErrorKind)
        ensures
            k == self@.0,
    {
        match self {
            AppError::Validation(_) => ErrorKind::Validation,
            AppError::Unauthorized(_) => ErrorKind::Unauthorized,
            AppError::Forbidden(_) => ErrorKind::Forbidden,
            AppError::NotFound(_) => ErrorKind::NotFound,
            AppError::Conflict(_) => ErrorKind::Conflict,
            AppError::Internal(_) => ErrorKind::Internal,
            AppError::Argon2(_) => ErrorKind::Argon2,
            AppError::Database(_) => ErrorKind::Database,
            AppError::Cache(_) => ErrorKind::Cache,
            AppError::Token(_) => ErrorKind::Token,
        }
    }

    /// The message shown to the client.
    pub fn message(&self) -> (m: &str)
        ensures
            m@ == self@.1,
    {
        match self {
            AppError::Validation(m) => m.as_str(),
            AppError::Unauthorized(m) => m.as_str(),
            AppError::Forbidden(m) => m.as_str(),
            AppError::NotFound(m) => m.as_str(),
            AppError::Conflict(m) => m.as_str(),
            AppError::Internal(m) => m.as_str(),
            AppError::Argon2(m) => m.as_str(),
            AppError::Database(m) => m.as_str(),
            AppError::Cache(m) => m.as_str(),
            AppError::Token(m) => m.as_str(),
        }
    }

    /// The HTTP status code of the response that reports this failure.
    pub fn status_code(&self) -> (code: u16)
        ensures
            code == spec_status(self@.0),
    {
        match self.kind() {
            ErrorKind::Validation => 400,
            ErrorKind::Unauthorized => 401,
            ErrorKind::Forbidden => 403,
            ErrorKind::NotFound => 404,
            ErrorKind::Conflict => 409,
            _ => 500,
        }
    }
}

} // verus!
