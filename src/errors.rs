//! Error taxonomy: domain validation errors, the errors that reach the
//! boundary, and the table that gives each of them a status and a severity.
use vstd::prelude::*;

verus! {

/// A rule of the domain was broken by an input.
#[derive(Debug, Clone, PartialEq, Eq)]
pub enum DomainError {
    Validation(String),
}

impl DomainError {
    pub fn validation(message: &str) -> (r: Self)
        ensures
            r.message_view() == message@,
    {
        DomainError::Validation(message.to_owned())
    }

    pub open spec fn message_view(&self) -> Seq<char> {
        match self {
            DomainError::Validation(m) => m@,
        }
    }

    pub fn message(&self) -> (r: &str)
        ensures
            r@ == self.message_view(),
    {
        match self {
            DomainError::Validation(m) => m.as_str(),
        }
    }
}

/// Errors that cross the boundary of the service.
#[derive(Debug, Clone, PartialEq, Eq)]
pub enum AppError {
    Validation(String),
    NotFound(String),
    Conflict(String),
    Unauthorized(String),
    Forbidden(String),
    Database(String),
    Unexpected(String),
}

/// How loudly an error is logged at the boundary.
#[derive(Debug, Clone, Copy, PartialEq, Eq, Structural)]
pub enum Severity {
    Warning,
    Error,
}

pub open spec fn status_of(e: AppError) -> u16 {
    match e {
        AppError::Validation(_) => 400,
        AppError::NotFound(_) => 404,
        AppError::Conflict(_) => 409,
        AppError::Unauthorized(_) => 401,
        AppError::Forbidden(_) => 403,
        AppError::Database(_) => 500,
        AppError::Unexpected(_) => 500,
    }
}

pub open spec fn severity_of(e: AppError) -> Severity {
    match e {
        AppError::Database(_) | AppError::Unexpected(_) => Severity::Error,
        _ => Severity::Warning,
    }
}

/// The fixed prefix of the text of each kind of error.
pub open spec fn error_prefix(e: AppError) -> Seq<char> {
    match e {
        AppError::Validation(_) => "validation error: "@,
        AppError::NotFound(_) => "resource not found: "@,
        AppError::Conflict(_) => "conflict detected: "@,
        AppError::Unauthorized(_) => "unauthorized: "@,
        AppError::Forbidden(_) => "forbidden: "@,
        AppError::Database(_) => "database error: "@,
        AppError::Unexpected(_) => "unexpected error: "@,
    }
}

pub open spec fn error_detail(e: AppError) -> Seq<char> {
    match e {
        AppError::Validation(m) => m@,
        AppError::NotFound(m) => m@,
        AppError::Conflict(m) => m@,
        AppError::Unauthorized(m) => m@,
        AppError::Forbidden(m) => m@,
        AppError::Database(m) => m@,
        AppError::Unexpected(m) => m@,
    }
}

/// The text of an error, as the caller sees it.
pub open spec fn error_text(e: AppError) -> Seq<char> {
    error_prefix(e) + error_detail(e)
}

impl AppError {
    /// HTTP status code of the error.
    pub fn status(&self) -> (r: u16)
        ensures
            r == status_of(*self),
    {
        match self {
            AppError::Validation(_) => 400,
            AppError::NotFound(_) => 404,
            AppError::Conflict(_) => 409,
            AppError::Unauthorized(_) => 401,
            AppError::Forbidden(_) => 403,
            AppError::Database(_) => 500,
            AppError::Unexpected(_) => 500,
        }
    }

    /// Client errors are warnings; infrastructure errors are errors.
    pub fn severity(&self) -> (r: Severity)
        ensures
            r == severity_of(*self),
    {
        match self {
            AppError::Database(_) | AppError::Unexpected(_) => Severity::Error,
            _ => Severity::Warning,
        }
    }

    /// The text of the error: a fixed prefix for its kind, then its detail.
    pub fn describe(&self) -> (r: String)
        ensures
            r@ == error_text(*self),
    {
        let (prefix, detail) = match self {
            AppError::Validation(m) => ("validation error: ", m),
            AppError::NotFound(m) => ("resource not found: ", m),
            AppError::Conflict(m) => ("conflict detected: ", m),
            AppError::Unauthorized(m) => ("unauthorized: ", m),
            AppError::Forbidden(m) => ("forbidden: ", m),
            AppError::Database(m) => ("database error: ", m),
            AppError::Unexpected(m) => ("unexpected error: ", m),
        };
        let mut r = prefix.to_owned();
        r.append(detail.as_str());
        r
    }

    /// The error a domain validation failure becomes at the boundary.
    pub fn from_domain(e: DomainError) -> (r: AppError)
        ensures
            r == (match e {
                DomainError::Validation(m) => AppError::Validation(m),
            }),
    {
        match e {
            DomainError::Validation(m) => AppError::Validation(m),
        }
    }
}

/// The SQLSTATE code of a unique-constraint violation.
pub open spec fn unique_violation() -> Seq<char> {
    "23505"@
}

/// Classifies a storage failure: a missing row is `NotFound`, a unique
/// violation is `Conflict` with the database's message, anything else is a
/// `Database` error with its full text.
pub fn classify_database_error(row_not_found: bool, code: Option<&str>, message: &str, text: &str) -> (r: AppError)
    ensures
        if row_not_found {
            r matches AppError::NotFound(m) && m@ == "resource not found"@
        } else if code is Some && code->Some_0@ == unique_violation() {
            r matches AppError::Conflict(m) && m@ == message@
        } else {
            r matches AppError::Database(m) && m@ == text@
        },
{
    if row_not_found {
        return AppError::NotFound("resource not found".to_owned());
    }
    if let Some(c) = code {
        if crate::text::eq_text(c, "23505") {
            return AppError::Conflict(message.to_owned());
        }
    }
    AppError::Database(text.to_owned())
}

/// The text a caller sees: infrastructure errors are reduced to one generic
/// text, so that no internal detail leaves the process.
pub open spec fn public_text(e: AppError) -> Seq<char> {
    match e {
        AppError::Database(_) | AppError::Unexpected(_) => "internal server error"@,
        _ => error_text(e),
    }
}

/// Body of an error response: one field with the text of the error.
#[derive(Debug, Clone, PartialEq, Eq)]
pub struct ErrorResponse {
    pub error: String,
}

impl ErrorResponse {
    pub fn from_error(e: &AppError) -> (r: ErrorResponse)
        ensures
            r.error@ == public_text(*e),
    {
        match e {
            AppError::Database(_) | AppError::Unexpected(_) => ErrorResponse {
                error: "internal server error".to_owned(),
            },
            _ => ErrorResponse { error: e.describe() },
        }
    }
}

} // verus!
