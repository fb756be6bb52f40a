//! The failures that a request can end in, and how each is answered.
use vstd::prelude::*;
use vstd::string::*;

verus! {

pub const OK: u16 = 200;

pub const CREATED: u16 = 201;

pub const NO_CONTENT: u16 = 204;

pub const UNAUTHORIZED: u16 = 401;

pub const NOT_FOUND: u16 = 404;

pub const INTERNAL_SERVER_ERROR: u16 = 500;

pub enum AppErrorView {
    DatabaseError(Seq<char>),
    AuthenticationError,
    UserNotFound,
    InvalidCredentials,
    NotFound,
    InternalServerError,
}

/// Why a request failed. A storage failure carries the store's message.
#[derive(Debug, PartialEq, Eq)]
pub enum AppError {
    DatabaseError(String),
    AuthenticationError,
    UserNotFound,
    InvalidCredentials,
    NotFound,
    InternalServerError,
}

impl View for AppError {
    type V = AppErrorView;

    open spec fn view(&self) -> AppErrorView {
        match self {
            AppError::DatabaseError(m) => AppErrorView::DatabaseError(m@),
            AppError::AuthenticationError => AppErrorView::AuthenticationError,
            AppError::UserNotFound => AppErrorView::UserNotFound,
            AppError::InvalidCredentials => AppErrorView::InvalidCredentials,
            AppError::NotFound => AppErrorView::NotFound,
            AppError::InternalServerError => AppErrorView::InternalServerError,
        }
    }
}

impl AppErrorView {
    /// The HTTP status that answers the failure.
    pub open spec fn status(self) -> u16 {
        match self {
            AppErrorView::DatabaseError(_) => INTERNAL_SERVER_ERROR,
            AppErrorView::AuthenticationError => UNAUTHORIZED,
            AppErrorView::UserNotFound => NOT_FOUND,
            AppErrorView::InvalidCredentials => UNAUTHORIZED,
            AppErrorView::NotFound => NOT_FOUND,
            AppErrorView::InternalServerError => INTERNAL_SERVER_ERROR,
        }
    }

    /// The text of the response body.
    pub open spec fn body(self) -> Seq<char> {
        match self {
            AppErrorView::DatabaseError(_) => "Database Error"@,
            AppErrorView::AuthenticationError => "Authentication Failed"@,
            AppErrorView::UserNotFound => "User Not Found"@,
            AppErrorView::InvalidCredentials => "Invalid Credentials"@,
            AppErrorView::NotFound => "Not Found"@,
            AppErrorView::InternalServerError => "Internal Server Error"@,
        }
    }

    /// The text that describes the failure to a reader of the log.
    pub open spec fn description(self) -> Seq<char> {
        match self {
            AppErrorView::DatabaseError(m) => "Database error: "@ + m,
            AppErrorView::AuthenticationError => "Authentication failed"@,
            AppErrorView::UserNotFound => "User not found"@,
            AppErrorView::InvalidCredentials => "Invalid credentials"@,
            AppErrorView::NotFound => "Item not found"@,
            AppErrorView::InternalServerError => "Internal Server Error"@,
        }
    }
}

impl AppError {
    pub fn status_code(&self) -> (code: u16)
        ensures
            code == self@.status(),
    {
        match self {
            AppError::DatabaseError(_) => INTERNAL_SERVER_ERROR,
            AppError::AuthenticationError => UNAUTHORIZED,
            AppError::UserNotFound => NOT_FOUND,
            AppError::InvalidCredentials => UNAUTHORIZED,
            AppError::NotFound => NOT_FOUND,
            AppError::InternalServerError => INTERNAL_SERVER_ERROR,
        }
    }

    /// The status and the body of the response that reports the failure.
    pub fn into_response(self) -> (r: (u16, String))
        ensures
            r.0 == self@.status(),
            r.1@ == self@.body(),
    {
        match self {
            AppError::DatabaseError(_) => (
                INTERNAL_SERVER_ERROR,
                String::from_str("Database Error"),
            ),
            AppError::AuthenticationError => (
                UNAUTHORIZED,
                String::from_str("Authentication Failed"),
            ),
            AppError::UserNotFound => (NOT_FOUND, String::from_str("User Not Found")),
            AppError::InvalidCredentials => (UNAUTHORIZED, String::from_str("Invalid Credentials")),
            AppError::NotFound => (NOT_FOUND, String::from_str("Not Found")),
            AppError::InternalServerError => (
                INTERNAL_SERVER_ERROR,
                String::from_str("Internal Server Error"),
            ),
        }
    }

    pub fn to_string(&self) -> (s: String)
        ensures
            s@ == self@.description(),
    {
        match self {
            AppError::DatabaseError(m) => String::from_str("Database error: ").concat(m.as_str()),
            AppError::AuthenticationError => String::from_str("Authentication failed"),
            AppError::UserNotFound => String::from_str("User not found"),
            AppError::InvalidCredentials => String::from_str("Invalid credentials"),
            AppError::NotFound => String::from_str("Item not found"),
            AppError::InternalServerError => String::from_str("Internal Server Error"),
        }
    }
}

} // verus!
