//! Errors of the shop's request handling and the HTTP answer each one maps to.
use vstd::prelude::*;
use vstd::string::*;

verus! {

/// Kind of a database failure, as far as the request handling distinguishes it.
#[derive(Debug)]
pub enum DbError {
    /// A row that the request expects is absent.
    NotFound,
    /// Any other database failure, with its description for the log.
    Other(String),
}

/// Error of a request.
#[derive(Debug)]
pub enum AppError {
    BadRequest(String),
    Unauthorized,
    NotFound(String),
    Conflict(String),
    Database(DbError),
    Pool(String),
    Session(String),
    Captcha(String),
}

/// Mathematical model of an [`AppError`]: its kind and the message it carries.
pub enum AppErrorView {
    BadRequest(Seq<char>),
    Unauthorized,
    NotFound(Seq<char>),
    Conflict(Seq<char>),
    DatabaseNotFound,
    DatabaseOther,
    Pool,
    Session,
    Captcha,
}

impl View for AppError {
    type V = AppErrorView;

    open spec fn view(&self) -> AppErrorView {
        match self {
            AppError::BadRequest(m) => AppErrorView::BadRequest(m@),
            AppError::Unauthorized => AppErrorView::Unauthorized,
            AppError::NotFound(m) => AppErrorView::NotFound(m@),
            AppError::Conflict(m) => AppErrorView::Conflict(m@),
            AppError::Database(DbError::NotFound) => AppErrorView::DatabaseNotFound,
            AppError::Database(DbError::Other(_)) => AppErrorView::DatabaseOther,
            AppError::Pool(_) => AppErrorView::Pool,
            AppError::Session(_) => AppErrorView::Session,
            AppError::Captcha(_) => AppErrorView::Captcha,
        }
    }
}

/// HTTP status and client-visible message of an error.
pub open spec fn spec_status_and_message(e: AppErrorView) -> (u16, Seq<char>) {
    match e {
        AppErrorView::BadRequest(m) => (400, m),
        AppErrorView::Unauthorized => (401, "unauthorized"@),
        AppErrorView::NotFound(m) => (404, m),
        AppErrorView::Conflict(m) => (409, m),
        AppErrorView::DatabaseNotFound => (404, "resource not found"@),
        _ => (500, "internal server error"@),
    }
}

/// The text that describes an error (its `Display` form): the message of a client error,
/// a fixed phrase for the others.
pub open spec fn spec_error_text(e: AppErrorView) -> Seq<char> {
    match e {
        AppErrorView::BadRequest(m) => m,
        AppErrorView::Unauthorized => "unauthorized"@,
        AppErrorView::NotFound(m) => m,
        AppErrorView::Conflict(m) => m,
        AppErrorView::DatabaseNotFound => "database error"@,
        AppErrorView::DatabaseOther => "database error"@,
        AppErrorView::Pool => "connection pool error"@,
        AppErrorView::Session => "session error"@,
        AppErrorView::Captcha => "CAPTCHA error"@,
    }
}

impl AppError {
    /// Builds a `BadRequest` error from a message.
    pub fn bad_request(message: &str) -> (e: AppError)
        ensures
            e@ == AppErrorView::BadRequest(message@),
    {
        AppError::BadRequest(String::from_str(message))
    }

    /// Builds a `NotFound` error from a message.
    pub fn not_found(message: &str) -> (e: AppError)
        ensures
            e@ == AppErrorView::NotFound(message@),
    {
        AppError::NotFound(String::from_str(message))
    }

    /// Builds a `Conflict` error from a message.
    pub fn conflict(message: &str) -> (e: AppError)
        ensures
            e@ == AppErrorView::Conflict(message@),
    {
        AppError::Conflict(String::from_str(message))
    }

    /// The HTTP status code and the message of the JSON body `{"error": message}` that
    /// answers this error. Internal failures never reveal their details to the client.
    pub fn status_and_message(&self) -> (res: (u16, String))
        ensures
            (res.0, res.1@) == spec_status_and_message(self@),
    {
        match self {
            AppError::BadRequest(m) => (400, m.clone()),
            AppError::Unauthorized => (401, String::from_str("unauthorized")),
            AppError::NotFound(m) => (404, m.clone()),
            AppError::Conflict(m) => (409, m.clone()),
            AppError::Database(DbError::NotFound) => (404, String::from_str("resource not found")),
            _ => (500, String::from_str("internal server error")),
        }
    }

    /// The text that describes this error.
    pub fn to_string(&self) -> (s: String)
        ensures
            s@ == spec_error_text(self@),
    {
        match self {
            AppError::BadRequest(m) => m.clone(),
            AppError::Unauthorized => String::from_str("unauthorized"),
            AppError::NotFound(m) => m.clone(),
            AppError::Conflict(m) => m.clone(),
            AppError::Database(_) => String::from_str("database error"),
            AppError::Pool(_) => String::from_str("connection pool error"),
            AppError::Session(_) => String::from_str("session error"),
            AppError::Captcha(_) => String::from_str("CAPTCHA error"),
        }
    }
}

} // verus!
