//! The faults of the backend's API and how each is answered.

use vstd::prelude::*;
use vstd::string::StringExecFns;

verus! {

/// A fault of the backend's API.
#[derive(Debug, Clone)]
pub enum ApiError {
    NotFound,
    Unauthorized,
    Forbidden,
    ValidationError(String),
    DatabaseError(String),
    AuthError(String),
    QuotaExceeded,
    InternalServerError,
}

/// The mathematical value of an [`ApiError`].
pub enum ApiErrorView {
    NotFound,
    Unauthorized,
    Forbidden,
    ValidationError(Seq<char>),
    DatabaseError(Seq<char>),
    AuthError(Seq<char>),
    QuotaExceeded,
    InternalServerError,
}

impl View for ApiError {
    type V = ApiErrorView;

    open spec fn view(&self) -> ApiErrorView {
        match *self {
            ApiError::NotFound => ApiErrorView::NotFound,
            ApiError::Unauthorized => ApiErrorView::Unauthorized,
            ApiError::Forbidden => ApiErrorView::Forbidden,
            ApiError::ValidationError(s) => ApiErrorView::ValidationError(s@),
            ApiError::DatabaseError(s) => ApiErrorView::DatabaseError(s@),
            ApiError::AuthError(s) => ApiErrorView::AuthError(s@),
            ApiError::QuotaExceeded => ApiErrorView::QuotaExceeded,
            ApiError::InternalServerError => ApiErrorView::InternalServerError,
        }
    }
}

impl ApiErrorView {
    /// The HTTP status with which the fault is answered.
    pub open spec fn status(self) -> u16 {
        match self {
            ApiErrorView::NotFound => 404,
            ApiErrorView::Unauthorized => 401,
            ApiErrorView::Forbidden => 403,
            ApiErrorView::ValidationError(_) => 400,
            ApiErrorView::DatabaseError(_) => 500,
            ApiErrorView::AuthError(_) => 401,
            ApiErrorView::QuotaExceeded => 429,
            ApiErrorView::InternalServerError => 500,
        }
    }

    /// The text in the answer's body: the fault's own words where it carries
    /// any, its name otherwise.
    pub open spec fn body(self) -> Seq<char> {
        match self {
            ApiErrorView::NotFound => "Not found"@,
            ApiErrorView::Unauthorized => "Unauthorized"@,
            ApiErrorView::Forbidden => "Forbidden"@,
            ApiErrorView::ValidationError(s) => s,
            ApiErrorView::DatabaseError(s) => s,
            ApiErrorView::AuthError(s) => s,
            ApiErrorView::QuotaExceeded => "Quota exceeded"@,
            ApiErrorView::InternalServerError => "Internal server error"@,
        }
    }

    /// The text shown for the fault.
    pub open spec fn message(self) -> Seq<char> {
        match self {
            ApiErrorView::ValidationError(s) => "Validation error: "@ + s,
            ApiErrorView::DatabaseError(s) => "Database error: "@ + s,
            ApiErrorView::AuthError(s) => "Authentication error: "@ + s,
            _ => self.body(),
        }
    }
}

impl ApiError {
    /// The HTTP status with which the fault is answered.
    pub fn status_code(&self) -> (status: u16)
        ensures
            status == self@.status(),
    {
        match self {
            ApiError::NotFound => 404,
            ApiError::Unauthorized => 401,
            ApiError::Forbidden => 403,
            ApiError::ValidationError(_) => 400,
            ApiError::DatabaseError(_) => 500,
            ApiError::AuthError(_) => 401,
            ApiError::QuotaExceeded => 429,
            ApiError::InternalServerError => 500,
        }
    }

    /// The status and the text of the answer to the fault.
    pub fn into_response(self) -> (answer: (u16, String))
        ensures
            answer.0 == self@.status(),
            answer.1@ == self@.body(),
    {
        let status = self.status_code();
        let body = match self {
            ApiError::NotFound => "Not found".to_owned(),
            ApiError::Unauthorized => "Unauthorized".to_owned(),
            ApiError::Forbidden => "Forbidden".to_owned(),
            ApiError::ValidationError(s) => s,
            ApiError::DatabaseError(s) => s,
            ApiError::AuthError(s) => s,
            ApiError::QuotaExceeded => "Quota exceeded".to_owned(),
            ApiError::InternalServerError => "Internal server error".to_owned(),
        };
        (status, body)
    }

    /// The text shown for the fault.
    pub fn message(&self) -> (text: String)
        ensures
            text@ == self@.message(),
    {
        match self {
            ApiError::NotFound => "Not found".to_owned(),
            ApiError::Unauthorized => "Unauthorized".to_owned(),
            ApiError::Forbidden => "Forbidden".to_owned(),
            ApiError::ValidationError(s) => "Validation error: ".to_owned().concat(s.as_str()),
            ApiError::DatabaseError(s) => "Database error: ".to_owned().concat(s.as_str()),
            ApiError::AuthError(s) => "Authentication error: ".to_owned().concat(s.as_str()),
            ApiError::QuotaExceeded => "Quota exceeded".to_owned(),
            ApiError::InternalServerError => "Internal server error".to_owned(),
        }
    }
}

} // verus!
