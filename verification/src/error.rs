//! Status codes and the one table that maps a failure to its status.

use vstd::prelude::*;

verus! {

/// The status codes that the user resource answers with.
#[derive(Clone, Copy, Debug, PartialEq, Eq, Structural)]
pub enum StatusCode {
    Success,
    Created,
    NotFound,
    InternalServerError,
}

impl StatusCode {
    /// The number that goes on the wire.
    pub open spec fn code(self) -> u16 {
        match self {
            StatusCode::Success => 200,
            StatusCode::Created => 201,
            StatusCode::NotFound => 404,
            StatusCode::InternalServerError => 500,
        }
    }

    /// Whether the status reports success.
    pub open spec fn is_success(self) -> bool {
        200 <= self.code() < 300
    }

    pub fn as_u16(&self) -> (code: u16)
        ensures
            code == self.code(),
    {
        match self {
            StatusCode::Success => 200,
            StatusCode::Created => 201,
            StatusCode::NotFound => 404,
            StatusCode::InternalServerError => 500,
        }
    }
}

/// What the store reports when a statement that expects one row fails. Each
/// variant carries the store's own words.
#[derive(Clone, Debug)]
pub enum DbError {
    /// The statement ran and matched no row.
    RowNotFound(String),
    /// Anything else: connection, constraint, syntax.
    Other(String),
}

impl DbError {
    /// The store's words.
    pub open spec fn text(self) -> Seq<char> {
        match self {
            DbError::RowNotFound(text) => text@,
            DbError::Other(text) => text@,
        }
    }

    pub fn into_text(self) -> (text: String)
        ensures
            text@ == self.text(),
    {
        match self {
            DbError::RowNotFound(text) => text,
            DbError::Other(text) => text,
        }
    }
}

/// Why a request to the user resource failed. Each variant carries the text
/// of the underlying error, which becomes the body of the response.
#[derive(Clone, Debug)]
pub enum ApiError {
    /// No row matched the lookup.
    NotFound(String),
    /// The store failed to run the statement.
    Database(String),
    /// The password could not be hashed.
    Hash(String),
}

impl ApiError {
    /// The text of the underlying error.
    pub open spec fn text(self) -> Seq<char> {
        match self {
            ApiError::NotFound(text) => text@,
            ApiError::Database(text) => text@,
            ApiError::Hash(text) => text@,
        }
    }

    /// The status that each kind of failure is answered with.
    pub open spec fn status_code(self) -> StatusCode {
        match self {
            ApiError::NotFound(_) => StatusCode::NotFound,
            ApiError::Database(_) => StatusCode::InternalServerError,
            ApiError::Hash(_) => StatusCode::InternalServerError,
        }
    }

    pub fn status(&self) -> (status: StatusCode)
        ensures
            status == self.status_code(),
    {
        match self {
            ApiError::NotFound(_) => StatusCode::NotFound,
            ApiError::Database(_) => StatusCode::InternalServerError,
            ApiError::Hash(_) => StatusCode::InternalServerError,
        }
    }

    /// The response for this failure: its status, and the error's text as
    /// the body.
    pub fn into_response(self) -> (response: (StatusCode, String))
        ensures
            response.0 == self.status_code(),
            response.1@ == self.text(),
            !response.0.is_success(),
    {
        let status = self.status();
        let text = match self {
            ApiError::NotFound(text) => text,
            ApiError::Database(text) => text,
            ApiError::Hash(text) => text,
        };
        (status, text)
    }
}

} // verus!
