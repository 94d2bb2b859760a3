//! The errors of the REST service and the status under which each is
//! reported.

use vstd::prelude::*;
use vstd::string::StringExecFns;

verus! {

/// The status code of a reply to a request for something that is not there.
pub const STATUS_NOT_FOUND: u16 = 404;

/// The status code of a reply to a request that failed inside the service.
pub const STATUS_INTERNAL_SERVER_ERROR: u16 = 500;

/// Why a request could not be served.
#[derive(Debug, PartialEq, Eq)]
pub enum Error {
    /// The requested entity does not exist.
    NotFound,
    /// The database refused or failed. The text is its own account of it,
    /// kept for the log; the reply does not show it.
    Sqlx(String),
    /// Anything else that went wrong. The text is its own account of it,
    /// kept for the log; the reply does not show it.
    Anyhow(String),
}

impl Error {
    /// The status code under which the error is reported.
    pub open spec fn status(self) -> u16 {
        match self {
            Error::NotFound => STATUS_NOT_FOUND,
            Error::Sqlx(_) => STATUS_INTERNAL_SERVER_ERROR,
            Error::Anyhow(_) => STATUS_INTERNAL_SERVER_ERROR,
        }
    }

    /// The text that the reply carries: one fixed text for each kind of
    /// error, whatever went wrong in detail.
    pub open spec fn message(self) -> Seq<char> {
        match self {
            Error::NotFound => "API error"@,
            Error::Sqlx(_) => "an error occurred with the database"@,
            Error::Anyhow(_) => "internal server error"@,
        }
    }

    /// The status code of the reply: 404 for what is not found, 500 for every
    /// other error.
    pub fn status_code(&self) -> (code: u16)
        ensures
            code == self.status(),
            code == 404 <==> self is NotFound,
            code == 500 <==> !(self is NotFound),
    {
        match self {
            Error::NotFound => STATUS_NOT_FOUND,
            Error::Sqlx(_) => STATUS_INTERNAL_SERVER_ERROR,
            Error::Anyhow(_) => STATUS_INTERNAL_SERVER_ERROR,
        }
    }

    /// The body of the reply. It does not depend on the text that the error
    /// holds.
    pub fn body(&self) -> (text: String)
        ensures
            text@ == self.message(),
    {
        match self {
            Error::NotFound => String::from_str("API error"),
            Error::Sqlx(_) => String::from_str("an error occurred with the database"),
            Error::Anyhow(_) => String::from_str("internal server error"),
        }
    }

    /// The reply to a failed request: its status code and its body.
    pub fn into_response(self) -> (reply: (u16, String))
        ensures
            reply.0 == self.status(),
            reply.1@ == self.message(),
    {
        let body = self.body();
        (self.status_code(), body)
    }
}

} // verus!
