use vstd::prelude::*;
use crate::http::Response;
use crate::json::{error_json, spec_error_json};

verus! {

/// The single propagated error channel of the service: one variant per
/// failure origin, each holding the originating error's message.
#[derive(Debug)]
pub enum AppError {
    SqlxError(String),
    DotenvyError(String),
    EnvError(String),
    ServerError(String),
}

impl AppError {
    /// The human-readable description of the failure, prefixed with its
    /// origin.
    pub open spec fn spec_message(self) -> Seq<char> {
        match self {
            AppError::SqlxError(m) => "Sqlx error: "@ + m@,
            AppError::DotenvyError(m) => "Dotenvy error: "@ + m@,
            AppError::EnvError(m) => "Env error: "@ + m@,
            AppError::ServerError(m) => "Server error: "@ + m@,
        }
    }

    pub fn message(&self) -> (r: String)
        ensures
            r@ == self.spec_message(),
    {
        match self {
            AppError::SqlxError(m) => {
                let mut s = String::from_str("Sqlx error: ");
                s.append(m.as_str());
                s
            },
            AppError::DotenvyError(m) => {
                let mut s = String::from_str("Dotenvy error: ");
                s.append(m.as_str());
                s
            },
            AppError::EnvError(m) => {
                let mut s = String::from_str("Env error: ");
                s.append(m.as_str());
                s
            },
            AppError::ServerError(m) => {
                let mut s = String::from_str("Server error: ");
                s.append(m.as_str());
                s
            },
        }
    }

    /// Every application-level failure becomes the same uniform answer: a
    /// 500 status with a JSON object whose one `error` field carries the
    /// message.
    pub fn into_response(self) -> (r: Response)
        ensures
            r.status == 500,
            r.body@ == spec_error_json(self.spec_message()),
    {
        let msg = self.message();
        Response { status: 500, body: error_json(msg.as_str()) }
    }
}

} // verus!
