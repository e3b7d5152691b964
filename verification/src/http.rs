//! Answers of remote services, as plain values.

use vstd::prelude::*;
use crate::error::ApiFailure;

verus! {

/// An answer to a request: its status, its body as text, and what the body
/// was read as, or why it could not be read.
#[derive(Debug, PartialEq, Eq)]
pub struct ApiReply<T> {
    pub status: u16,
    pub body: String,
    pub parsed: Result<T, String>,
}

/// Whether `status` says that the request succeeded.
pub open spec fn is_success(status: u16) -> bool {
    200 <= status <= 299
}

/// What a request gave. Without an answer it is `Transport`; with a status
/// that is no success it is `Status`, whatever the body holds; with a body
/// of another shape it is `Malformed`; else it is what the body holds.
pub open spec fn reply_outcome<T>(reply: Result<ApiReply<T>, String>) -> Result<T, ApiFailure> {
    match reply {
        Err(reason) => Err(ApiFailure::Transport(reason)),
        Ok(answer) => if !is_success(answer.status) {
            Err(ApiFailure::Status { code: answer.status, body: answer.body })
        } else {
            match answer.parsed {
                Ok(value) => Ok(value),
                Err(reason) => Err(ApiFailure::Malformed(reason)),
            }
        },
    }
}

/// Tells a usable answer from the three ways a request can fail.
pub fn classify_reply<T>(reply: Result<ApiReply<T>, String>) -> (outcome: Result<T, ApiFailure>)
    ensures
        outcome == reply_outcome(reply),
{
    match reply {
        Err(reason) => Err(ApiFailure::Transport(reason)),
        Ok(answer) => {
            if answer.status < 200 || answer.status > 299 {
                Err(ApiFailure::Status { code: answer.status, body: answer.body })
            } else {
                match answer.parsed {
                    Ok(value) => Ok(value),
                    Err(reason) => Err(ApiFailure::Malformed(reason)),
                }
            }
        },
    }
}

} // verus!
