//! Turns a short-lived session into a durable credential, and keeps the
//! credentials in a local store in which no session occurs twice.

use vstd::prelude::*;
use vstd::std_specs::convert::FromSpecImpl;
use crate::augment_oauth::AugmentTokenResponse;
use crate::error::ExchangeError;

pub mod augment_oauth;
pub mod challenge;
pub mod config;
pub mod error;
pub mod http;
pub mod remote_import;
pub mod text;
pub mod token_manager;

verus! {

/// A credential as it is handed to the caller that asked for a session to be
/// exchanged.
#[derive(Debug, Clone, PartialEq, Eq)]
pub struct TokenFromSessionResponse {
    pub access_token: String,
    pub tenant_url: String,
    pub email: Option<String>,
    pub credits_balance: Option<i32>,
    pub expiry_date: Option<String>,
}

/// The credential `response`, field by field.
pub open spec fn handed_over(response: AugmentTokenResponse) -> TokenFromSessionResponse {
    TokenFromSessionResponse {
        access_token: response.access_token,
        tenant_url: response.tenant_url,
        email: response.email,
        credits_balance: response.credits_balance,
        expiry_date: response.expiry_date,
    }
}

impl From<AugmentTokenResponse> for TokenFromSessionResponse {
    /// The same credential, field by field.
    fn from(response: AugmentTokenResponse) -> (handed: Self) {
        TokenFromSessionResponse {
            access_token: response.access_token,
            tenant_url: response.tenant_url,
            email: response.email,
            credits_balance: response.credits_balance,
            expiry_date: response.expiry_date,
        }
    }
}

impl FromSpecImpl<AugmentTokenResponse> for TokenFromSessionResponse {
    open spec fn obeys_from_spec() -> bool {
        true
    }

    open spec fn from_spec(response: AugmentTokenResponse) -> Self {
        handed_over(response)
    }
}

/// The outcome of an exchange as the caller gets it: the credential handed
/// over field by field, or the error as it is.
pub fn parse_session(outcome: Result<AugmentTokenResponse, ExchangeError>) -> (handed:
    Result<TokenFromSessionResponse, ExchangeError>)
    ensures
        match outcome {
            Ok(response) => handed == Ok::<TokenFromSessionResponse, ExchangeError>(
                handed_over(response),
            ),
            Err(e) => handed == Err::<TokenFromSessionResponse, ExchangeError>(e),
        },
{
    match outcome {
        Ok(response) => Ok(TokenFromSessionResponse::from(response)),
        Err(e) => Err(e),
    }
}

} // verus!
