//! What the identity provider answers. The provider is asked by the caller;
//! these are its answers as the handlers take them.

use vstd::prelude::*;

verus! {

/// The time that a call to the provider may take, in seconds. A call that
/// takes longer has failed. No call follows a redirect, and none is tried a
/// second time.
pub const EXCHANGE_TIMEOUT_SECS: u64 = 10;

/// The tokens of a successful code or refresh-token exchange.
#[derive(Debug, Clone, PartialEq, Eq)]
pub struct TokenGrant {
    pub access_token: String,
    pub refresh_token: Option<String>,
    /// The ID token as the provider sent it.
    pub id_token: Option<String>,
    /// Lifetime of the access token in seconds, where the provider gave one.
    pub expires_in: Option<u64>,
}

/// Where an exchange failed.
#[derive(Debug, Clone, Copy, PartialEq, Eq, Structural)]
pub enum ExchangeStage {
    /// The request could not be built.
    Request,
    /// The HTTP client could not be built.
    HttpClient,
    /// The call failed, timed out, or was answered with an error.
    Response,
}

/// A failed exchange.
#[derive(Debug, Clone, PartialEq, Eq)]
pub struct ExchangeFailure {
    pub stage: ExchangeStage,
    /// Detail for the log record.
    pub detail: Option<String>,
}

/// The claims of a verified ID token that the flow reads.
#[derive(Debug, Clone, PartialEq, Eq)]
pub struct IdentityClaims {
    pub preferred_username: Option<String>,
    pub subject: String,
}

} // verus!
