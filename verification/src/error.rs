//! Error values of the gateway.

use vstd::prelude::*;

verus! {

/// An error that carries nothing but a text.
#[derive(Debug, Clone, PartialEq, Eq)]
pub struct StringError {
    pub description: String,
}

impl StringError {
    /// The text of the error.
    pub fn description(&self) -> (text: &str)
        ensures
            text@ == self.description@,
    {
        self.description.as_str()
    }
}

/// A request that could not be authenticated or authorized. It tells the
/// client nothing about the reason.
#[derive(Debug, Clone, Copy, PartialEq, Eq, Structural)]
pub struct AuthenticationError {}

impl AuthenticationError {
    /// The fixed text of the error.
    pub fn description(&self) -> (text: &'static str)
        ensures
            text@ == "Authentication failed"@,
    {
        "Authentication failed"
    }
}

/// Why a bearer token yielded no claims.
#[derive(Debug, Clone, Copy, PartialEq, Eq, Structural)]
pub enum VerifyError {
    /// The signature does not verify against the configured key.
    InvalidSignature,
    /// The token could not be decoded.
    MalformedToken,
    /// A required claim is absent.
    MissingClaim,
}

/// A transform of the stream relay that failed on one item.
#[derive(Debug, Clone, PartialEq, Eq)]
pub struct ProcessingError {
    pub description: String,
}

} // verus!
