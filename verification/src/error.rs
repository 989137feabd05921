//! The failures of an authentication attempt and the response each one maps to.

use vstd::prelude::*;

verus! {

/// Why a request was not authenticated.
#[derive(Clone, Copy, Debug, PartialEq, Eq, Structural)]
pub enum AuthError {
    /// The request carries no credential at all.
    MissingCredential,
    /// The request carries a credential that is not of the form `Bearer <token>`.
    MalformedCredential,
    /// No key of the key set has the key identifier that the token declares.
    UnknownSigningKey,
    /// The signature, the algorithm or the claims of the token were rejected.
    InvalidSignatureOrClaims,
    /// The key set of the authority could not be obtained.
    AuthorityUnavailable,
}

impl AuthError {
    /// The HTTP status code that answers a request failing with this error.
    pub open spec fn status(self) -> int {
        match self {
            AuthError::MissingCredential => 403,
            AuthError::MalformedCredential => 400,
            AuthError::UnknownSigningKey => 403,
            AuthError::InvalidSignatureOrClaims => 403,
            AuthError::AuthorityUnavailable => 500,
        }
    }

    /// What the answer tells the caller. Nothing is told of why the
    /// authority could not be reached.
    pub open spec fn message_text(self) -> Seq<char> {
        match self {
            AuthError::MissingCredential => "Missing Authorization Header"@,
            AuthError::MalformedCredential => "Malformed Authorization Header"@,
            AuthError::UnknownSigningKey => "Invalid JWT"@,
            AuthError::InvalidSignatureOrClaims => "Invalid JWT"@,
            AuthError::AuthorityUnavailable => ""@,
        }
    }

    /// The HTTP status code that answers a request failing with this error.
    pub fn status_code(&self) -> (code: u16)
        ensures
            code == self.status(),
    {
        match self {
            AuthError::MissingCredential => 403,
            AuthError::MalformedCredential => 400,
            AuthError::UnknownSigningKey => 403,
            AuthError::InvalidSignatureOrClaims => 403,
            AuthError::AuthorityUnavailable => 500,
        }
    }

    /// What the answer tells the caller.
    pub fn message(&self) -> (text: &'static str)
        ensures
            text@ == self.message_text(),
            *self == AuthError::AuthorityUnavailable ==> text@.len() == 0,
    {
        proof {
            reveal_strlit("");
        }
        match self {
            AuthError::MissingCredential => "Missing Authorization Header",
            AuthError::MalformedCredential => "Malformed Authorization Header",
            AuthError::UnknownSigningKey => "Invalid JWT",
            AuthError::InvalidSignatureOrClaims => "Invalid JWT",
            AuthError::AuthorityUnavailable => "",
        }
    }
}

} // verus!
