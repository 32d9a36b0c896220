use vstd::prelude::*;

verus! {

/// Why a token was not accepted, or could not be issued.
#[derive(Clone, Copy, Debug, PartialEq, Eq, Structural)]
pub enum AuthError {
    /// The token is malformed, or its signature does not verify under the key.
    InvalidSignature,
    /// The signature is good but the expiry lies in the past: renew.
    Expired,
    /// A refresh token was shown where an access token is wanted, or the reverse.
    WrongTokenKind,
    /// The refresh token's version is not the user's current one: log in again.
    Revoked,
    /// The request carried no credential at all.
    MissingCredential,
    /// The caller's identity (human or service) is not let in at this endpoint.
    IdentityNotPermitted,
    /// The requested lifetime is not positive, or the expiry cannot be represented.
    InvalidLifetime,
    /// Serialising or signing the claims failed. Signing with a secret has
    /// no failing path, so no function of this library returns it today; it
    /// is what a failure of the signing call would be reported as.
    SigningFailed,
}

impl AuthError {
    /// Whether the error is an internal fault rather than a rejected credential.
    pub open spec fn internal(self) -> bool {
        self == AuthError::InvalidLifetime || self == AuthError::SigningFailed
    }

    /// The status shown to the caller: every rejected credential looks alike.
    pub open spec fn outward_status(self) -> u16 {
        if self.internal() {
            500
        } else {
            401
        }
    }

    /// The HTTP status for this error. All rejections share one status, so that
    /// the response does not tell a forged token from an expired one.
    pub fn status(&self) -> (code: u16)
        ensures
            code == self.outward_status(),
    {
        match self {
            AuthError::InvalidLifetime | AuthError::SigningFailed => 500,
            _ => 401,
        }
    }

    /// A short machine-readable reason, for clients that recover differently
    /// from an expired and from a revoked token.
    pub fn reason(&self) -> (text: &'static str)
        ensures
            text@ == match *self {
                AuthError::InvalidSignature => "auth/invalid-token"@,
                AuthError::Expired => "auth/token-expired"@,
                AuthError::WrongTokenKind => "auth/wrong-token-kind"@,
                AuthError::Revoked => "auth/token-revoked"@,
                AuthError::MissingCredential => "auth/no-token"@,
                AuthError::IdentityNotPermitted => "auth/identity-not-permitted"@,
                AuthError::InvalidLifetime => "auth/invalid-lifetime"@,
                AuthError::SigningFailed => "auth/signing-failed"@,
            },
    {
        match self {
            AuthError::InvalidSignature => "auth/invalid-token",
            AuthError::Expired => "auth/token-expired",
            AuthError::WrongTokenKind => "auth/wrong-token-kind",
            AuthError::Revoked => "auth/token-revoked",
            AuthError::MissingCredential => "auth/no-token",
            AuthError::IdentityNotPermitted => "auth/identity-not-permitted",
            AuthError::InvalidLifetime => "auth/invalid-lifetime",
            AuthError::SigningFailed => "auth/signing-failed",
        }
    }
}

} // verus!
