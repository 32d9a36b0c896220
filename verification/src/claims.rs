use vstd::prelude::*;

verus! {

/// The subject id reserved for the service identity: the nil UUID.
pub const SERVICE_UID: u128 = 0;

/// The two kinds of token.
#[derive(Clone, Copy, Debug, PartialEq, Eq, Structural)]
pub enum TokenKind {
    /// Short-lived, authorises ordinary calls.
    Access,
    /// Long-lived, only good for obtaining a new access token.
    Refresh,
}

/// Who a token speaks for.
#[derive(Clone, Copy, Debug, PartialEq, Eq, Structural)]
pub enum Identity {
    /// An ordinary user.
    Human,
    /// The reserved non-human caller.
    Service,
}

/// The signed payload of a token.
#[derive(Clone, Copy, Debug, PartialEq, Eq, Structural)]
pub struct Claims {
    /// When the token stops being valid, in milliseconds since the epoch.
    pub exp: i64,
    /// The user id, as the 128-bit value of its UUID.
    pub uid: u128,
    /// If true, the token can only be used to get another token.
    pub refresh: bool,
    /// The user's revocation counter when the token was issued.
    pub ver: Option<i64>,
}

impl Claims {
    pub open spec fn spec_kind(&self) -> TokenKind {
        if self.refresh {
            TokenKind::Refresh
        } else {
            TokenKind::Access
        }
    }

    pub open spec fn spec_identity(&self) -> Identity {
        if self.uid == SERVICE_UID {
            Identity::Service
        } else {
            Identity::Human
        }
    }

    /// The kind of token these claims were signed as.
    #[verifier::when_used_as_spec(spec_kind)]
    pub fn kind(&self) -> (k: TokenKind)
        ensures
            k == self.spec_kind(),
    {
        if self.refresh {
            TokenKind::Refresh
        } else {
            TokenKind::Access
        }
    }

    /// Whether the claims speak for a user or for the service identity.
    #[verifier::when_used_as_spec(spec_identity)]
    pub fn identity(&self) -> (who: Identity)
        ensures
            who == self.spec_identity(),
    {
        if self.uid == SERVICE_UID {
            Identity::Service
        } else {
            Identity::Human
        }
    }
}

} // verus!
