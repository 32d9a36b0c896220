use crate::claims::{Claims, Identity, TokenKind, SERVICE_UID};
use crate::clock::{clock_reading, current_millis};
use crate::codec::{decode, decoded};
use crate::error::AuthError;
use crate::key::DecodingKey;
use vstd::prelude::*;

verus! {

/// Claims pass the expiry test unless their expiry is strictly before `now`.
pub open spec fn expiry_checked(claims: Claims, now: i64) -> Result<Claims, AuthError> {
    if claims.exp < now {
        Err(AuthError::Expired)
    } else {
        Ok(claims)
    }
}

/// What validating a token at time `now` gives: the decoded claims, unless
/// decoding fails or the claims have expired.
pub open spec fn validated(secret: Seq<u8>, token: Seq<char>, now: i64) -> Result<
    Claims,
    AuthError,
> {
    match decoded(secret, token) {
        Ok(claims) => expiry_checked(claims, now),
        Err(e) => Err(e),
    }
}

/// Claims pass the kind test exactly when they are of the expected kind.
pub open spec fn kind_checked(claims: Claims, expected: TokenKind) -> Result<(), AuthError> {
    if claims.spec_kind() == expected {
        Ok(())
    } else {
        Err(AuthError::WrongTokenKind)
    }
}

/// Claims pass the version test exactly when they embed the current version.
pub open spec fn version_checked(claims: Claims, current: i64) -> Result<(), AuthError> {
    if claims.ver == Some(current) {
        Ok(())
    } else {
        Err(AuthError::Revoked)
    }
}

/// Claims pass the identity test exactly when they speak for the permitted
/// kind of caller.
pub open spec fn identity_checked(claims: Claims, permitted: Identity) -> Result<(), AuthError> {
    if claims.spec_identity() == permitted {
        Ok(())
    } else {
        Err(AuthError::IdentityNotPermitted)
    }
}

/// What an endpoint grants to a credential at time `now`, when it wants a
/// token of the given kind.
pub open spec fn granted(
    secret: Seq<u8>,
    credential: Option<Seq<char>>,
    expected: TokenKind,
    now: i64,
) -> Result<Claims, AuthError> {
    match credential {
        None => Err(AuthError::MissingCredential),
        Some(token) => match validated(secret, token, now) {
            Ok(claims) => match kind_checked(claims, expected) {
                Ok(_) => Ok(claims),
                Err(e) => Err(e),
            },
            Err(e) => Err(e),
        },
    }
}

/// What an endpoint grants when it also lets in only one kind of caller: the
/// identity is tested last, on claims that passed every other test.
pub open spec fn granted_to(
    secret: Seq<u8>,
    credential: Option<Seq<char>>,
    expected: TokenKind,
    permitted: Identity,
    now: i64,
) -> Result<Claims, AuthError> {
    match granted(secret, credential, expected, now) {
        Ok(claims) => match identity_checked(claims, permitted) {
            Ok(_) => Ok(claims),
            Err(e) => Err(e),
        },
        Err(e) => Err(e),
    }
}

/// The text of an optional credential.
pub open spec fn credential_view(credential: Option<&str>) -> Option<Seq<char>> {
    match credential {
        Some(token) => Some(token@),
        None => None,
    }
}

/// Rejects claims whose expiry is strictly before `now`.
pub fn check_expiry(claims: Claims, now: i64) -> (r: Result<Claims, AuthError>)
    ensures
        r == expiry_checked(claims, now),
{
    if claims.exp < now {
        Err(AuthError::Expired)
    } else {
        Ok(claims)
    }
}

/// Validates a token against a given time: signature first, then expiry.
/// Neither the kind nor the version is looked at.
pub fn validate_token_at(token: &str, key: &DecodingKey, now: i64) -> (r: Result<Claims, AuthError>)
    ensures
        r == validated(key@, token@, now),
{
    match decode(token, key) {
        Ok(claims) => check_expiry(claims, now),
        Err(e) => Err(e),
    }
}

/// Validates a token against the clock. The outcome is that of
/// `validate_token_at` at the moment the clock was read.
pub fn validate_token(token: &str, key: &DecodingKey) -> (r: Result<Claims, AuthError>)
    ensures
        exists|now: i64| clock_reading(now) && r == #[trigger] validated(key@, token@, now),
{
    let now = current_millis();
    validate_token_at(token, key, now)
}

/// Requires claims of the expected kind.
pub fn require_kind(claims: &Claims, expected: TokenKind) -> (r: Result<(), AuthError>)
    ensures
        r == kind_checked(*claims, expected),
{
    if claims.kind() == expected {
        Ok(())
    } else {
        Err(AuthError::WrongTokenKind)
    }
}

/// Requires an access token, as an ordinary endpoint does.
pub fn require_access(claims: &Claims) -> (r: Result<(), AuthError>)
    ensures
        r == kind_checked(*claims, TokenKind::Access),
{
    require_kind(claims, TokenKind::Access)
}

/// Requires a refresh token, as the renewal endpoint does.
pub fn require_refresh(claims: &Claims) -> (r: Result<(), AuthError>)
    ensures
        r == kind_checked(*claims, TokenKind::Refresh),
{
    require_kind(claims, TokenKind::Refresh)
}

/// Requires that the claims embed the user's current revocation version. A
/// token without a version is never current.
pub fn check_version(claims: &Claims, current: i64) -> (r: Result<(), AuthError>)
    ensures
        r == version_checked(*claims, current),
{
    match claims.ver {
        Some(v) if v == current => Ok(()),
        _ => Err(AuthError::Revoked),
    }
}

/// Requires that the claims speak for the permitted kind of caller.
pub fn require_identity(claims: &Claims, permitted: Identity) -> (r: Result<(), AuthError>)
    ensures
        r == identity_checked(*claims, permitted),
{
    if claims.identity() == permitted {
        Ok(())
    } else {
        Err(AuthError::IdentityNotPermitted)
    }
}

/// Requires the service identity, as the endpoints reserved for it do.
pub fn require_service(claims: &Claims) -> (r: Result<(), AuthError>)
    ensures
        r == identity_checked(*claims, Identity::Service),
{
    require_identity(claims, Identity::Service)
}

/// Requires a human user.
pub fn require_human(claims: &Claims) -> (r: Result<(), AuthError>)
    ensures
        r == identity_checked(*claims, Identity::Human),
{
    require_identity(claims, Identity::Human)
}

/// Decides at a given time what an endpoint that wants a token of the given
/// kind grants to a credential, if one was presented at all.
pub fn authorize_at(credential: Option<&str>, key: &DecodingKey, expected: TokenKind, now: i64) -> (r:
    Result<Claims, AuthError>)
    ensures
        r == granted(key@, credential_view(credential), expected, now),
{
    match credential {
        None => Err(AuthError::MissingCredential),
        Some(token) => match validate_token_at(token, key, now) {
            Ok(claims) => match require_kind(&claims, expected) {
                Ok(_) => Ok(claims),
                Err(e) => Err(e),
            },
            Err(e) => Err(e),
        },
    }
}

/// `authorize_at` against the clock.
pub fn authorize(credential: Option<&str>, key: &DecodingKey, expected: TokenKind) -> (r: Result<
    Claims,
    AuthError,
>)
    ensures
        exists|now: i64|
            clock_reading(now) && r == #[trigger] granted(
                key@,
                credential_view(credential),
                expected,
                now,
            ),
        credential is None ==> r == Err::<Claims, AuthError>(AuthError::MissingCredential),
{
    let now = current_millis();
    authorize_at(credential, key, expected, now)
}

/// Decides at a given time what an endpoint grants that wants a token of the
/// given kind from the given kind of caller.
pub fn authorize_identity_at(
    credential: Option<&str>,
    key: &DecodingKey,
    expected: TokenKind,
    permitted: Identity,
    now: i64,
) -> (r: Result<Claims, AuthError>)
    ensures
        r == granted_to(key@, credential_view(credential), expected, permitted, now),
{
    match authorize_at(credential, key, expected, now) {
        Ok(claims) => match require_identity(&claims, permitted) {
            Ok(_) => Ok(claims),
            Err(e) => Err(e),
        },
        Err(e) => Err(e),
    }
}

/// `authorize_identity_at` against the clock.
pub fn authorize_identity(
    credential: Option<&str>,
    key: &DecodingKey,
    expected: TokenKind,
    permitted: Identity,
) -> (r: Result<Claims, AuthError>)
    ensures
        exists|now: i64|
            clock_reading(now) && r == #[trigger] granted_to(
                key@,
                credential_view(credential),
                expected,
                permitted,
                now,
            ),
        credential is None ==> r == Err::<Claims, AuthError>(AuthError::MissingCredential),
{
    let now = current_millis();
    authorize_identity_at(credential, key, expected, permitted, now)
}

/// A token whose expiry is one millisecond before `now` is expired; one whose
/// expiry is `now` itself or later is not.
pub proof fn expiry_boundary(claims: Claims, now: i64)
    ensures
        claims.exp == now - 1 ==> expiry_checked(claims, now) == Err::<Claims, AuthError>(
            AuthError::Expired,
        ),
        claims.exp == now ==> expiry_checked(claims, now) == Ok::<Claims, AuthError>(claims),
        claims.exp == now + 1 ==> expiry_checked(claims, now) == Ok::<Claims, AuthError>(claims),
        expiry_checked(claims, now) is Err <==> claims.exp < now,
{
}

/// The same, for a whole token: whatever it decodes to, it is rejected as
/// expired one millisecond after its expiry and accepted one millisecond
/// before it.
pub proof fn expiry_boundary_of_tokens(secret: Seq<u8>, token: Seq<char>, claims: Claims, now: i64)
    requires
        decoded(secret, token) == Ok::<Claims, AuthError>(claims),
    ensures
        claims.exp == now - 1 ==> validated(secret, token, now) == Err::<Claims, AuthError>(
            AuthError::Expired,
        ),
        claims.exp == now + 1 ==> validated(secret, token, now) == Ok::<Claims, AuthError>(claims),
        validated(secret, token, now) is Ok <==> claims.exp >= now,
{
}

/// A token is let in by the check for exactly one kind: a refresh token is
/// refused where an access token is wanted, and an access token where a
/// refresh token is wanted.
pub proof fn kind_separation(claims: Claims)
    ensures
        claims.refresh ==> kind_checked(claims, TokenKind::Access) == Err::<(), AuthError>(
            AuthError::WrongTokenKind,
        ) && kind_checked(claims, TokenKind::Refresh) is Ok,
        !claims.refresh ==> kind_checked(claims, TokenKind::Refresh) == Err::<(), AuthError>(
            AuthError::WrongTokenKind,
        ) && kind_checked(claims, TokenKind::Access) is Ok,
{
}

/// The same, for a whole credential: if an endpoint that wants one kind lets a
/// token in, an endpoint that wants the other kind refuses the same token at
/// the same time as of the wrong kind.
pub proof fn kind_separation_of_tokens(
    secret: Seq<u8>,
    token: Seq<char>,
    wanted: TokenKind,
    other: TokenKind,
    now: i64,
)
    requires
        wanted != other,
        granted(secret, Some(token), wanted, now) is Ok,
    ensures
        granted(secret, Some(token), other, now) == Err::<Claims, AuthError>(
            AuthError::WrongTokenKind,
        ),
{
}

/// The service identity is let in exactly where the service is permitted, and
/// a human user exactly where humans are.
pub proof fn identity_separation(claims: Claims)
    ensures
        identity_checked(claims, Identity::Service) is Ok <==> claims.uid == SERVICE_UID,
        identity_checked(claims, Identity::Human) is Ok <==> claims.uid != SERVICE_UID,
        claims.uid == SERVICE_UID ==> identity_checked(claims, Identity::Human) == Err::<(), AuthError>(
            AuthError::IdentityNotPermitted,
        ),
        claims.uid != SERVICE_UID ==> identity_checked(claims, Identity::Service) == Err::<(), AuthError>(
            AuthError::IdentityNotPermitted,
        ),
{
}

/// The same, for a whole credential: if an endpoint that permits one kind of
/// caller lets a token in, an endpoint that permits the other kind refuses
/// the same token at the same time. So a token for the service identity
/// passes only where the service is permitted, and a user's token only where
/// humans are.
pub proof fn identity_separation_of_tokens(
    secret: Seq<u8>,
    token: Seq<char>,
    expected: TokenKind,
    permitted: Identity,
    other: Identity,
    now: i64,
)
    requires
        permitted != other,
        granted_to(secret, Some(token), expected, permitted, now) is Ok,
    ensures
        granted_to(secret, Some(token), expected, other, now) == Err::<Claims, AuthError>(
            AuthError::IdentityNotPermitted,
        ),
        (permitted == Identity::Service) == (granted_to(
            secret,
            Some(token),
            expected,
            permitted,
            now,
        )->Ok_0.uid == SERVICE_UID),
{
}

} // verus!
