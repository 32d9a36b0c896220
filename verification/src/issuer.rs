use crate::claims::Claims;
use crate::clock::{clock_reading, current_millis};
use crate::codec::{encode, encoded};
use crate::error::AuthError;
use crate::key::EncodingKey;
use crate::validator::validated;
use vstd::prelude::*;

verus! {

/// Lifetime of an access token in ordinary operation: one hour.
pub const ACCESS_LIFETIME_MS: i64 = 3_600_000;

/// Lifetime of an access token in a diagnostic setup: one day.
pub const DIAGNOSTIC_ACCESS_LIFETIME_MS: i64 = 86_400_000;

/// Lifetime of a refresh token: a thousand weeks, which in practice means
/// until it is revoked.
pub const REFRESH_LIFETIME_MS: i64 = 604_800_000_000;

/// The longest lifetime whose expiry can be represented whatever the clock
/// shows: `i64::MAX` less the latest clock reading.
pub const MAX_SAFE_LIFETIME_MS: i64 = 9_215_161_769_977_975_808;

/// The configured lifetimes: one policy, the same for every caller.
#[derive(Clone, Copy, Debug, PartialEq, Eq, Structural)]
pub struct Lifetimes {
    /// Lifetime of access tokens, in milliseconds.
    pub access_ms: i64,
    /// Lifetime of refresh tokens, in milliseconds.
    pub refresh_ms: i64,
}

impl Lifetimes {
    /// Whether both lifetimes are positive and short enough for the expiry to
    /// be representable at every clock reading.
    pub open spec fn usable(self) -> bool {
        &&& 0 < self.access_ms <= MAX_SAFE_LIFETIME_MS
        &&& 0 < self.refresh_ms <= MAX_SAFE_LIFETIME_MS
    }

    /// The lifetimes for ordinary operation: access tokens last an hour.
    pub fn standard() -> (l: Lifetimes)
        ensures
            l == (Lifetimes { access_ms: ACCESS_LIFETIME_MS, refresh_ms: REFRESH_LIFETIME_MS }),
            l.usable(),
    {
        Lifetimes { access_ms: ACCESS_LIFETIME_MS, refresh_ms: REFRESH_LIFETIME_MS }
    }

    /// The lifetimes for a diagnostic setup: access tokens last a day.
    pub fn diagnostic() -> (l: Lifetimes)
        ensures
            l == (Lifetimes {
                access_ms: DIAGNOSTIC_ACCESS_LIFETIME_MS,
                refresh_ms: REFRESH_LIFETIME_MS,
            }),
            l.usable(),
    {
        Lifetimes { access_ms: DIAGNOSTIC_ACCESS_LIFETIME_MS, refresh_ms: REFRESH_LIFETIME_MS }
    }
}

/// The expiry of a token issued at `now` for `lifetime_ms`: it lies after
/// `now`, and exists only where it can be represented.
pub open spec fn expiry_after(now: i64, lifetime_ms: i64) -> Option<i64> {
    if lifetime_ms > 0 && now + lifetime_ms <= i64::MAX {
        Some((now + lifetime_ms) as i64)
    } else {
        None
    }
}

/// The token and expiry that issuing gives. It fails only for want of an
/// expiry.
pub open spec fn issued(
    secret: Seq<u8>,
    uid: u128,
    refresh: bool,
    ver: Option<i64>,
    lifetime_ms: i64,
    now: i64,
) -> Result<(Seq<char>, i64), AuthError> {
    match expiry_after(now, lifetime_ms) {
        None => Err(AuthError::InvalidLifetime),
        Some(exp) => Ok((encoded(secret, Claims { exp, uid, refresh, ver }), exp)),
    }
}

/// The token alone of what issuing gives.
pub open spec fn issued_token(
    secret: Seq<u8>,
    uid: u128,
    refresh: bool,
    ver: Option<i64>,
    lifetime_ms: i64,
    now: i64,
) -> Result<Seq<char>, AuthError> {
    match issued(secret, uid, refresh, ver, lifetime_ms, now) {
        Ok((token, _)) => Ok(token),
        Err(e) => Err(e),
    }
}

/// An issuing result with the token as text.
pub open spec fn pair_view(r: Result<(String, i64), AuthError>) -> Result<
    (Seq<char>, i64),
    AuthError,
> {
    match r {
        Ok((token, exp)) => Ok((token@, exp)),
        Err(e) => Err(e),
    }
}

/// A token result with the token as text.
pub open spec fn token_view(r: Result<String, AuthError>) -> Result<Seq<char>, AuthError> {
    match r {
        Ok(token) => Ok(token@),
        Err(e) => Err(e),
    }
}

/// Whether a token validates, at every time up to and including `exp`, to
/// exactly the given claims.
pub open spec fn validates_until(secret: Seq<u8>, token: Seq<char>, claims: Claims) -> bool {
    forall|later: i64|
        later <= claims.exp ==> #[trigger] validated(secret, token, later) == Ok::<
            Claims,
            AuthError,
        >(claims)
}

/// Whether `r` is what issuing at `now` gives, token and expiry, and the
/// token, if there is one, validates until its expiry to the claims it was
/// issued for.
pub open spec fn pair_issued(
    r: Result<(String, i64), AuthError>,
    secret: Seq<u8>,
    uid: u128,
    refresh: bool,
    ver: Option<i64>,
    lifetime_ms: i64,
    now: i64,
) -> bool {
    &&& pair_view(r) == issued(secret, uid, refresh, ver, lifetime_ms, now)
    &&& r matches Ok((token, exp)) ==> validates_until(
        secret,
        token@,
        (Claims { exp, uid, refresh, ver }),
    )
}

/// The same for a function that hands out the token alone.
pub open spec fn token_issued(
    r: Result<String, AuthError>,
    secret: Seq<u8>,
    uid: u128,
    refresh: bool,
    ver: Option<i64>,
    lifetime_ms: i64,
    now: i64,
) -> bool {
    &&& token_view(r) == issued_token(secret, uid, refresh, ver, lifetime_ms, now)
    &&& r matches Ok(token) ==> now + lifetime_ms <= i64::MAX && validates_until(
        secret,
        token@,
        (Claims { exp: (now + lifetime_ms) as i64, uid, refresh, ver }),
    )
}

/// Issuing succeeds exactly where there is an expiry; at a clock reading that
/// is wherever the lifetime is positive and at most `MAX_SAFE_LIFETIME_MS`.
pub proof fn issuing_succeeds(
    secret: Seq<u8>,
    uid: u128,
    refresh: bool,
    ver: Option<i64>,
    lifetime_ms: i64,
    now: i64,
)
    ensures
        issued(secret, uid, refresh, ver, lifetime_ms, now) is Ok <==> expiry_after(
            now,
            lifetime_ms,
        ) is Some,
        lifetime_ms <= 0 ==> issued(secret, uid, refresh, ver, lifetime_ms, now) == Err::<
            (Seq<char>, i64),
            AuthError,
        >(AuthError::InvalidLifetime),
        clock_reading(now) && 0 < lifetime_ms <= MAX_SAFE_LIFETIME_MS ==> issued(
            secret,
            uid,
            refresh,
            ver,
            lifetime_ms,
            now,
        ) is Ok,
{
}

/// The expiry of a token issued at `now` for `lifetime_ms`.
pub fn expiry_at(now: i64, lifetime_ms: i64) -> (r: Option<i64>)
    ensures
        r == expiry_after(now, lifetime_ms),
{
    if lifetime_ms <= 0 {
        None
    } else {
        now.checked_add(lifetime_ms)
    }
}

/// Issues a token at a given time: the one signing routine behind every kind
/// of token. The kind, the version and the lifetime are all arguments.
///
/// It fails exactly where the lifetime is not positive or the expiry cannot
/// be represented. The token validates under the same secret, until its
/// expiry, to the claims it was issued for.
pub fn create_jwt_at(
    uid: u128,
    refresh: bool,
    ver: Option<i64>,
    key: &EncodingKey,
    lifetime_ms: i64,
    now: i64,
) -> (r: Result<(String, i64), AuthError>)
    ensures
        pair_issued(r, key@, uid, refresh, ver, lifetime_ms, now),
{
    match expiry_at(now, lifetime_ms) {
        None => Err(AuthError::InvalidLifetime),
        Some(exp) => {
            let claims = Claims { exp, uid, refresh, ver };
            match encode(&claims, key) {
                Ok(token) => Ok((token, exp)),
                Err(e) => Err(e),
            }
        },
    }
}

/// Issues an access token for a user at a given time, with its expiry: `now`
/// plus the configured access lifetime.
pub fn create_normal_jwt_at(user: u128, key: &EncodingKey, lifetimes: &Lifetimes, now: i64) -> (r:
    Result<(String, i64), AuthError>)
    ensures
        pair_issued(r, key@, user, false, None, lifetimes.access_ms, now),
{
    create_jwt_at(user, false, None, key, lifetimes.access_ms, now)
}

/// Issues a refresh token for a user at a given time, embedding the user's
/// current revocation version. It lasts for the configured refresh lifetime;
/// the expiry is not handed out.
pub fn create_refresh_jwt_at(
    user: u128,
    key: &EncodingKey,
    version: i64,
    lifetimes: &Lifetimes,
    now: i64,
) -> (r: Result<String, AuthError>)
    ensures
        token_issued(r, key@, user, true, Some(version), lifetimes.refresh_ms, now),
{
    match create_jwt_at(user, true, Some(version), key, lifetimes.refresh_ms, now) {
        Ok((token, _)) => Ok(token),
        Err(e) => Err(e),
    }
}

/// Issues a non-refresh token with a lifetime of the caller's choosing, at a
/// given time. Meant for the service identity.
pub fn create_other_jwt_at(user: u128, key: &EncodingKey, lifetime_ms: i64, now: i64) -> (r: Result<
    String,
    AuthError,
>)
    ensures
        token_issued(r, key@, user, false, None, lifetime_ms, now),
{
    match create_jwt_at(user, false, None, key, lifetime_ms, now) {
        Ok((token, _)) => Ok(token),
        Err(e) => Err(e),
    }
}

/// Issues an access token for a user now. Returns the token and its expiry.
///
/// With a positive access lifetime of at most `MAX_SAFE_LIFETIME_MS` a token
/// is issued; with a lifetime of zero or less none is.
pub fn create_normal_jwt(user: u128, key: &EncodingKey, lifetimes: &Lifetimes) -> (r: Result<
    (String, i64),
    AuthError,
>)
    ensures
        exists|now: i64|
            clock_reading(now) && #[trigger] pair_issued(
                r,
                key@,
                user,
                false,
                None,
                lifetimes.access_ms,
                now,
            ),
        0 < lifetimes.access_ms <= MAX_SAFE_LIFETIME_MS ==> r is Ok,
        lifetimes.access_ms <= 0 ==> (r matches Err(e) && e == AuthError::InvalidLifetime),
{
    let now = current_millis();
    create_normal_jwt_at(user, key, lifetimes, now)
}

/// Issues a refresh token for a user now, embedding the given version.
///
/// With a positive refresh lifetime of at most `MAX_SAFE_LIFETIME_MS` a token
/// is issued; with a lifetime of zero or less none is.
pub fn create_refresh_jwt(user: u128, key: &EncodingKey, version: i64, lifetimes: &Lifetimes) -> (r:
    Result<String, AuthError>)
    ensures
        exists|now: i64|
            clock_reading(now) && #[trigger] token_issued(
                r,
                key@,
                user,
                true,
                Some(version),
                lifetimes.refresh_ms,
                now,
            ),
        0 < lifetimes.refresh_ms <= MAX_SAFE_LIFETIME_MS ==> r is Ok,
        lifetimes.refresh_ms <= 0 ==> (r matches Err(e) && e == AuthError::InvalidLifetime),
{
    let now = current_millis();
    create_refresh_jwt_at(user, key, version, lifetimes, now)
}

/// Issues a non-refresh token with a custom lifetime now.
///
/// With a positive lifetime of at most `MAX_SAFE_LIFETIME_MS` a token is
/// issued; with a lifetime of zero or less none is. For a longer lifetime it
/// depends on the clock whether the expiry can be represented.
pub fn create_other_jwt(user: u128, key: &EncodingKey, lifetime_ms: i64) -> (r: Result<
    String,
    AuthError,
>)
    ensures
        exists|now: i64|
            clock_reading(now) && #[trigger] token_issued(
                r,
                key@,
                user,
                false,
                None,
                lifetime_ms,
                now,
            ),
        0 < lifetime_ms <= MAX_SAFE_LIFETIME_MS ==> r is Ok,
        lifetime_ms <= 0 ==> (r matches Err(e) && e == AuthError::InvalidLifetime),
{
    let now = current_millis();
    create_other_jwt_at(user, key, lifetime_ms, now)
}

} // verus!
