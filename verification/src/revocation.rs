use crate::claims::{Claims, TokenKind};
use crate::clock::{clock_reading, current_millis};
use crate::codec::encoded;
use crate::error::AuthError;
use crate::issuer::{
    create_normal_jwt_at, create_refresh_jwt_at, issued, pair_issued, pair_view, token_issued,
    Lifetimes, MAX_SAFE_LIFETIME_MS,
};
use crate::key::EncodingKey;
use crate::validator::{check_version, kind_checked, require_refresh, version_checked};
use vstd::prelude::*;

verus! {

/// The revocation version of a newly created user.
pub const INITIAL_VERSION: i64 = 1;

/// The version that follows `current`, while the counter has room.
pub open spec fn version_after(current: i64) -> Option<i64> {
    if current < i64::MAX {
        Some((current + 1) as i64)
    } else {
        None
    }
}

/// What the renewal endpoint asks of validated claims: a refresh token that
/// embeds the user's current version. The kind is tested first.
pub open spec fn renewal_checked(claims: Claims, current: i64) -> Result<(), AuthError> {
    match kind_checked(claims, TokenKind::Refresh) {
        Ok(_) => version_checked(claims, current),
        Err(e) => Err(e),
    }
}

/// What renewing gives at time `now`: a fresh access token for the subject of
/// the claims, with the given lifetime, if they pass the renewal test.
pub open spec fn renewed(
    secret: Seq<u8>,
    claims: Claims,
    current: i64,
    lifetime_ms: i64,
    now: i64,
) -> Result<(Seq<char>, i64), AuthError> {
    match renewal_checked(claims, current) {
        Ok(_) => issued(secret, claims.uid, false, None, lifetime_ms, now),
        Err(e) => Err(e),
    }
}

/// Whether `r` is what renewing at `now` gives, and the access token, if one
/// was minted, validates until its expiry to access claims for the subject.
pub open spec fn renewal_done(
    r: Result<(String, i64), AuthError>,
    secret: Seq<u8>,
    claims: Claims,
    current: i64,
    lifetime_ms: i64,
    now: i64,
) -> bool {
    &&& pair_view(r) == renewed(secret, claims, current, lifetime_ms, now)
    &&& renewal_checked(claims, current) is Ok ==> pair_issued(
        r,
        secret,
        claims.uid,
        false,
        None,
        lifetime_ms,
        now,
    )
}

/// Whether `r` is what re-issuing after a password change at `now` gives:
/// nothing where the counter is exhausted, else the next version with a
/// refresh token that embeds it, or the failure of issuing that token.
pub open spec fn reissue_done(
    r: Result<Option<(i64, String)>, AuthError>,
    secret: Seq<u8>,
    user: u128,
    current: i64,
    lifetime_ms: i64,
    now: i64,
) -> bool {
    match version_after(current) {
        None => r matches Ok(None),
        Some(next) => match r {
            Ok(Some((version, token))) => version == next && token_issued(
                Ok::<String, AuthError>(token),
                secret,
                user,
                true,
                Some(next),
                lifetime_ms,
                now,
            ),
            Ok(None) => false,
            Err(e) => token_issued(
                Err::<String, AuthError>(e),
                secret,
                user,
                true,
                Some(next),
                lifetime_ms,
                now,
            ),
        },
    }
}

/// The version to store after a password change, or `None` when the counter
/// is exhausted. The store applies it in one read-modify-write.
pub fn next_version(current: i64) -> (r: Option<i64>)
    ensures
        r == version_after(current),
{
    current.checked_add(1)
}

/// Tests validated claims as the renewal endpoint does, against the version
/// that the store holds for their subject.
pub fn check_renewal(claims: &Claims, current: i64) -> (r: Result<(), AuthError>)
    ensures
        r == renewal_checked(*claims, current),
{
    match require_refresh(claims) {
        Ok(_) => check_version(claims, current),
        Err(e) => Err(e),
    }
}

/// Renews at a given time: mints an access token for the subject of validated
/// refresh claims, provided they embed the current version. The token lasts
/// for the configured access lifetime, as every access token does.
pub fn renew_at(
    claims: &Claims,
    current: i64,
    key: &EncodingKey,
    lifetimes: &Lifetimes,
    now: i64,
) -> (r: Result<(String, i64), AuthError>)
    ensures
        renewal_done(r, key@, *claims, current, lifetimes.access_ms, now),
{
    match check_renewal(claims, current) {
        Ok(_) => create_normal_jwt_at(claims.uid, key, lifetimes, now),
        Err(e) => Err(e),
    }
}

/// `renew_at` against the clock.
///
/// Refresh claims that embed the current version get an access token
/// whenever the access lifetime is positive and at most
/// `MAX_SAFE_LIFETIME_MS`; other claims are refused whatever the clock shows.
pub fn renew(claims: &Claims, current: i64, key: &EncodingKey, lifetimes: &Lifetimes) -> (r: Result<
    (String, i64),
    AuthError,
>)
    ensures
        exists|now: i64|
            clock_reading(now) && #[trigger] renewal_done(
                r,
                key@,
                *claims,
                current,
                lifetimes.access_ms,
                now,
            ),
        renewal_checked(*claims, current) matches Err(e) ==> (r matches Err(x) && x == e),
        renewal_checked(*claims, current) is Ok && 0 < lifetimes.access_ms
            <= MAX_SAFE_LIFETIME_MS ==> r is Ok,
{
    let now = current_millis();
    renew_at(claims, current, key, lifetimes, now)
}

/// After a verified password change, at a given time: the version that
/// follows the stored one, and a new refresh token that embeds it, so that
/// the session that changed the password stays usable while every older
/// refresh token is revoked. Gives nothing where the counter is exhausted.
pub fn reissue_after_password_change_at(
    user: u128,
    current: i64,
    key: &EncodingKey,
    lifetimes: &Lifetimes,
    now: i64,
) -> (r: Result<Option<(i64, String)>, AuthError>)
    ensures
        reissue_done(r, key@, user, current, lifetimes.refresh_ms, now),
{
    match next_version(current) {
        None => Ok(None),
        Some(next) => match create_refresh_jwt_at(user, key, next, lifetimes, now) {
            Ok(token) => Ok(Some((next, token))),
            Err(e) => Err(e),
        },
    }
}

/// `reissue_after_password_change_at` against the clock.
///
/// While the counter has room and the refresh lifetime is positive and at
/// most `MAX_SAFE_LIFETIME_MS`, a version and a token come back.
pub fn reissue_after_password_change(
    user: u128,
    current: i64,
    key: &EncodingKey,
    lifetimes: &Lifetimes,
) -> (r: Result<Option<(i64, String)>, AuthError>)
    ensures
        exists|now: i64|
            clock_reading(now) && #[trigger] reissue_done(
                r,
                key@,
                user,
                current,
                lifetimes.refresh_ms,
                now,
            ),
        current == i64::MAX ==> r matches Ok(None),
        current < i64::MAX && 0 < lifetimes.refresh_ms <= MAX_SAFE_LIFETIME_MS ==> r matches Ok(
            Some(_),
        ),
{
    let now = current_millis();
    reissue_after_password_change_at(user, current, key, lifetimes, now)
}

/// A refresh token that embeds version `n` renews while the user is at `n`.
/// Once the user is at any other version, and so after every increment, it is
/// refused as revoked, while a token that embeds the new version renews.
pub proof fn revocation_by_version(claims: Claims, n: i64)
    requires
        claims.refresh,
        claims.ver == Some(n),
    ensures
        renewal_checked(claims, n) is Ok,
        forall|m: i64| m != n ==> #[trigger] renewal_checked(claims, m) == Err::<(), AuthError>(
            AuthError::Revoked,
        ),
        version_after(n) matches Some(next) ==> next == n + 1 && renewal_checked(claims, next)
            == Err::<(), AuthError>(AuthError::Revoked) && renewal_checked(
            (Claims { ver: Some(next), ..claims }),
            next,
        ) is Ok,
{
}

/// The same, down to the token that renewing hands out. For refresh claims
/// at version `n`, a usable access lifetime and a clock reading: while the
/// user is at `n`, renewing gives the access token for the same user that
/// expires one lifetime after `now`; once the user is at the next version it
/// gives `Revoked`; and claims that embed the next version then renew again.
pub proof fn revocation_at_renewal(
    secret: Seq<u8>,
    claims: Claims,
    n: i64,
    lifetime_ms: i64,
    now: i64,
)
    requires
        claims.refresh,
        claims.ver == Some(n),
        n < i64::MAX,
        0 < lifetime_ms <= MAX_SAFE_LIFETIME_MS,
        clock_reading(now),
    ensures
        renewed(secret, claims, n, lifetime_ms, now) == Ok::<(Seq<char>, i64), AuthError>(
            (
                encoded(
                    secret,
                    (Claims {
                        exp: (now + lifetime_ms) as i64,
                        uid: claims.uid,
                        refresh: false,
                        ver: None,
                    }),
                ),
                (now + lifetime_ms) as i64,
            ),
        ),
        renewed(secret, claims, (n + 1) as i64, lifetime_ms, now) == Err::<
            (Seq<char>, i64),
            AuthError,
        >(AuthError::Revoked),
        renewed(
            secret,
            (Claims { ver: Some((n + 1) as i64), ..claims }),
            (n + 1) as i64,
            lifetime_ms,
            now,
        ) is Ok,
{
}

/// Versions only grow: the version after `n` is above `n`, so a token minted
/// at or before `n` never becomes current again.
pub proof fn versions_grow(n: i64)
    ensures
        version_after(n) matches Some(next) ==> next > n,
        version_after(n) is None <==> n == i64::MAX,
{
}

} // verus!
