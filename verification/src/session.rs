use crate::claims::{Claims, SERVICE_UID};
use crate::clock::{clock_reading, current_millis};
use crate::error::AuthError;
use crate::issuer::{
    create_jwt_at, issued, issued_token, token_issued, validates_until, Lifetimes,
};
use crate::key::EncodingKey;
use vstd::prelude::*;

verus! {

/// Lifetime of a token handed to the service identity: ten thousand weeks.
pub const SERVICE_LIFETIME_MS: i64 = 6_048_000_000_000;

/// What a successful login or registration hands to the client.
#[derive(Clone, Debug, PartialEq, Eq)]
pub struct Session {
    /// The user the session belongs to.
    pub userid: u128,
    /// The access token.
    pub token: String,
    /// The refresh token.
    pub refresh_token: String,
    /// When the access token expires, in milliseconds since the epoch.
    pub expires: i64,
}

/// A session with its tokens as text.
pub struct SessionView {
    pub userid: u128,
    pub token: Seq<char>,
    pub refresh_token: Seq<char>,
    pub expires: i64,
}

impl View for Session {
    type V = SessionView;

    open spec fn view(&self) -> SessionView {
        SessionView {
            userid: self.userid,
            token: self.token@,
            refresh_token: self.refresh_token@,
            expires: self.expires,
        }
    }
}

/// The session opened for a user at version `version`: a refresh token that
/// embeds the version and an access token, both issued at `now`. The refresh
/// token is made first, and its failure is the one reported.
pub open spec fn session_opened(
    secret: Seq<u8>,
    user: u128,
    version: i64,
    lifetimes: Lifetimes,
    now: i64,
) -> Result<SessionView, AuthError> {
    match issued(secret, user, true, Some(version), lifetimes.refresh_ms, now) {
        Err(e) => Err(e),
        Ok((refresh_token, _)) => match issued(
            secret,
            user,
            false,
            None,
            lifetimes.access_ms,
            now,
        ) {
            Err(e) => Err(e),
            Ok((token, expires)) => Ok(
                SessionView { userid: user, token, refresh_token, expires },
            ),
        },
    }
}

/// Whether both tokens of a session validate, until they expire, to the claims
/// of a session for `user` at `version`: an access token that expires when the
/// session says, and a refresh token that embeds the version and expires at
/// `refresh_expires`.
pub open spec fn session_validates(
    secret: Seq<u8>,
    session: SessionView,
    user: u128,
    version: i64,
    refresh_expires: i64,
) -> bool {
    &&& validates_until(
        secret,
        session.token,
        (Claims { exp: session.expires, uid: user, refresh: false, ver: None }),
    )
    &&& validates_until(
        secret,
        session.refresh_token,
        (Claims { exp: refresh_expires, uid: user, refresh: true, ver: Some(version) }),
    )
}

/// Whether `r` is the session that opening at `now` gives, and both its
/// tokens, if there is one, validate until they expire.
pub open spec fn session_done(
    r: Result<Session, AuthError>,
    secret: Seq<u8>,
    user: u128,
    version: i64,
    lifetimes: Lifetimes,
    now: i64,
) -> bool {
    &&& session_view(r) == session_opened(secret, user, version, lifetimes, now)
    &&& r matches Ok(session) ==> now + lifetimes.refresh_ms <= i64::MAX && session_validates(
        secret,
        session@,
        user,
        version,
        (now + lifetimes.refresh_ms) as i64,
    )
}

/// Whether `r` is the outcome of a login at `now`, and both tokens of the
/// session, if one was opened, validate until they expire.
pub open spec fn login_done(
    r: Result<Option<Session>, AuthError>,
    secret: Seq<u8>,
    user: Option<(u128, i64)>,
    lifetimes: Lifetimes,
    now: i64,
) -> bool {
    &&& login_view(r) == logged_in(secret, user, lifetimes, now)
    &&& r matches Ok(Some(session)) ==> user matches Some((id, version)) && now
        + lifetimes.refresh_ms <= i64::MAX && session_validates(
        secret,
        session@,
        id,
        version,
        (now + lifetimes.refresh_ms) as i64,
    )
}

/// The outcome of a login: no session where the credentials did not verify.
pub open spec fn logged_in(
    secret: Seq<u8>,
    user: Option<(u128, i64)>,
    lifetimes: Lifetimes,
    now: i64,
) -> Result<Option<SessionView>, AuthError> {
    match user {
        None => Ok(None),
        Some((id, version)) => match session_opened(secret, id, version, lifetimes, now) {
            Ok(session) => Ok(Some(session)),
            Err(e) => Err(e),
        },
    }
}

/// The outcome of asking for the service token: a token for the service
/// identity where the presented secret is the signing secret, nothing
/// otherwise.
pub open spec fn service_token(secret: Seq<u8>, presented: Seq<u8>, now: i64) -> Result<
    Option<Seq<char>>,
    AuthError,
> {
    if presented == secret {
        match issued_token(secret, SERVICE_UID, false, None, SERVICE_LIFETIME_MS, now) {
            Ok(token) => Ok(Some(token)),
            Err(e) => Err(e),
        }
    } else {
        Ok(None)
    }
}

/// A session result with its tokens as text.
pub open spec fn session_view(r: Result<Session, AuthError>) -> Result<SessionView, AuthError> {
    match r {
        Ok(session) => Ok(session@),
        Err(e) => Err(e),
    }
}

/// A login result with its tokens as text.
pub open spec fn login_view(r: Result<Option<Session>, AuthError>) -> Result<
    Option<SessionView>,
    AuthError,
> {
    match r {
        Ok(Some(session)) => Ok(Some(session@)),
        Ok(None) => Ok(None),
        Err(e) => Err(e),
    }
}

/// An optional-token result with the token as text.
pub open spec fn optional_token_view(r: Result<Option<String>, AuthError>) -> Result<
    Option<Seq<char>>,
    AuthError,
> {
    match r {
        Ok(Some(token)) => Ok(Some(token@)),
        Ok(None) => Ok(None),
        Err(e) => Err(e),
    }
}

/// Whether two byte strings are the same.
pub fn same_bytes(a: &[u8], b: &[u8]) -> (same: bool)
    ensures
        same == (a@ == b@),
{
    if a.len() != b.len() {
        return false;
    }
    let mut i: usize = 0;
    while i < a.len()
        invariant
            i <= a.len(),
            a.len() == b.len(),
            forall|j: int| 0 <= j < i ==> a@[j] == b@[j],
        decreases a.len() - i,
    {
        if a[i] != b[i] {
            return false;
        }
        i += 1;
    }
    assert(a@ =~= b@);
    true
}

/// Opens a session at a given time for a user whose stored version is
/// `version`: after a login, or with the initial version after registration.
pub fn open_session_at(
    user: u128,
    version: i64,
    key: &EncodingKey,
    lifetimes: &Lifetimes,
    now: i64,
) -> (r: Result<Session, AuthError>)
    ensures
        session_done(r, key@, user, version, *lifetimes, now),
{
    match create_jwt_at(user, true, Some(version), key, lifetimes.refresh_ms, now) {
        Err(e) => Err(e),
        Ok((refresh_token, _)) => match create_jwt_at(
            user,
            false,
            None,
            key,
            lifetimes.access_ms,
            now,
        ) {
            Err(e) => Err(e),
            Ok((token, expires)) => Ok(Session { userid: user, token, refresh_token, expires }),
        },
    }
}

/// `open_session_at` against the clock.
pub fn open_session(user: u128, version: i64, key: &EncodingKey, lifetimes: &Lifetimes) -> (r:
    Result<Session, AuthError>)
    ensures
        exists|now: i64|
            clock_reading(now) && #[trigger] session_done(r, key@, user, version, *lifetimes, now),
        lifetimes.usable() ==> r is Ok,
{
    let now = current_millis();
    open_session_at(user, version, key, lifetimes, now)
}

/// Decides a login at a given time. `user` is what the password check gave:
/// the user's id and stored version, or nothing where email and password did
/// not match, in which case no session is opened.
pub fn login_at(user: Option<(u128, i64)>, key: &EncodingKey, lifetimes: &Lifetimes, now: i64) -> (r:
    Result<Option<Session>, AuthError>)
    ensures
        login_done(r, key@, user, *lifetimes, now),
{
    match user {
        None => Ok(None),
        Some((id, version)) => match open_session_at(id, version, key, lifetimes, now) {
            Ok(session) => Ok(Some(session)),
            Err(e) => Err(e),
        },
    }
}

/// `login_at` against the clock.
pub fn login(user: Option<(u128, i64)>, key: &EncodingKey, lifetimes: &Lifetimes) -> (r: Result<
    Option<Session>,
    AuthError,
>)
    ensures
        exists|now: i64| clock_reading(now) && #[trigger] login_done(r, key@, user, *lifetimes, now),
        user is None ==> r matches Ok(None),
        user is Some && lifetimes.usable() ==> r matches Ok(Some(_)),
{
    let now = current_millis();
    login_at(user, key, lifetimes, now)
}

/// Hands out the service token at a given time to a caller who presents the
/// signing secret itself; any other caller gets nothing.
pub fn service_token_at(presented: &[u8], key: &EncodingKey, now: i64) -> (r: Result<
    Option<String>,
    AuthError,
>)
    ensures
        optional_token_view(r) == service_token(key@, presented@, now),
        r matches Ok(Some(token)) ==> token_issued(
            Ok::<String, AuthError>(token),
            key@,
            SERVICE_UID,
            false,
            None,
            SERVICE_LIFETIME_MS,
            now,
        ),
{
    if same_bytes(presented, key.as_bytes()) {
        match create_jwt_at(SERVICE_UID, false, None, key, SERVICE_LIFETIME_MS, now) {
            Ok((token, _)) => Ok(Some(token)),
            Err(e) => Err(e),
        }
    } else {
        Ok(None)
    }
}

/// `service_token_at` against the clock.
pub fn secret_get_bot_user_token(presented: &[u8], key: &EncodingKey) -> (r: Result<
    Option<String>,
    AuthError,
>)
    ensures
        exists|now: i64|
            clock_reading(now) && optional_token_view(r) == #[trigger] service_token(
                key@,
                presented@,
                now,
            ),
        presented@ == key@ ==> r matches Ok(Some(_)),
        presented@ != key@ ==> r matches Ok(None),
{
    let now = current_millis();
    service_token_at(presented, key, now)
}

} // verus!
