use token_auth::claims::{Claims, Identity, TokenKind, SERVICE_UID};
use token_auth::codec::encode;
use token_auth::error::AuthError;
use token_auth::event::{update_event, Event, StoreError};
use token_auth::issuer::{
    create_normal_jwt, create_normal_jwt_at, create_refresh_jwt_at, Lifetimes,
};
use token_auth::key::{DecodingKey, EncodingKey};
use token_auth::revocation::{
    check_renewal, next_version, reissue_after_password_change,
    reissue_after_password_change_at, renew, renew_at, INITIAL_VERSION,
};
use token_auth::key::{key_pair, MIN_SECRET_LEN};
use token_auth::session::{secret_get_bot_user_token, service_token_at};
use token_auth::validator::{
    authorize, authorize_at, authorize_identity, authorize_identity_at, check_version,
    require_access, require_human, require_identity, require_kind, require_refresh,
    require_service, validate_token_at,
};

const USER: u128 = 0x936DA01F9ABD4D9D80C702AF85C822A8;

fn keys() -> (EncodingKey, DecodingKey) {
    (EncodingKey::from_secret(b"secret".to_vec()), DecodingKey::from_secret(b"secret".to_vec()))
}

fn access(uid: u128) -> Claims {
    Claims { exp: 10, uid, refresh: false, ver: None }
}

fn refresh(uid: u128, ver: i64) -> Claims {
    Claims { exp: 10, uid, refresh: true, ver: Some(ver) }
}

#[test]
fn kinds_are_kept_apart() {
    assert_eq!(access(USER).kind(), TokenKind::Access);
    assert_eq!(refresh(USER, 1).kind(), TokenKind::Refresh);
    assert_eq!(require_access(&access(USER)), Ok(()));
    assert_eq!(require_access(&refresh(USER, 1)), Err(AuthError::WrongTokenKind));
    assert_eq!(require_refresh(&refresh(USER, 1)), Ok(()));
    assert_eq!(require_refresh(&access(USER)), Err(AuthError::WrongTokenKind));
    assert_eq!(require_kind(&access(USER), TokenKind::Refresh), Err(AuthError::WrongTokenKind));
    assert_eq!(require_kind(&access(USER), TokenKind::Access), Ok(()));
}

#[test]
fn endpoint_rejects_the_other_kind_of_token() {
    let (e, d) = keys();
    let (access_token, exp) = create_normal_jwt_at(USER, &e, &Lifetimes::standard(), 1_000).unwrap();
    let refresh_token = create_refresh_jwt_at(USER, &e, 1, &Lifetimes::standard(), 1_000).unwrap();
    assert_eq!(
        authorize_at(Some(&access_token), &d, TokenKind::Access, 2_000),
        Ok(Claims { exp, uid: USER, refresh: false, ver: None })
    );
    assert_eq!(
        authorize_at(Some(&refresh_token), &d, TokenKind::Access, 2_000),
        Err(AuthError::WrongTokenKind)
    );
    assert_eq!(
        authorize_at(Some(&access_token), &d, TokenKind::Refresh, 2_000),
        Err(AuthError::WrongTokenKind)
    );
    assert_eq!(
        authorize_at(Some(&refresh_token), &d, TokenKind::Refresh, 2_000).map(|c| c.ver),
        Ok(Some(1))
    );
}

#[test]
fn missing_credential_is_its_own_error() {
    let (_, d) = keys();
    assert_eq!(authorize_at(None, &d, TokenKind::Access, 0), Err(AuthError::MissingCredential));
    assert_eq!(authorize(None, &d, TokenKind::Refresh), Err(AuthError::MissingCredential));
}

#[test]
fn authorize_orders_its_checks() {
    let (e, d) = keys();
    let stale = encode(&Claims { exp: 5, uid: USER, refresh: true, ver: Some(1) }, &e).unwrap();
    assert_eq!(authorize_at(Some(&stale), &d, TokenKind::Access, 6), Err(AuthError::Expired));
    assert_eq!(authorize_at(Some("junk"), &d, TokenKind::Access, 6), Err(AuthError::InvalidSignature));
    assert_eq!(authorize(Some(&stale), &d, TokenKind::Refresh), Err(AuthError::Expired));
}

#[test]
fn version_must_be_current() {
    assert_eq!(check_version(&refresh(USER, 3), 3), Ok(()));
    assert_eq!(check_version(&refresh(USER, 3), 4), Err(AuthError::Revoked));
    assert_eq!(check_version(&refresh(USER, 3), 2), Err(AuthError::Revoked));
    assert_eq!(check_version(&access(USER), 1), Err(AuthError::Revoked));
}

#[test]
fn password_change_revokes_old_refresh_tokens() {
    let (e, d) = keys();
    let n = INITIAL_VERSION;
    let old_token = create_refresh_jwt_at(USER, &e, n, &Lifetimes::standard(), 1_000).unwrap();
    let old_claims = validate_token_at(&old_token, &d, 2_000).unwrap();
    assert_eq!(check_renewal(&old_claims, n), Ok(()));
    assert!(renew_at(&old_claims, n, &e, &Lifetimes::standard(), 2_000).is_ok());

    let bumped = next_version(n).unwrap();
    assert_eq!(bumped, n + 1);
    assert_eq!(check_renewal(&old_claims, bumped), Err(AuthError::Revoked));
    assert_eq!(renew_at(&old_claims, bumped, &e, &Lifetimes::standard(), 2_000), Err(AuthError::Revoked));

    let new_token = create_refresh_jwt_at(USER, &e, bumped, &Lifetimes::standard(), 2_000).unwrap();
    let new_claims = validate_token_at(&new_token, &d, 3_000).unwrap();
    assert_eq!(check_renewal(&new_claims, bumped), Ok(()));
}

#[test]
fn renewal_mints_an_access_token_for_the_same_subject() {
    let (e, d) = keys();
    let claims = refresh(USER, 2);
    let (token, exp) = renew_at(&claims, 2, &e, &Lifetimes::standard(), 500).unwrap();
    assert_eq!(exp, 3_600_500);
    assert_eq!(
        validate_token_at(&token, &d, 600),
        Ok(Claims { exp: 3_600_500, uid: USER, refresh: false, ver: None })
    );
    assert_eq!(renew_at(&access(USER), 2, &e, &Lifetimes::standard(), 500), Err(AuthError::WrongTokenKind));
    assert_eq!(renew(&access(USER), 2, &e, &Lifetimes::standard()), Err(AuthError::WrongTokenKind));
    assert_eq!(renew(&claims, 3, &e, &Lifetimes::standard()), Err(AuthError::Revoked));
    assert_eq!(renew_at(&claims, 2, &e, &Lifetimes::standard(), i64::MAX), Err(AuthError::InvalidLifetime));
    assert!(renew(&claims, 2, &e, &Lifetimes::standard()).is_ok());
}

#[test]
fn versions_start_at_one_and_grow() {
    assert_eq!(INITIAL_VERSION, 1);
    assert_eq!(next_version(1), Some(2));
    assert_eq!(next_version(41), Some(42));
    assert_eq!(next_version(-1), Some(0));
    assert_eq!(next_version(i64::MAX), None);
}

#[test]
fn service_identity_is_the_nil_id() {
    assert_eq!(SERVICE_UID, 0);
    assert_eq!(access(SERVICE_UID).identity(), Identity::Service);
    assert_eq!(access(USER).identity(), Identity::Human);
    assert_eq!(access(1).identity(), Identity::Human);
}

#[test]
fn service_and_human_endpoints_are_kept_apart() {
    assert_eq!(require_service(&access(SERVICE_UID)), Ok(()));
    assert_eq!(require_service(&access(USER)), Err(AuthError::IdentityNotPermitted));
    assert_eq!(require_human(&access(USER)), Ok(()));
    assert_eq!(require_human(&access(SERVICE_UID)), Err(AuthError::IdentityNotPermitted));
    assert_eq!(require_identity(&access(USER), Identity::Human), Ok(()));
    assert_eq!(
        require_identity(&access(USER), Identity::Service),
        Err(AuthError::IdentityNotPermitted)
    );
}

#[test]
fn rejections_share_one_status() {
    for e in [
        AuthError::InvalidSignature,
        AuthError::Expired,
        AuthError::WrongTokenKind,
        AuthError::Revoked,
        AuthError::MissingCredential,
        AuthError::IdentityNotPermitted,
    ] {
        assert_eq!(e.status(), 401);
    }
    assert_eq!(AuthError::InvalidLifetime.status(), 500);
    assert_eq!(AuthError::SigningFailed.status(), 500);
}

#[test]
fn reasons_tell_the_errors_apart() {
    assert_eq!(AuthError::InvalidSignature.reason(), "auth/invalid-token");
    assert_eq!(AuthError::Expired.reason(), "auth/token-expired");
    assert_eq!(AuthError::WrongTokenKind.reason(), "auth/wrong-token-kind");
    assert_eq!(AuthError::Revoked.reason(), "auth/token-revoked");
    assert_eq!(AuthError::MissingCredential.reason(), "auth/no-token");
    assert_eq!(AuthError::IdentityNotPermitted.reason(), "auth/identity-not-permitted");
    assert_eq!(AuthError::InvalidLifetime.reason(), "auth/invalid-lifetime");
    assert_eq!(AuthError::SigningFailed.reason(), "auth/signing-failed");
}

#[test]
fn update_event_replaces_the_row_with_the_same_id() {
    let mut rows = vec![
        Event { id: 1, class: 10, start: 100, end: None },
        Event { id: 2, class: 10, start: 200, end: Some(250) },
        Event { id: 3, class: 11, start: 300, end: None },
    ];
    let changed = Event { id: 2, class: 12, start: 210, end: None };
    assert_eq!(update_event(&mut rows, changed), Ok(changed));
    assert_eq!(
        rows,
        vec![
            Event { id: 1, class: 10, start: 100, end: None },
            Event { id: 2, class: 12, start: 210, end: None },
            Event { id: 3, class: 11, start: 300, end: None },
        ]
    );
}

#[test]
fn update_event_without_a_row_changes_nothing() {
    let mut rows = vec![Event { id: 1, class: 10, start: 100, end: None }];
    let changed = Event { id: 9, class: 12, start: 210, end: None };
    assert_eq!(update_event(&mut rows, changed), Err(StoreError::NotFound));
    assert_eq!(rows, vec![Event { id: 1, class: 10, start: 100, end: None }]);
    let mut empty: Vec<Event> = Vec::new();
    assert_eq!(update_event(&mut empty, changed), Err(StoreError::NotFound));
    assert!(empty.is_empty());
}

#[test]
fn service_token_passes_only_where_the_service_is_permitted() {
    let (e, d) = keys();
    let service = service_token_at(b"secret", &e, 1_000).unwrap().unwrap();
    let (human, _) = create_normal_jwt_at(USER, &e, &Lifetimes::standard(), 1_000).unwrap();
    assert_eq!(
        authorize_identity_at(Some(&service), &d, TokenKind::Access, Identity::Service, 2_000)
            .map(|c| c.uid),
        Ok(SERVICE_UID)
    );
    assert_eq!(
        authorize_identity_at(Some(&service), &d, TokenKind::Access, Identity::Human, 2_000),
        Err(AuthError::IdentityNotPermitted)
    );
    assert_eq!(
        authorize_identity_at(Some(&human), &d, TokenKind::Access, Identity::Human, 2_000)
            .map(|c| c.uid),
        Ok(USER)
    );
    assert_eq!(
        authorize_identity_at(Some(&human), &d, TokenKind::Access, Identity::Service, 2_000),
        Err(AuthError::IdentityNotPermitted)
    );
    assert_eq!(
        authorize_identity(Some(&human), &d, TokenKind::Access, Identity::Service),
        Err(AuthError::Expired)
    );
    let (human, _) = create_normal_jwt(USER, &e, &Lifetimes::standard()).unwrap();
    let service = secret_get_bot_user_token(b"secret", &e).unwrap().unwrap();
    assert_eq!(
        authorize_identity(Some(&human), &d, TokenKind::Access, Identity::Service),
        Err(AuthError::IdentityNotPermitted)
    );
    assert_eq!(
        authorize_identity(Some(&service), &d, TokenKind::Access, Identity::Service).map(|c| c.uid),
        Ok(SERVICE_UID)
    );
}

#[test]
fn identity_is_tested_after_everything_else() {
    let (e, d) = keys();
    let refresh_token = create_refresh_jwt_at(USER, &e, 1, &Lifetimes::standard(), 1_000).unwrap();
    assert_eq!(
        authorize_identity_at(Some(&refresh_token), &d, TokenKind::Access, Identity::Service, 2_000),
        Err(AuthError::WrongTokenKind)
    );
    assert_eq!(
        authorize_identity_at(None, &d, TokenKind::Access, Identity::Service, 2_000),
        Err(AuthError::MissingCredential)
    );
    assert_eq!(
        authorize_identity_at(Some("x.y.z"), &d, TokenKind::Access, Identity::Human, 2_000),
        Err(AuthError::InvalidSignature)
    );
}

#[test]
fn key_pair_needs_an_adequate_secret() {
    assert_eq!(MIN_SECRET_LEN, 64);
    assert!(key_pair(Vec::new()).is_none());
    assert!(key_pair(vec![7u8; 63]).is_none());
    let (e, d) = key_pair(vec![7u8; 64]).unwrap();
    assert_eq!(e.as_bytes(), &[7u8; 64][..]);
    assert_eq!(d.as_bytes(), &[7u8; 64][..]);
    let (token, exp) = create_normal_jwt_at(USER, &e, &Lifetimes::standard(), 0).unwrap();
    assert_eq!(
        validate_token_at(&token, &d, 0),
        Ok(Claims { exp, uid: USER, refresh: false, ver: None })
    );
    assert!(key_pair(vec![1u8; 200]).is_some());
}

#[test]
fn renewal_uses_the_configured_access_lifetime() {
    let (e, d) = keys();
    let claims = refresh(USER, 2);
    let (token, exp) = renew_at(&claims, 2, &e, &Lifetimes::diagnostic(), 500).unwrap();
    assert_eq!(exp, 86_400_500);
    assert_eq!(
        validate_token_at(&token, &d, 600),
        Ok(Claims { exp: 86_400_500, uid: USER, refresh: false, ver: None })
    );
    let custom = Lifetimes { access_ms: 7, refresh_ms: 1 };
    assert_eq!(renew_at(&claims, 2, &e, &custom, 500).map(|(_, exp)| exp), Ok(507));
    let unusable = Lifetimes { access_ms: 0, refresh_ms: 1 };
    assert_eq!(renew_at(&claims, 2, &e, &unusable, 500), Err(AuthError::InvalidLifetime));
    assert_eq!(renew(&claims, 2, &e, &unusable), Err(AuthError::InvalidLifetime));
    assert_eq!(renew(&claims, 3, &e, &unusable), Err(AuthError::Revoked));
}

#[test]
fn password_change_reissues_at_the_next_version() {
    let (e, d) = keys();
    let lifetimes = Lifetimes::standard();
    let old_token = create_refresh_jwt_at(USER, &e, 4, &lifetimes, 1_000).unwrap();
    let old_claims = validate_token_at(&old_token, &d, 1_500).unwrap();

    let (version, token) =
        reissue_after_password_change_at(USER, 4, &e, &lifetimes, 2_000).unwrap().unwrap();
    assert_eq!(version, 5);
    assert_eq!(
        validate_token_at(&token, &d, 2_000),
        Ok(Claims { exp: 604_800_002_000, uid: USER, refresh: true, ver: Some(5) })
    );
    assert_eq!(token, create_refresh_jwt_at(USER, &e, 5, &lifetimes, 2_000).unwrap());

    let new_claims = validate_token_at(&token, &d, 2_000).unwrap();
    assert!(renew_at(&new_claims, version, &e, &lifetimes, 2_000).is_ok());
    assert_eq!(renew_at(&old_claims, version, &e, &lifetimes, 2_000), Err(AuthError::Revoked));
}

#[test]
fn password_change_with_an_exhausted_counter_gives_nothing() {
    let (e, _) = keys();
    let lifetimes = Lifetimes::standard();
    assert_eq!(reissue_after_password_change_at(USER, i64::MAX, &e, &lifetimes, 0), Ok(None));
    assert_eq!(reissue_after_password_change(USER, i64::MAX, &e, &lifetimes), Ok(None));
    let unusable = Lifetimes { access_ms: 1, refresh_ms: 0 };
    assert_eq!(
        reissue_after_password_change_at(USER, 1, &e, &unusable, 0),
        Err(AuthError::InvalidLifetime)
    );
    assert_eq!(
        reissue_after_password_change_at(USER, 1, &e, &lifetimes, i64::MAX),
        Err(AuthError::InvalidLifetime)
    );
}

#[test]
fn password_change_from_the_clock_reissues() {
    let (e, d) = keys();
    let (version, token) =
        reissue_after_password_change(USER, INITIAL_VERSION, &e, &Lifetimes::standard())
            .unwrap()
            .unwrap();
    assert_eq!(version, 2);
    let claims = token_auth::validator::validate_token(&token, &d).unwrap();
    assert_eq!((claims.uid, claims.refresh, claims.ver), (USER, true, Some(2)));
}
