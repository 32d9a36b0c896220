use crate::claims::Claims;
use crate::error::AuthError;
use crate::key::{DecodingKey, EncodingKey};
use vstd::prelude::*;

verus! {

/// The failure type of the `jsonwebtoken` crate. Its content is never read:
/// every failure to open a token is reported alike.
#[verifier::external_type_specification]
#[verifier::external_body]
pub struct ExTokenFailure(jsonwebtoken::errors::Error);

/// The fields found in the payload of a token whose signature verified. A
/// field is `None` where the payload lacks it or holds a value of another type.
#[derive(Clone, Debug)]
pub struct Payload {
    pub exp: Option<i64>,
    pub uid: Option<String>,
    pub refresh: Option<bool>,
    pub ver: Option<i64>,
}

/// A payload with its text as a sequence of characters.
pub struct PayloadView {
    pub exp: Option<i64>,
    pub uid: Option<Seq<char>>,
    pub refresh: Option<bool>,
    pub ver: Option<i64>,
}

impl View for Payload {
    type V = PayloadView;

    open spec fn view(&self) -> PayloadView {
        PayloadView {
            exp: self.exp,
            uid: match self.uid {
                Some(text) => Some(text@),
                None => None,
            },
            refresh: self.refresh,
            ver: self.ver,
        }
    }
}

/// The lower-case hexadecimal digit for a value below sixteen.
pub open spec fn hex_digit(value: u128) -> char {
    seq![
        '0',
        '1',
        '2',
        '3',
        '4',
        '5',
        '6',
        '7',
        '8',
        '9',
        'a',
        'b',
        'c',
        'd',
        'e',
        'f',
    ][value as int]
}

/// Which of the 32 digits of a UUID stands at place `i` of its hyphenated
/// text, counted from the most significant.
pub open spec fn digit_at(i: int) -> int {
    if i < 8 {
        i
    } else if i < 13 {
        i - 1
    } else if i < 18 {
        i - 2
    } else if i < 23 {
        i - 3
    } else {
        i - 4
    }
}

/// The hyphenated lower-case text of the UUID with the given 128-bit value:
/// 36 characters, the 32 hexadecimal digits of the value from the most
/// significant down, with hyphens at places 8, 13, 18 and 23.
pub open spec fn uuid_text(uid: u128) -> Seq<char> {
    Seq::new(
        36,
        |i: int|
            if i == 8 || i == 13 || i == 18 || i == 23 {
                '-'
            } else {
                hex_digit((uid >> ((4 * (31 - digit_at(i))) as u128)) & 0xf)
            },
    )
}

/// The 128-bit value of the UUID that a text spells, if it spells one.
pub uninterp spec fn uuid_value(text: Seq<char>) -> Option<u128>;

/// The HS512 token over a payload with the given fields, signed with the
/// secret.
pub uninterp spec fn signed_token(
    secret: Seq<u8>,
    exp: i64,
    uid: Seq<char>,
    refresh: bool,
    ver: Option<i64>,
) -> Seq<char>;

/// The payload fields of a token, if it is a well-formed HS512 token whose
/// signature verifies under the secret; `None` otherwise.
pub uninterp spec fn token_payload(secret: Seq<u8>, token: Seq<char>) -> Option<PayloadView>;

/// The HMAC-SHA-512 of a message under the secret, as the unpadded URL-safe
/// base64 text that stands in a token's signature segment: what
/// `jsonwebtoken::crypto::sign` gives for HS512, which `encode` calls to sign
/// and `decode` to verify.
pub uninterp spec fn mac_text(secret: Seq<u8>, message: Seq<char>) -> Seq<char>;

/// Length of the signature segment: 64 bytes of digest in unpadded base64.
pub const SIGNATURE_LEN: usize = 86;

/// The signed part of a token: header and payload with the dot between them.
pub open spec fn message_of(token: Seq<char>) -> Seq<char> {
    token.subrange(0, token.len() - SIGNATURE_LEN - 1)
}

/// The signature segment of a token.
pub open spec fn signature_of(token: Seq<char>) -> Seq<char> {
    token.subrange(token.len() - SIGNATURE_LEN, token.len() as int)
}

/// Whether a token ends in a dot followed by the MAC, under the secret, of
/// all that stands before that dot.
pub open spec fn well_signed(secret: Seq<u8>, token: Seq<char>) -> bool {
    &&& token.len() > SIGNATURE_LEN
    &&& token[token.len() - SIGNATURE_LEN - 1] == '.'
    &&& signature_of(token) == mac_text(secret, message_of(token))
}

/// `Uuid::from_u128(uid).to_hyphenated().to_string()` of the `uuid` crate.
/// Claims that the text is the hyphenated lower-case form of the value, and
/// that `Uuid::parse_str` reads the same value back from it. Not proved.
#[verifier::external_body]
fn uuid_to_text(uid: u128) -> (text: String)
    ensures
        text@ == uuid_text(uid),
        uuid_value(text@) == Some(uid),
{
    uuid::Uuid::from_u128(uid).to_hyphenated().to_string()
}

/// `Uuid::parse_str` of the `uuid` crate, followed by `Uuid::as_u128`. Claims
/// only that the outcome is a function of the text. Not proved.
#[verifier::external_body]
fn uuid_from_text(text: &str) -> (uid: Option<u128>)
    ensures
        uid == uuid_value(text@),
{
    uuid::Uuid::parse_str(text).ok().map(|id| id.as_u128())
}

/// `jsonwebtoken::encode` with an HS512 header, on a JSON object with the
/// fields `exp`, `uid`, `refresh` and, where given, `ver`. Claims that the
/// call succeeds: with an HMAC key and an HS512 header `encode` has no failing
/// path, since writing a JSON object of integers, text and booleans to a
/// string cannot fail and HMAC signing returns `Ok` always. Claims further
/// that the token is a function of the secret and the fields; that it is the
/// message, a dot, and the 86 characters of the message's MAC; and that it
/// opens under the same secret to exactly these fields: `decode` re-signs the
/// message and compares, and reads the JSON that `encode` wrote. Not proved.
#[verifier::external_body]
fn sign_payload(secret: &[u8], exp: i64, uid: &str, refresh: bool, ver: Option<i64>) -> (r: Result<
    String,
    jsonwebtoken::errors::Error,
>)
    ensures
        r is Ok,
        r matches Ok(token) ==> {
            &&& token@ == signed_token(secret@, exp, uid@, refresh, ver)
            &&& token@.len() > SIGNATURE_LEN
            &&& token@[token@.len() - SIGNATURE_LEN - 1] == '.'
            &&& signature_of(token@) == mac_text(secret@, message_of(token@))
            &&& token_payload(secret@, token@) == Some(
                (PayloadView { exp: Some(exp), uid: Some(uid@), refresh: Some(refresh), ver }),
            )
        },
{
    let mut payload = serde_json::Map::new();
    payload.insert("exp".to_string(), serde_json::Value::from(exp));
    payload.insert("uid".to_string(), serde_json::Value::from(uid));
    payload.insert("refresh".to_string(), serde_json::Value::from(refresh));
    payload.extend(ver.map(|v| ("ver".to_string(), serde_json::Value::from(v))));
    let header = jsonwebtoken::Header::new(jsonwebtoken::Algorithm::HS512);
    jsonwebtoken::encode(&header, &payload, &jsonwebtoken::EncodingKey::from_secret(secret))
}

/// `jsonwebtoken::decode` for HS512 with its own expiry test switched off (it
/// counts in seconds; expiry is tested here, in milliseconds). The fields are
/// picked from the JSON object with `serde_json::Value::get`. Claims that the
/// outcome is a function of the secret and the token, and that a token is
/// opened only if what follows its last dot is the MAC under the secret of
/// what stands before it, as `jsonwebtoken::crypto::verify` tests for HMAC by
/// signing again and comparing. Not proved.
#[verifier::external_body]
fn read_token(secret: &[u8], token: &str) -> (r: Result<Payload, jsonwebtoken::errors::Error>)
    ensures
        match r {
            Ok(payload) => {
                &&& token@.len() > SIGNATURE_LEN
                &&& token@[token@.len() - SIGNATURE_LEN - 1] == '.'
                &&& signature_of(token@) == mac_text(secret@, message_of(token@))
                &&& token_payload(secret@, token@) == Some(payload@)
            },
            Err(_) => token_payload(secret@, token@) is None,
        },
{
    let mut rules = jsonwebtoken::Validation::new(jsonwebtoken::Algorithm::HS512);
    rules.validate_exp = false;
    let key = jsonwebtoken::DecodingKey::from_secret(secret);
    let body = jsonwebtoken::decode::<serde_json::Value>(token, &key, &rules)?.claims;
    Ok(Payload {
        exp: body.get("exp").and_then(serde_json::Value::as_i64),
        uid: body.get("uid").and_then(serde_json::Value::as_str).map(String::from),
        refresh: body.get("refresh").and_then(serde_json::Value::as_bool),
        ver: body.get("ver").and_then(serde_json::Value::as_i64),
    })
}

/// The claims that payload fields amount to. `exp`, `uid` and `refresh` are
/// required; a payload that lacks one is as bad as a forged token.
pub open spec fn claims_of_parts(
    exp: Option<i64>,
    uid: Option<u128>,
    refresh: Option<bool>,
    ver: Option<i64>,
) -> Result<Claims, AuthError> {
    if exp is Some && uid is Some && refresh is Some {
        Ok(Claims { exp: exp->0, uid: uid->0, refresh: refresh->0, ver })
    } else {
        Err(AuthError::InvalidSignature)
    }
}

/// The subject id that a payload names, if its `uid` field spells a UUID.
pub open spec fn payload_uid(payload: PayloadView) -> Option<u128> {
    match payload.uid {
        Some(text) => uuid_value(text),
        None => None,
    }
}

/// What a token decodes to under a secret. A token that is not well signed
/// decodes to nothing, whatever its payload says.
pub open spec fn decoded(secret: Seq<u8>, token: Seq<char>) -> Result<Claims, AuthError> {
    if !well_signed(secret, token) {
        Err(AuthError::InvalidSignature)
    } else {
        match token_payload(secret, token) {
            Some(payload) => claims_of_parts(
                payload.exp,
                payload_uid(payload),
                payload.refresh,
                payload.ver,
            ),
            None => Err(AuthError::InvalidSignature),
        }
    }
}

/// The token for given claims under a secret.
pub open spec fn encoded(secret: Seq<u8>, claims: Claims) -> Seq<char> {
    signed_token(secret, claims.exp, uuid_text(claims.uid), claims.refresh, claims.ver)
}

/// Builds claims from the fields of a verified payload.
pub fn claims_from_parts(
    exp: Option<i64>,
    uid: Option<u128>,
    refresh: Option<bool>,
    ver: Option<i64>,
) -> (r: Result<Claims, AuthError>)
    ensures
        r == claims_of_parts(exp, uid, refresh, ver),
{
    match (exp, uid, refresh) {
        (Some(exp), Some(uid), Some(refresh)) => Ok(Claims { exp, uid, refresh, ver }),
        _ => Err(AuthError::InvalidSignature),
    }
}

/// Signs claims into a token.
///
/// Signing with a secret does not fail. The token is a function of the key
/// and the claims, and decodes under the same secret to the claims it was
/// made from.
pub fn encode(claims: &Claims, key: &EncodingKey) -> (r: Result<String, AuthError>)
    ensures
        r matches Ok(t) && t@ == encoded(key@, *claims) && decoded(key@, t@) == Ok::<
            Claims,
            AuthError,
        >(*claims),
{
    let uid = uuid_to_text(claims.uid);
    match sign_payload(key.as_bytes(), claims.exp, uid.as_str(), claims.refresh, claims.ver) {
        Ok(token) => Ok(token),
        Err(_) => Err(AuthError::SigningFailed),
    }
}

/// Verifies a token's signature and reads its claims. Nothing in the token is
/// trusted before the signature has verified, and every failure, whatever its
/// cause, is `InvalidSignature`.
pub fn decode(token: &str, key: &DecodingKey) -> (r: Result<Claims, AuthError>)
    ensures
        r == decoded(key@, token@),
{
    match read_token(key.as_bytes(), token) {
        Ok(payload) => {
            let uid = match &payload.uid {
                Some(text) => uuid_from_text(text.as_str()),
                None => None,
            };
            claims_from_parts(payload.exp, uid, payload.refresh, payload.ver)
        },
        Err(_) => Err(AuthError::InvalidSignature),
    }
}

/// A token is accepted only if its signature segment is the MAC, under the
/// verifying secret, of its header and payload as presented.
pub proof fn accepted_token_carries_its_mac(secret: Seq<u8>, token: Seq<char>)
    requires
        decoded(secret, token) is Ok,
    ensures
        token.len() > SIGNATURE_LEN,
        signature_of(token) == mac_text(secret, message_of(token)),
{
}

/// Changing the signature segment of an accepted token, and nothing else,
/// gets the token rejected as badly signed.
pub proof fn forged_signature_is_rejected(secret: Seq<u8>, token: Seq<char>, forged: Seq<char>)
    requires
        decoded(secret, token) is Ok,
        forged.len() == token.len(),
        message_of(forged) == message_of(token),
        forged != token,
    ensures
        decoded(secret, forged) == Err::<Claims, AuthError>(AuthError::InvalidSignature),
{
    if well_signed(secret, forged) {
        let cut = token.len() - SIGNATURE_LEN - 1;
        assert forall|i: int| 0 <= i < token.len() implies forged[i] == token[i] by {
            if i < cut {
                assert(forged[i] == message_of(forged)[i]);
                assert(token[i] == message_of(token)[i]);
            } else if i > cut {
                assert(forged[i] == signature_of(forged)[i - cut - 1]);
                assert(token[i] == signature_of(token)[i - cut - 1]);
            }
        }
        assert(forged =~= token);
    }
}

/// If a token with a changed header or payload, but the old signature, is
/// accepted, then the old and the new message have the same MAC under the
/// secret: nothing short of a collision lets altered claims through.
pub proof fn altered_message_needs_a_collision(
    secret: Seq<u8>,
    token: Seq<char>,
    altered: Seq<char>,
)
    requires
        decoded(secret, token) is Ok,
        decoded(secret, altered) is Ok,
        signature_of(altered) == signature_of(token),
    ensures
        mac_text(secret, message_of(altered)) == mac_text(secret, message_of(token)),
{
}

/// If one token is accepted under two secrets, the two give its message the
/// same MAC: a token signed with one key passes under another only where the
/// keys collide on it.
pub proof fn second_key_needs_a_collision(first: Seq<u8>, second: Seq<u8>, token: Seq<char>)
    requires
        decoded(first, token) is Ok,
        decoded(second, token) is Ok,
    ensures
        mac_text(first, message_of(token)) == mac_text(second, message_of(token)),
{
}

} // verus!
