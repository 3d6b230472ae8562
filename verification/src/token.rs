//! Bearer tokens.
//!
//! A token is a signed claims payload. Each account signs with its own secret,
//! and every token carries the account's key version, so replacing the secret
//! and bumping the version revokes all tokens issued before.

use crate::auth::{Claims, ClaimsView, UserData, UserView};
use crate::clock::unix_now;
use base64::Engine;
use rand_core::RngCore;
use vstd::prelude::*;

verus! {

/// Number of random bytes in a signing secret: 512 bits.
pub const SECRET_BYTES: usize = 64;

/// Why a token was not accepted.
#[derive(Clone, Copy, Debug, PartialEq, Eq, Structural)]
pub enum TokenError {
    /// The token is not one that the account's secret signed for this account.
    BadSignature,
    /// The token was issued under an earlier key version: it has been revoked.
    VersionMismatch,
    /// The token's expiry lies in the past.
    Expired,
}

/// Why no token could be issued.
#[derive(Clone, Copy, Debug, PartialEq, Eq, Structural)]
pub enum IssueError {
    /// The expiry time does not fit in a timestamp.
    Lifetime,
    /// The account's secret is not valid base64.
    Secret,
    /// The signing library reported an error.
    Signing,
}

/// Value of a [`RawClaims`].
pub struct RawClaimsView {
    pub sub: Option<Seq<char>>,
    pub exp: Option<i64>,
    pub iat: Option<i64>,
    pub ver: Option<u64>,
}

/// A decoded payload before it is known to be complete: each of the four
/// claims is present only if the payload holds it with the right type.
pub struct RawClaims {
    pub sub: Option<String>,
    pub exp: Option<i64>,
    pub iat: Option<i64>,
    pub ver: Option<u64>,
}

impl View for RawClaims {
    type V = RawClaimsView;

    open spec fn view(&self) -> RawClaimsView {
        RawClaimsView {
            sub: match self.sub {
                Some(s) => Some(s@),
                None => None,
            },
            exp: self.exp,
            iat: self.iat,
            ver: self.ver,
        }
    }
}

/// Standard padded base64 text of `bytes`.
pub uninterp spec fn base64_text(bytes: Seq<u8>) -> Seq<char>;

/// The bytes that standard padded base64 `text` stands for, if it is valid.
pub uninterp spec fn base64_bytes(text: Seq<char>) -> Option<Seq<u8>>;

/// The HS256 token over the four claims under `key`, if signing succeeds.
pub uninterp spec fn jwt_text(sub: Seq<char>, exp: i64, iat: i64, ver: u64, key: Seq<u8>) -> Option<
    Seq<char>,
>;

/// The payload that decoding `token` yields: with `checked`, only if its HS256
/// signature is valid under `key`; without, whatever the signature is. Expiry is
/// not looked at in either case.
pub uninterp spec fn jwt_payload(token: Seq<char>, key: Seq<u8>, checked: bool) -> Option<
    RawClaimsView,
>;

/// Fills 64 bytes with `RngCore::fill_bytes` of the operating system's
/// generator. Claimed: the length.
#[verifier::external_body]
fn random_secret() -> (bytes: Vec<u8>)
    ensures
        bytes@.len() == SECRET_BYTES,
{
    let mut secret = [0u8; 64];
    rand_core::OsRng.fill_bytes(&mut secret);
    secret.to_vec()
}

/// Calls `Engine::encode` of `base64::engine::general_purpose::STANDARD`.
/// Claimed: the text depends on the bytes alone, and decoding it gives the
/// bytes back.
#[verifier::external_body]
fn base64_encode(bytes: &[u8]) -> (text: String)
    ensures
        text@ == base64_text(bytes@),
        base64_bytes(text@) == Some(bytes@),
{
    base64::engine::general_purpose::STANDARD.encode(bytes)
}

/// Calls `Engine::decode` of `base64::engine::general_purpose::STANDARD`.
/// Claimed: the outcome depends on the text alone.
#[verifier::external_body]
fn base64_decode(text: &str) -> (bytes: Option<Vec<u8>>)
    ensures
        match bytes {
            Some(b) => base64_bytes(text@) == Some(b@),
            None => base64_bytes(text@).is_none(),
        },
{
    match base64::engine::general_purpose::STANDARD.decode(text) {
        Ok(b) => Some(b),
        Err(_) => None,
    }
}

/// Calls `jsonwebtoken::encode` with the default header (HS256), the four
/// claims as a JSON object with the members `sub`, `exp`, `iat` and `ver`, and
/// `key` as the HMAC secret. Claimed: the token depends on the arguments alone,
/// and decoding it, under `key` with the signature checked or under any key
/// without, gives the four claims back.
#[verifier::external_body]
fn jwt_encode(sub: &str, exp: i64, iat: i64, ver: u64, key: &[u8]) -> (token: Option<String>)
    ensures
        match token {
            Some(t) => jwt_text(sub@, exp, iat, ver, key@) == Some(t@),
            None => jwt_text(sub@, exp, iat, ver, key@).is_none(),
        },
        token matches Some(t) ==> jwt_payload(t@, key@, true) == Some(
            RawClaimsView { sub: Some(sub@), exp: Some(exp), iat: Some(iat), ver: Some(ver) },
        ),
        token matches Some(t) ==> jwt_payload(t@, Seq::<u8>::empty(), false) == Some(
            RawClaimsView { sub: Some(sub@), exp: Some(exp), iat: Some(iat), ver: Some(ver) },
        ),
{
    let mut claims = serde_json::Map::new();
    claims.insert(String::from("sub"), serde_json::Value::from(sub));
    claims.insert(String::from("exp"), serde_json::Value::from(exp));
    claims.insert(String::from("iat"), serde_json::Value::from(iat));
    claims.insert(String::from("ver"), serde_json::Value::from(ver));
    let secret = jsonwebtoken::EncodingKey::from_secret(key);
    jsonwebtoken::encode(&jsonwebtoken::Header::default(), &claims, &secret).ok()
}

/// Calls `jsonwebtoken::decode` for HS256 with `key` as the HMAC secret, with
/// the signature checked, no claim required and expiry not validated, and reads
/// the members `sub`, `exp`, `iat` and `ver` of the payload. Claimed: the
/// outcome depends on the token and the key alone, and a payload that comes
/// out is the one that decoding without the signature check reads, since the
/// key only decides whether the token is refused.
#[verifier::external_body]
fn jwt_decode_checked(token: &str, key: &[u8]) -> (raw: Option<RawClaims>)
    ensures
        match raw {
            Some(r) => jwt_payload(token@, key@, true) == Some(r@),
            None => jwt_payload(token@, key@, true).is_none(),
        },
        raw matches Some(r) ==> jwt_payload(token@, Seq::<u8>::empty(), false) == Some(r@),
{
    let mut rules = jsonwebtoken::Validation::default();
    rules.validate_exp = false;
    rules.required_spec_claims.clear();
    let secret = jsonwebtoken::DecodingKey::from_secret(key);
    let body = jsonwebtoken::decode::<serde_json::Value>(token, &secret, &rules).ok()?.claims;
    Some(RawClaims {
        sub: body["sub"].as_str().map(String::from),
        exp: body["exp"].as_i64(),
        iat: body["iat"].as_i64(),
        ver: body["ver"].as_u64(),
    })
}

/// Calls `jsonwebtoken::decode` as [`jwt_decode_checked`] does, but with
/// signature validation switched off, and reads the same four members.
/// Claimed: the outcome depends on the token alone.
#[verifier::external_body]
fn jwt_decode_unchecked(token: &str) -> (raw: Option<RawClaims>)
    ensures
        match raw {
            Some(r) => jwt_payload(token@, Seq::<u8>::empty(), false) == Some(r@),
            None => jwt_payload(token@, Seq::<u8>::empty(), false).is_none(),
        },
{
    let mut rules = jsonwebtoken::Validation::default();
    rules.validate_exp = false;
    rules.required_spec_claims.clear();
    rules.insecure_disable_signature_validation();
    let secret = jsonwebtoken::DecodingKey::from_secret(&[]);
    let body = jsonwebtoken::decode::<serde_json::Value>(token, &secret, &rules).ok()?.claims;
    Some(RawClaims {
        sub: body["sub"].as_str().map(String::from),
        exp: body["exp"].as_i64(),
        iat: body["iat"].as_i64(),
        ver: body["ver"].as_u64(),
    })
}

/// The claims of a payload that holds all four, and nothing otherwise.
pub open spec fn complete_claims(raw: RawClaimsView) -> Option<ClaimsView> {
    if raw.sub is Some && raw.exp is Some && raw.iat is Some && raw.ver is Some {
        Some(
            ClaimsView {
                sub: raw.sub->Some_0,
                exp: raw.exp->Some_0,
                iat: raw.iat->Some_0,
                ver: raw.ver->Some_0,
            },
        )
    } else {
        None
    }
}

/// True if `secret` is the base64 text of a full-length signing key.
pub open spec fn is_signing_secret(secret: Seq<char>) -> bool {
    base64_bytes(secret) matches Some(key) && key.len() == SECRET_BYTES
}

/// The claims of `token` if its signature is valid under the key that the
/// base64 text `secret` stands for and its payload is complete. They are the
/// claims that the token shows to a reader who does not check the signature.
pub open spec fn signed_claims(token: Seq<char>, secret: Seq<char>) -> Option<ClaimsView> {
    match base64_bytes(secret) {
        Some(key) => match jwt_payload(token, key, true) {
            Some(raw) => if jwt_payload(token, Seq::<u8>::empty(), false) == Some(raw) {
                complete_claims(raw)
            } else {
                None
            },
            None => None,
        },
        None => None,
    }
}

/// The subject that `token` names, read without any check of its signature.
pub open spec fn unverified_subject(token: Seq<char>) -> Option<Seq<char>> {
    match jwt_payload(token, Seq::<u8>::empty(), false) {
        Some(raw) => match complete_claims(raw) {
            Some(claims) => Some(claims.sub),
            None => None,
        },
        None => None,
    }
}

/// The second at which a token issued at `now` for `ttl_minutes` expires.
pub open spec fn expiry(now: i64, ttl_minutes: i64) -> int {
    now + ttl_minutes * 60
}

/// True if `token` is a token of `user`: signed by the user's secret, naming
/// the user as subject, carrying the user's key version and the given times.
pub open spec fn token_of(token: Seq<char>, user: UserView, iat: i64, exp: i64) -> bool {
    signed_claims(token, user.jwt_secret) == Some(
        ClaimsView { sub: user.username, exp, iat, ver: user.jwt_version },
    )
}

/// What issuing a token for `user` at `now` gives.
pub open spec fn issue_outcome(user: UserView, ttl_minutes: i64, now: i64) -> Result<
    Seq<char>,
    IssueError,
> {
    if expiry(now, ttl_minutes) < i64::MIN || expiry(now, ttl_minutes) > i64::MAX {
        Err(IssueError::Lifetime)
    } else {
        match base64_bytes(user.jwt_secret) {
            None => Err(IssueError::Secret),
            Some(key) => match jwt_text(
                user.username,
                expiry(now, ttl_minutes) as i64,
                now,
                user.jwt_version,
                key,
            ) {
                Some(token) => Ok(token),
                None => Err(IssueError::Signing),
            },
        }
    }
}

/// What verifying `token` against `user` at `now` gives. The signature is
/// judged first, then the key version, then the expiry.
pub open spec fn verify_outcome(token: Seq<char>, user: UserView, now: i64) -> Result<
    ClaimsView,
    TokenError,
> {
    match signed_claims(token, user.jwt_secret) {
        None => Err(TokenError::BadSignature),
        Some(claims) => if claims.sub != user.username {
            Err(TokenError::BadSignature)
        } else if claims.ver != user.jwt_version {
            Err(TokenError::VersionMismatch)
        } else if now > claims.exp {
            Err(TokenError::Expired)
        } else {
            Ok(claims)
        },
    }
}

/// Value of the outcome of a function that returns a string.
pub open spec fn text_result<E>(result: Result<String, E>) -> Result<Seq<char>, E> {
    match result {
        Ok(text) => Ok(text@),
        Err(e) => Err(e),
    }
}

/// Value of the outcome of a verification.
pub open spec fn claims_result(result: Result<Claims, TokenError>) -> Result<
    ClaimsView,
    TokenError,
> {
    match result {
        Ok(claims) => Ok(claims@),
        Err(e) => Err(e),
    }
}

/// True if `result` is what issuing for `user` at `now` gives, and a token in
/// it is a token of `user`.
pub open spec fn issued(
    user: UserView,
    ttl_minutes: i64,
    now: i64,
    result: Result<Seq<char>, IssueError>,
) -> bool {
    &&& result == issue_outcome(user, ttl_minutes, now)
    &&& result matches Ok(token) ==> token_of(
        token,
        user,
        now,
        expiry(now, ttl_minutes) as i64,
    )
}

/// Turns a decoded payload into claims if all four are there.
pub fn claims_from_raw(raw: RawClaims) -> (claims: Option<Claims>)
    ensures
        match claims {
            Some(c) => complete_claims(raw@) == Some(c@),
            None => complete_claims(raw@).is_none(),
        },
{
    match (raw.sub, raw.exp, raw.iat, raw.ver) {
        (Some(sub), Some(exp), Some(iat), Some(ver)) => Some(Claims { sub, exp, iat, ver }),
        _ => None,
    }
}

/// Draws a fresh signing secret: 64 random bytes as base64 text.
pub fn generate_jwt_secret() -> (secret: String)
    ensures
        is_signing_secret(secret@),
{
    let bytes = random_secret();
    base64_encode(bytes.as_slice())
}

/// Replaces the secret of `user` by `secret` and moves the key version on by
/// one. Everything else stays.
pub fn install_secret(user: &mut UserData, secret: String)
    requires
        old(user).jwt_version < u64::MAX,
    ensures
        final(user)@ == (UserView {
            jwt_secret: secret@,
            jwt_version: (old(user).jwt_version + 1) as u64,
            ..old(user)@
        }),
{
    user.jwt_secret = secret;
    user.jwt_version = user.jwt_version + 1;
}

/// Revokes every token of `user`: a fresh random secret, and the key version
/// moved on by exactly one. Name, password hash and creation time stay.
pub fn rotate_secret(user: &mut UserData)
    requires
        old(user).jwt_version < u64::MAX,
    ensures
        final(user).jwt_version == old(user).jwt_version + 1,
        is_signing_secret(final(user).jwt_secret@),
        final(user)@ == (UserView {
            jwt_secret: final(user).jwt_secret@,
            jwt_version: final(user).jwt_version,
            ..old(user)@
        }),
{
    let secret = generate_jwt_secret();
    install_secret(user, secret);
}

/// Issues a token for `user` as of the second `now`, valid for `ttl_minutes`.
///
/// The claims are the user's name and key version, `now` as the time of issue
/// and `now + 60 * ttl_minutes` as the expiry; the user's secret signs them.
pub fn generate_jwt_token_at(user: &UserData, ttl_minutes: i64, now: i64) -> (result: Result<
    String,
    IssueError,
>)
    ensures
        issued(user@, ttl_minutes, now, text_result(result)),
{
    let exp_wide: i128 = (now as i128) + (ttl_minutes as i128) * 60;
    if exp_wide < (i64::MIN as i128) || exp_wide > (i64::MAX as i128) {
        return Err(IssueError::Lifetime);
    }
    let exp: i64 = exp_wide as i64;
    let key = match base64_decode(user.jwt_secret.as_str()) {
        Some(key) => key,
        None => {
            return Err(IssueError::Secret);
        },
    };
    match jwt_encode(user.username.as_str(), exp, now, user.jwt_version, key.as_slice()) {
        Some(token) => Ok(token),
        None => Err(IssueError::Signing),
    }
}

/// Issues a token for `user` as of the current time, valid for `ttl_minutes`.
pub fn generate_jwt_token(user: &UserData, ttl_minutes: i64) -> (result: Result<String, IssueError>)
    ensures
        exists|now: i64| #[trigger] issued(user@, ttl_minutes, now, text_result(result)),
{
    let now = unix_now();
    generate_jwt_token_at(user, ttl_minutes, now)
}

/// Reads the subject that `token` names without checking the signature.
///
/// The answer only tells whose secret to verify the token against; it proves
/// nothing about who sent the token.
pub fn extract_username_from_token(token: &str) -> (subject: Option<String>)
    ensures
        match subject {
            Some(name) => unverified_subject(token@) == Some(name@),
            None => unverified_subject(token@).is_none(),
        },
{
    match jwt_decode_unchecked(token) {
        Some(raw) => match claims_from_raw(raw) {
            Some(claims) => Some(claims.sub),
            None => None,
        },
        None => None,
    }
}

/// Verifies `token` against `user` as of the second `now`.
///
/// The token is accepted if the user's secret signed it for this user, it
/// carries the user's current key version, and `now` is not past its expiry.
/// A failed signature is reported before a stale version, and that before expiry.
pub fn verify_jwt_token_at(token: &str, user: &UserData, now: i64) -> (result: Result<
    Claims,
    TokenError,
>)
    ensures
        claims_result(result) == verify_outcome(token@, user@, now),
{
    let key = match base64_decode(user.jwt_secret.as_str()) {
        Some(key) => key,
        None => {
            return Err(TokenError::BadSignature);
        },
    };
    let raw = match jwt_decode_checked(token, key.as_slice()) {
        Some(raw) => raw,
        None => {
            return Err(TokenError::BadSignature);
        },
    };
    let claims = match claims_from_raw(raw) {
        Some(claims) => claims,
        None => {
            return Err(TokenError::BadSignature);
        },
    };
    if claims.sub != user.username {
        Err(TokenError::BadSignature)
    } else if claims.ver != user.jwt_version {
        Err(TokenError::VersionMismatch)
    } else if now > claims.exp {
        Err(TokenError::Expired)
    } else {
        Ok(claims)
    }
}

/// Verifies `token` against `user` as of the current time.
pub fn verify_jwt_token_with_user_secret(token: &str, user: &UserData) -> (result: Result<
    Claims,
    TokenError,
>)
    ensures
        exists|now: i64| claims_result(result) == #[trigger] verify_outcome(token@, user@, now),
{
    let now = unix_now();
    verify_jwt_token_at(token, user, now)
}

} // verus!
