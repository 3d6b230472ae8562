use base64::Engine;
use credential_engine::auth::UserData;
use credential_engine::token::{
    extract_username_from_token, generate_jwt_secret, generate_jwt_token, generate_jwt_token_at,
    install_secret, rotate_secret, verify_jwt_token_at, verify_jwt_token_with_user_secret,
    IssueError, TokenError,
};

fn account(name: &str) -> UserData {
    UserData {
        username: name.to_string(),
        password_hash: String::from("unused"),
        created_at: 1_700_000_000,
        jwt_secret: generate_jwt_secret(),
        jwt_version: 1,
    }
}

#[test]
fn secret_is_base64_of_64_bytes() {
    let secret = generate_jwt_secret();
    assert_eq!(secret.len(), 88);
    let bytes = base64::engine::general_purpose::STANDARD.decode(&secret).unwrap();
    assert_eq!(bytes.len(), 64);
    assert_ne!(secret, generate_jwt_secret());
}

#[test]
fn issued_token_carries_the_claims() {
    let user = account("alice");
    let token = generate_jwt_token_at(&user, 15, 1_000).unwrap();
    assert_eq!(token.split('.').count(), 3);
    let claims = verify_jwt_token_at(&token, &user, 1_000).unwrap();
    assert_eq!(claims.sub, "alice");
    assert_eq!(claims.iat, 1_000);
    assert_eq!(claims.exp, 1_900);
    assert_eq!(claims.ver, 1);
}

#[test]
fn issued_token_is_a_standard_hs256_token() {
    let user = account("alice");
    let token = generate_jwt_token_at(&user, 1, 50).unwrap();
    let key = base64::engine::general_purpose::STANDARD.decode(&user.jwt_secret).unwrap();
    let mut rules = jsonwebtoken::Validation::new(jsonwebtoken::Algorithm::HS256);
    rules.validate_exp = false;
    let data = jsonwebtoken::decode::<serde_json::Value>(
        &token,
        &jsonwebtoken::DecodingKey::from_secret(&key),
        &rules,
    )
    .unwrap();
    assert_eq!(data.claims["sub"].as_str(), Some("alice"));
    assert_eq!(data.claims["exp"].as_i64(), Some(110));
    assert_eq!(data.claims["iat"].as_i64(), Some(50));
    assert_eq!(data.claims["ver"].as_u64(), Some(1));
}

#[test]
fn token_is_accepted_until_its_expiry_and_not_after() {
    let user = account("alice");
    let token = generate_jwt_token_at(&user, 1, 100).unwrap();
    assert!(verify_jwt_token_at(&token, &user, 100).is_ok());
    assert!(verify_jwt_token_at(&token, &user, 160).is_ok());
    assert_eq!(verify_jwt_token_at(&token, &user, 161), Err(TokenError::Expired));
}

#[test]
fn expiry_long_past_is_still_reported_as_expired() {
    let user = account("alice");
    let token = generate_jwt_token_at(&user, 1, 100).unwrap();
    assert_eq!(verify_jwt_token_at(&token, &user, 1_000_000), Err(TokenError::Expired));
}

#[test]
fn negative_lifetime_gives_a_token_that_has_expired() {
    let user = account("alice");
    let token = generate_jwt_token_at(&user, -1, 100).unwrap();
    assert_eq!(verify_jwt_token_at(&token, &user, 100), Err(TokenError::Expired));
    assert!(verify_jwt_token_at(&token, &user, 40).is_ok());
}

#[test]
fn stale_version_is_a_version_mismatch() {
    let mut user = account("alice");
    let token = generate_jwt_token_at(&user, 15, 100).unwrap();
    user.jwt_version = 2;
    assert_eq!(verify_jwt_token_at(&token, &user, 100), Err(TokenError::VersionMismatch));
    assert_eq!(verify_jwt_token_at(&token, &user, 1_000_000), Err(TokenError::VersionMismatch));
}

#[test]
fn other_secret_is_a_bad_signature() {
    let user = account("alice");
    let token = generate_jwt_token_at(&user, 15, 100).unwrap();
    let mut other = user.clone();
    other.jwt_secret = generate_jwt_secret();
    assert_eq!(verify_jwt_token_at(&token, &other, 100), Err(TokenError::BadSignature));
    other.jwt_version = 7;
    assert_eq!(verify_jwt_token_at(&token, &other, 1_000_000), Err(TokenError::BadSignature));
}

#[test]
fn other_subject_is_a_bad_signature() {
    let user = account("alice");
    let token = generate_jwt_token_at(&user, 15, 100).unwrap();
    let mut other = user.clone();
    other.username = String::from("bob");
    assert_eq!(verify_jwt_token_at(&token, &other, 100), Err(TokenError::BadSignature));
}

#[test]
fn garbage_is_a_bad_signature() {
    let user = account("alice");
    assert_eq!(verify_jwt_token_at("", &user, 0), Err(TokenError::BadSignature));
    assert_eq!(verify_jwt_token_at("a.b.c", &user, 0), Err(TokenError::BadSignature));
    let token = generate_jwt_token_at(&user, 15, 100).unwrap();
    let mut forged = token.clone();
    forged.push('x');
    assert_eq!(verify_jwt_token_at(&forged, &user, 100), Err(TokenError::BadSignature));
}

#[test]
fn corrupt_secret_fails_both_ways() {
    let mut user = account("alice");
    let token = generate_jwt_token_at(&user, 15, 100).unwrap();
    user.jwt_secret = String::from("not base64 !!");
    assert_eq!(generate_jwt_token_at(&user, 15, 100), Err(IssueError::Secret));
    assert_eq!(verify_jwt_token_at(&token, &user, 100), Err(TokenError::BadSignature));
}

#[test]
fn lifetime_that_overflows_is_refused() {
    let user = account("alice");
    assert_eq!(generate_jwt_token_at(&user, i64::MAX, 0), Err(IssueError::Lifetime));
    assert_eq!(generate_jwt_token_at(&user, 1, i64::MAX), Err(IssueError::Lifetime));
    assert_eq!(generate_jwt_token_at(&user, -1, i64::MIN), Err(IssueError::Lifetime));
    assert!(generate_jwt_token_at(&user, 0, i64::MAX).is_ok());
    assert!(generate_jwt_token_at(&user, i64::MAX / 60, 0).is_ok());
}

#[test]
fn subject_is_read_without_the_secret() {
    let user = account("alice");
    let token = generate_jwt_token_at(&user, 15, 100).unwrap();
    assert_eq!(extract_username_from_token(&token), Some(String::from("alice")));
    let mut forged = token.clone();
    forged.push('x');
    assert_eq!(extract_username_from_token(&forged), Some(String::from("alice")));
    assert_eq!(extract_username_from_token("nonsense"), None);
    assert_eq!(extract_username_from_token(""), None);
}

#[test]
fn subject_of_an_expired_token_is_still_read() {
    let user = account("carol");
    let token = generate_jwt_token_at(&user, 1, 0).unwrap();
    assert_eq!(extract_username_from_token(&token), Some(String::from("carol")));
}

#[test]
fn payload_without_all_claims_is_refused() {
    let user = account("alice");
    let key = base64::engine::general_purpose::STANDARD.decode(&user.jwt_secret).unwrap();
    let mut claims = serde_json::Map::new();
    claims.insert(String::from("sub"), serde_json::Value::from("alice"));
    claims.insert(String::from("exp"), serde_json::Value::from(10_000_i64));
    claims.insert(String::from("iat"), serde_json::Value::from(0_i64));
    let token = jsonwebtoken::encode(
        &jsonwebtoken::Header::default(),
        &claims,
        &jsonwebtoken::EncodingKey::from_secret(&key),
    )
    .unwrap();
    assert_eq!(verify_jwt_token_at(&token, &user, 5), Err(TokenError::BadSignature));
    assert_eq!(extract_username_from_token(&token), None);
    claims.insert(String::from("ver"), serde_json::Value::from(1_u64));
    let token = jsonwebtoken::encode(
        &jsonwebtoken::Header::default(),
        &claims,
        &jsonwebtoken::EncodingKey::from_secret(&key),
    )
    .unwrap();
    assert!(verify_jwt_token_at(&token, &user, 5).is_ok());
}

#[test]
fn unicode_subject_round_trips() {
    let user = account("zoë \"q\" \u{1F600}");
    let token = generate_jwt_token_at(&user, 15, 100).unwrap();
    let claims = verify_jwt_token_at(&token, &user, 100).unwrap();
    assert_eq!(claims.sub, user.username);
    assert_eq!(extract_username_from_token(&token), Some(user.username.clone()));
}

#[test]
fn installing_a_secret_moves_the_version_on_by_one() {
    let mut user = account("alice");
    let before = user.clone();
    install_secret(&mut user, String::from("c2VjcmV0"));
    assert_eq!(user.jwt_secret, "c2VjcmV0");
    assert_eq!(user.jwt_version, 2);
    assert_eq!(user.username, before.username);
    assert_eq!(user.password_hash, before.password_hash);
    assert_eq!(user.created_at, before.created_at);
}

#[test]
fn rotation_revokes_earlier_tokens() {
    let mut user = account("alice");
    let before = user.clone();
    let token = generate_jwt_token_at(&user, 15, 100).unwrap();
    rotate_secret(&mut user);
    assert_eq!(user.jwt_version, 2);
    assert_ne!(user.jwt_secret, before.jwt_secret);
    assert_eq!(user.created_at, before.created_at);
    let refused = verify_jwt_token_at(&token, &user, 100).unwrap_err();
    assert!(refused == TokenError::BadSignature || refused == TokenError::VersionMismatch);
    let fresh = generate_jwt_token_at(&user, 15, 100).unwrap();
    assert_eq!(verify_jwt_token_at(&fresh, &user, 100).unwrap().ver, 2);
    assert!(verify_jwt_token_at(&fresh, &before, 100).is_err());
}

#[test]
fn tokens_issued_now_verify_now() {
    let user = account("alice");
    let token = generate_jwt_token(&user, 15).unwrap();
    let claims = verify_jwt_token_with_user_secret(&token, &user).unwrap();
    assert_eq!(claims.exp - claims.iat, 900);
    assert!(claims.iat > 1_600_000_000);
    let expired = generate_jwt_token(&user, -15).unwrap();
    assert_eq!(verify_jwt_token_with_user_secret(&expired, &user), Err(TokenError::Expired));
}

#[test]
fn times_before_the_epoch_round_trip() {
    let user = account("alice");
    let token = generate_jwt_token_at(&user, 1, -1_000).unwrap();
    let claims = verify_jwt_token_at(&token, &user, -1_000).unwrap();
    assert_eq!(claims.iat, -1_000);
    assert_eq!(claims.exp, -940);
    assert_eq!(verify_jwt_token_at(&token, &user, -939), Err(TokenError::Expired));
    assert_eq!(extract_username_from_token(&token), Some(String::from("alice")));
}

#[test]
fn widest_times_round_trip() {
    let mut user = account("alice");
    user.jwt_version = u64::MAX;
    let token = generate_jwt_token_at(&user, 0, i64::MAX).unwrap();
    let claims = verify_jwt_token_at(&token, &user, i64::MAX).unwrap();
    assert_eq!(claims.exp, i64::MAX);
    assert_eq!(claims.ver, u64::MAX);
    let token = generate_jwt_token_at(&user, 0, i64::MIN).unwrap();
    assert_eq!(verify_jwt_token_at(&token, &user, i64::MIN).unwrap().iat, i64::MIN);
}

#[test]
fn empty_secret_still_signs_and_verifies() {
    let mut user = account("alice");
    user.jwt_secret = String::new();
    let token = generate_jwt_token_at(&user, 1, 0).unwrap();
    assert!(verify_jwt_token_at(&token, &user, 0).is_ok());
    let other = account("alice");
    assert_eq!(verify_jwt_token_at(&token, &other, 0), Err(TokenError::BadSignature));
}
