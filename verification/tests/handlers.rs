use credential_engine::auth::{LoginRequest, UpdateUserRequest};
use credential_engine::error::Error;
use credential_engine::handlers::{
    bearer_token, delete_user_handler, health_handler, login_handler, register_handler,
    update_user_handler, Config, DEFAULT_EXPIRATION_MINUTES,
};
use credential_engine::kv_store::{get_user_from_kv, user_exists_in_kv, KvStore};
use credential_engine::token::verify_jwt_token_with_user_secret;
use credential_engine::turnstile::{turnstile_request, turnstile_result};

fn credentials(user: &str, password: &str) -> LoginRequest {
    LoginRequest { user: user.to_string(), password: password.to_string() }
}

fn bearer(token: &str) -> String {
    format!("Bearer {}", token)
}

#[test]
fn default_lifetime_is_fifteen_minutes() {
    assert_eq!(DEFAULT_EXPIRATION_MINUTES, 15);
    assert_eq!(Config::from_setting(None).expiration_minutes(), 15);
    assert_eq!(Config::from_setting(None).expires_in(), 900);
}

#[test]
fn lifetime_is_parsed_from_the_setting() {
    assert_eq!(Config::from_setting(Some("30")).expiration_minutes(), 30);
    assert_eq!(Config::from_setting(Some("30")).expires_in(), 1_800);
    assert_eq!(Config::from_setting(Some("-5")).expiration_minutes(), -5);
    assert_eq!(Config::from_setting(Some("+7")).expiration_minutes(), 7);
    assert_eq!(Config::from_setting(Some("0")).expires_in(), 0);
}

#[test]
fn unreadable_setting_falls_back_to_the_default() {
    assert_eq!(Config::from_setting(Some("")).expiration_minutes(), 15);
    assert_eq!(Config::from_setting(Some("soon")).expiration_minutes(), 15);
    assert_eq!(Config::from_setting(Some(" 30")).expiration_minutes(), 15);
    assert_eq!(Config::from_setting(Some("1.5")).expiration_minutes(), 15);
    assert_eq!(Config::from_setting(Some("99999999999999999999")).expiration_minutes(), 15);
}

#[test]
fn lifetime_too_long_for_seconds_falls_back_to_the_default() {
    assert_eq!(Config::from_setting(Some("9223372036854775807")).expiration_minutes(), 15);
    assert!(Config::new(i64::MAX).is_none());
    assert!(Config::new(i64::MIN).is_none());
    assert!(Config::new(i64::MAX / 60 + 1).is_none());
    let widest = Config::new(i64::MAX / 60).unwrap();
    assert_eq!(widest.expires_in(), (i64::MAX / 60) * 60);
    assert_eq!(Config::new(i64::MIN / 60).unwrap().expires_in(), (i64::MIN / 60) * 60);
}

#[test]
fn bearer_token_is_what_follows_the_scheme() {
    assert_eq!(bearer_token(Some("Bearer abc.def.ghi")), Ok(String::from("abc.def.ghi")));
    assert_eq!(bearer_token(Some("Bearer ")), Ok(String::new()));
    assert_eq!(bearer_token(Some("Bearer  x")), Ok(String::from(" x")));
    assert_eq!(bearer_token(Some("Bearer t\u{e9}st")), Ok(String::from("t\u{e9}st")));
}

#[test]
fn other_headers_are_refused() {
    assert_eq!(bearer_token(None), Err(Error::MissingAuthToken));
    assert_eq!(bearer_token(Some("")), Err(Error::InvalidAuthFormat));
    assert_eq!(bearer_token(Some("Bearer")), Err(Error::InvalidAuthFormat));
    assert_eq!(bearer_token(Some("bearer abc")), Err(Error::InvalidAuthFormat));
    assert_eq!(bearer_token(Some("Basic abcdef")), Err(Error::InvalidAuthFormat));
    assert_eq!(bearer_token(Some(" Bearer abc")), Err(Error::InvalidAuthFormat));
    assert_eq!(bearer_token(Some("\u{e9}earer abc")), Err(Error::InvalidAuthFormat));
}

#[test]
fn statuses_follow_the_kind_of_failure() {
    assert_eq!(Error::InvalidRoute.status(), 404);
    assert_eq!(Error::DecodeBody(String::from("x")).status(), 400);
    assert_eq!(Error::EncodeBody(String::from("x")).status(), 500);
    assert_eq!(Error::Hash.status(), 500);
    assert_eq!(Error::InvalidPasswordHash.status(), 500);
    assert_eq!(Error::MissingTurnstileToken.status(), 400);
    assert_eq!(Error::MissingTurnstileSecret.status(), 500);
    assert_eq!(Error::InvalidTurnstileToken.status(), 401);
    assert_eq!(Error::JwtGeneration.status(), 500);
    assert_eq!(Error::InvalidCredentials.status(), 401);
    assert_eq!(Error::KvStoreError.status(), 500);
    assert_eq!(Error::MissingAuthToken.status(), 401);
    assert_eq!(Error::InvalidAuthFormat.status(), 401);
    assert_eq!(Error::InvalidJwtToken.status(), 401);
    assert_eq!(Error::ExpiredJwtToken.status(), 401);
    assert_eq!(Error::UserExists.status(), 409);
    assert_eq!(Error::UsernameExists.status(), 409);
    assert_eq!(Error::MissingUpdateFields.status(), 400);
}

#[test]
fn messages_are_fixed_but_for_the_body_errors() {
    assert_eq!(Error::InvalidRoute.message(), "Route not found");
    assert_eq!(
        Error::DecodeBody(String::from("expected value")).message(),
        "Failed to decode request body: expected value"
    );
    assert_eq!(Error::EncodeBody(String::from("why")).message(), "Failed to encode response body: why");
    assert_eq!(Error::Hash.message(), "Failed to hash password");
    assert_eq!(Error::InvalidPasswordHash.message(), "Invalid password hash");
    assert_eq!(
        Error::MissingTurnstileToken.message(),
        "Missing Turnstile token in cf-turnstile-response header"
    );
    assert_eq!(Error::MissingTurnstileSecret.message(), "Missing Turnstile secret key in environment");
    assert_eq!(Error::InvalidTurnstileToken.message(), "Invalid Turnstile token");
    assert_eq!(Error::JwtGeneration.message(), "Failed to generate JWT");
    assert_eq!(Error::InvalidCredentials.message(), "Invalid credentials");
    assert_eq!(Error::KvStoreError.message(), "Internal server error");
    assert_eq!(Error::MissingAuthToken.message(), "Missing Authorization header");
    assert_eq!(
        Error::InvalidAuthFormat.message(),
        "Invalid Authorization format. Use 'Bearer <token>'"
    );
    assert_eq!(Error::InvalidJwtToken.message(), "Invalid JWT token");
    assert_eq!(Error::ExpiredJwtToken.message(), "JWT token has expired");
    assert_eq!(Error::UserExists.message(), "User already exists");
    assert_eq!(Error::UsernameExists.message(), "Username already exists");
    assert_eq!(
        Error::MissingUpdateFields.message(),
        "At least one field (new_username or new_password) must be provided"
    );
}

#[test]
fn register_handler_answers_both_ways() {
    let mut store = KvStore::new();
    let first = register_handler(&mut store, &credentials("alice", "pw")).unwrap();
    assert!(first.success);
    assert_eq!(first.message, "User registered successfully");
    let second = register_handler(&mut store, &credentials("alice", "pw")).unwrap();
    assert!(!second.success);
    assert_eq!(second.message, "User already exists");
}

#[test]
fn login_handler_returns_token_and_lifetime() {
    let mut store = KvStore::new();
    register_handler(&mut store, &credentials("alice", "pw")).unwrap();
    let config = Config::new(20).unwrap();
    let body = login_handler(&store, &credentials("alice", "pw"), &config).unwrap();
    assert!(body.success);
    assert_eq!(body.message, "Login successful");
    assert_eq!(body.expires_in, 1_200);
    let stored = get_user_from_kv(&store, "alice").unwrap();
    let claims = verify_jwt_token_with_user_secret(&body.token.unwrap(), &stored).unwrap();
    assert_eq!(claims.exp - claims.iat, 1_200);
}

#[test]
fn login_handler_refuses_alike() {
    let mut store = KvStore::new();
    register_handler(&mut store, &credentials("alice", "pw")).unwrap();
    let config = Config::from_setting(None);
    assert_eq!(
        login_handler(&store, &credentials("alice", "no"), &config),
        Err(Error::InvalidCredentials)
    );
    assert_eq!(
        login_handler(&store, &credentials("nobody", "pw"), &config),
        Err(Error::InvalidCredentials)
    );
}

#[test]
fn update_handler_reports_what_changed() {
    let mut store = KvStore::new();
    let config = Config::from_setting(Some("10"));
    register_handler(&mut store, &credentials("alice", "pw")).unwrap();
    let token = login_handler(&store, &credentials("alice", "pw"), &config).unwrap().token.unwrap();

    let request = UpdateUserRequest { new_username: None, new_password: Some(String::from("pw2")) };
    let body = update_user_handler(&mut store, Some(&bearer(&token)), &request, &config).unwrap();
    assert!(body.success);
    assert_eq!(body.message, "Password updated successfully. Previous tokens are now invalid.");
    assert_eq!(body.expires_in, Some(600));
    let token = body.new_token.unwrap();

    let request = UpdateUserRequest { new_username: Some(String::from("bob")), new_password: None };
    let body = update_user_handler(&mut store, Some(&bearer(&token)), &request, &config).unwrap();
    assert_eq!(body.message, "Username updated successfully. Previous tokens are now invalid.");
    let token = body.new_token.unwrap();
    assert!(user_exists_in_kv(&store, "bob"));
    assert!(!user_exists_in_kv(&store, "alice"));

    let request = UpdateUserRequest {
        new_username: Some(String::from("carol")),
        new_password: Some(String::from("pw3")),
    };
    let body = update_user_handler(&mut store, Some(&bearer(&token)), &request, &config).unwrap();
    assert_eq!(
        body.message,
        "Username and password updated successfully. Previous tokens are now invalid."
    );
    assert_eq!(get_user_from_kv(&store, "carol").unwrap().jwt_version, 4);
    let token = body.new_token.unwrap();

    let request = UpdateUserRequest { new_username: Some(String::from("carol")), new_password: None };
    let body = update_user_handler(&mut store, Some(&bearer(&token)), &request, &config).unwrap();
    assert_eq!(body.new_token, None);
    assert_eq!(body.expires_in, None);
    assert_eq!(get_user_from_kv(&store, "carol").unwrap().jwt_version, 4);
}

#[test]
fn update_handler_refusals() {
    let mut store = KvStore::new();
    let config = Config::from_setting(None);
    register_handler(&mut store, &credentials("alice", "pw")).unwrap();
    register_handler(&mut store, &credentials("bob", "pw")).unwrap();
    let token = login_handler(&store, &credentials("alice", "pw"), &config).unwrap().token.unwrap();
    let rename = UpdateUserRequest { new_username: Some(String::from("bob")), new_password: None };
    let nothing = UpdateUserRequest { new_username: None, new_password: None };
    assert_eq!(
        update_user_handler(&mut store, None, &rename, &config),
        Err(Error::MissingAuthToken)
    );
    assert_eq!(
        update_user_handler(&mut store, Some(&token), &rename, &config),
        Err(Error::InvalidAuthFormat)
    );
    assert_eq!(
        update_user_handler(&mut store, Some("Bearer junk"), &rename, &config),
        Err(Error::InvalidJwtToken)
    );
    assert_eq!(
        update_user_handler(&mut store, Some(&bearer(&token)), &rename, &config),
        Err(Error::UsernameExists)
    );
    assert_eq!(
        update_user_handler(&mut store, Some(&bearer(&token)), &nothing, &config),
        Err(Error::MissingUpdateFields)
    );
    assert_eq!(get_user_from_kv(&store, "alice").unwrap().jwt_version, 1);
}

#[test]
fn delete_handler_names_the_account() {
    let mut store = KvStore::new();
    let config = Config::from_setting(None);
    register_handler(&mut store, &credentials("alice", "pw")).unwrap();
    let token = login_handler(&store, &credentials("alice", "pw"), &config).unwrap().token.unwrap();
    assert_eq!(delete_user_handler(&mut store, None), Err(Error::MissingAuthToken));
    assert_eq!(delete_user_handler(&mut store, Some("Token x")), Err(Error::InvalidAuthFormat));
    assert_eq!(delete_user_handler(&mut store, Some("Bearer x")), Err(Error::InvalidJwtToken));
    let body = delete_user_handler(&mut store, Some(&bearer(&token))).unwrap();
    assert!(body.success);
    assert_eq!(body.message, "User 'alice' deleted successfully");
    assert!(!user_exists_in_kv(&store, "alice"));
    assert_eq!(
        delete_user_handler(&mut store, Some(&bearer(&token))),
        Err(Error::InvalidCredentials)
    );
}

#[test]
fn health_is_healthy() {
    let body = health_handler();
    assert_eq!(body.status, "healthy");
    assert!(body.timestamp > 1_600_000_000);
}

#[test]
fn challenge_request_needs_token_then_secret() {
    assert_eq!(turnstile_request(None, Some("s")), Err(Error::MissingTurnstileToken));
    assert_eq!(turnstile_request(None, None), Err(Error::MissingTurnstileToken));
    assert_eq!(turnstile_request(Some("t"), None), Err(Error::MissingTurnstileSecret));
    assert_eq!(
        turnstile_request(Some("tok"), Some("sec")),
        Ok(String::from("secret=sec&response=tok"))
    );
}

#[test]
fn challenge_result_follows_the_service() {
    assert_eq!(turnstile_result(true), Ok(()));
    assert_eq!(turnstile_result(false), Err(Error::InvalidTurnstileToken));
}
