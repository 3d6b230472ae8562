//! The request handlers: they take the decoded parts of a request, run the
//! engine on the store, and build the body of the answer.
//!
//! Routing, headers and JSON are the caller's part.

use crate::auth::{
    DeleteResponse, LoginRequest, LoginResponse, UpdateUserRequest, UpdateUserResponse,
};
use crate::clock::unix_now;
use crate::engine::{
    delete, delete_outcome, logged_in, login, lookup, register, registered, string_option,
    update, updated_drawing,
};
use crate::error::{Error, ErrorView};
use crate::kv_store::{text_option, KvStore};
use vstd::prelude::*;
use vstd::string::StringExecFns;

verus! {

/// Minutes that a token lives when nothing else is configured.
pub const DEFAULT_EXPIRATION_MINUTES: i64 = 15;

/// The integer that `text` spells in decimal, with an optional sign, if it
/// spells one that fits.
pub uninterp spec fn parsed_i64(text: Seq<char>) -> Option<i64>;

/// Calls `str::parse::<i64>`. Claimed: the outcome depends on the text alone.
#[verifier::external_body]
fn parse_i64(text: &str) -> (value: Option<i64>)
    ensures
        value == parsed_i64(text@),
{
    text.parse::<i64>().ok()
}

/// True if a lifetime of `minutes` can be told in seconds.
pub open spec fn lifetime_fits(minutes: i64) -> bool {
    i64::MIN <= minutes * 60 <= i64::MAX
}

/// The lifetime that a configuration setting stands for: the number it
/// spells, and the default if it is absent, spells none, or spells one too
/// large to be told in seconds.
pub open spec fn configured_minutes(setting: Option<Seq<char>>) -> i64 {
    match setting {
        Some(text) => match parsed_i64(text) {
            Some(minutes) => if lifetime_fits(minutes) {
                minutes
            } else {
                DEFAULT_EXPIRATION_MINUTES
            },
            None => DEFAULT_EXPIRATION_MINUTES,
        },
        None => DEFAULT_EXPIRATION_MINUTES,
    }
}

/// What the handlers are configured with: the lifetime of a token.
pub struct Config {
    expiration_minutes: i64,
}

impl Config {
    #[verifier::type_invariant]
    spec fn seconds_fit(&self) -> bool {
        lifetime_fits(self.expiration_minutes)
    }

    /// The configured lifetime in minutes.
    pub closed spec fn minutes(&self) -> i64 {
        self.expiration_minutes
    }

    /// A configuration with a lifetime of `minutes`, if it can be told in seconds.
    pub fn new(minutes: i64) -> (config: Option<Config>)
        ensures
            match config {
                Some(c) => lifetime_fits(minutes) && c.minutes() == minutes,
                None => !lifetime_fits(minutes),
            },
    {
        if minutes < i64::MIN / 60 || minutes > i64::MAX / 60 {
            None
        } else {
            Some(Config { expiration_minutes: minutes })
        }
    }

    /// The configuration that a setting stands for; see [`configured_minutes`].
    pub fn from_setting(setting: Option<&str>) -> (config: Config)
        ensures
            config.minutes() == configured_minutes(text_option(setting)),
    {
        let parsed = match setting {
            Some(text) => parse_i64(text),
            None => None,
        };
        let chosen = match parsed {
            Some(minutes) => Config::new(minutes),
            None => None,
        };
        match chosen {
            Some(config) => config,
            None => Config { expiration_minutes: DEFAULT_EXPIRATION_MINUTES },
        }
    }

    /// The configured lifetime in minutes.
    pub fn expiration_minutes(&self) -> (minutes: i64)
        ensures
            minutes == self.minutes(),
            lifetime_fits(minutes),
    {
        proof {
            use_type_invariant(self);
        }
        self.expiration_minutes
    }

    /// The configured lifetime in seconds.
    pub fn expires_in(&self) -> (seconds: i64)
        ensures
            seconds == self.minutes() * 60,
    {
        proof {
            use_type_invariant(self);
        }
        self.expiration_minutes * 60
    }
}

/// Body of the answer to a registration.
#[derive(Clone, Debug, PartialEq, Eq)]
pub struct RegisterResponse {
    pub success: bool,
    pub message: String,
}

/// Body of the answer to a health check.
#[derive(Clone, Debug, PartialEq, Eq)]
pub struct HealthResponse {
    pub status: String,
    pub timestamp: i64,
}

/// The token that an authorization header of the bearer scheme carries: what
/// follows the word `Bearer` and one space.
pub open spec fn bearer_of(header: Seq<char>) -> Option<Seq<char>> {
    if header.len() >= 7 && header.subrange(0, 7) == "Bearer "@ {
        Some(header.subrange(7, header.len() as int))
    } else {
        None
    }
}

/// Takes the token out of an authorization header.
pub fn bearer_token(header: Option<&str>) -> (result: Result<String, Error>)
    ensures
        match header {
            None => result is Err && result->Err_0@ == ErrorView::MissingAuthToken,
            Some(h) => match bearer_of(h@) {
                Some(token) => result is Ok && result->Ok_0@ == token,
                None => result is Err && result->Err_0@ == ErrorView::InvalidAuthFormat,
            },
        },
{
    let text = match header {
        Some(text) => text,
        None => {
            return Err(Error::MissingAuthToken);
        },
    };
    let length = text.unicode_len();
    if length < 7 {
        return Err(Error::InvalidAuthFormat);
    }
    let scheme = text.substring_char(0, 7).to_owned();
    if scheme != "Bearer ".to_owned() {
        return Err(Error::InvalidAuthFormat);
    }
    Ok(text.substring_char(7, length).to_owned())
}

/// The message that tells which fields an update changed.
pub open spec fn update_message(renamed: bool, new_password: bool) -> Seq<char> {
    if renamed && new_password {
        "Username and password updated successfully. Previous tokens are now invalid."@
    } else if renamed {
        "Username updated successfully. Previous tokens are now invalid."@
    } else {
        "Password updated successfully. Previous tokens are now invalid."@
    }
}

/// The message that tells that `username` was deleted.
pub open spec fn delete_message(username: Seq<char>) -> Seq<char> {
    "User '"@ + username + "' deleted successfully"@
}

/// What a login answer says of the login: its token or the failure.
pub open spec fn login_answer(result: Result<LoginResponse, Error>) -> Result<Seq<char>, ErrorView> {
    match result {
        Ok(body) => Ok(body.token->Some_0@),
        Err(e) => Err(e@),
    }
}

/// What a registration answer says of the registration. A body without
/// success stands for a name that is taken.
pub open spec fn register_answer(result: Result<RegisterResponse, Error>) -> Result<(), ErrorView> {
    match result {
        Ok(body) => if body.success {
            Ok(())
        } else {
            Err(ErrorView::UserExists)
        },
        Err(e) => Err(e@),
    }
}

/// What an update answer says of the update: its new token, if any, or the failure.
pub open spec fn update_answer(result: Result<UpdateUserResponse, Error>) -> Result<
    Option<Seq<char>>,
    ErrorView,
> {
    match result {
        Ok(body) => Ok(string_option(body.new_token)),
        Err(e) => Err(e@),
    }
}

/// The body that answers a login with `token`.
pub fn login_body(token: String, config: &Config) -> (body: LoginResponse)
    ensures
        body.success,
        body.token is Some && body.token->Some_0@ == token@,
        body.message@ == "Login successful"@,
        body.expires_in == config.minutes() * 60,
{
    LoginResponse {
        success: true,
        token: Some(token),
        message: "Login successful".to_owned(),
        expires_in: config.expires_in(),
    }
}

/// The body that answers a registration: `taken` tells whether the name was.
pub fn register_body(taken: bool) -> (body: RegisterResponse)
    ensures
        body.success == !taken,
        body.message@ == (if taken {
            "User already exists"@
        } else {
            "User registered successfully"@
        }),
{
    if taken {
        RegisterResponse { success: false, message: "User already exists".to_owned() }
    } else {
        RegisterResponse { success: true, message: "User registered successfully".to_owned() }
    }
}

/// The body that answers an update which was asked to rename, to change the
/// password, or both, and returned `new_token`.
pub fn update_body(renamed: bool, new_password: bool, new_token: Option<String>, config: &Config) -> (body:
    UpdateUserResponse)
    ensures
        body.success,
        body.message@ == update_message(renamed, new_password),
        string_option(body.new_token) == string_option(new_token),
        body.expires_in == (if new_token is Some {
            Some((config.minutes() * 60) as i64)
        } else {
            None
        }),
{
    let message = if renamed && new_password {
        "Username and password updated successfully. Previous tokens are now invalid.".to_owned()
    } else if renamed {
        "Username updated successfully. Previous tokens are now invalid.".to_owned()
    } else {
        "Password updated successfully. Previous tokens are now invalid.".to_owned()
    };
    let expires_in = if new_token.is_some() {
        Some(config.expires_in())
    } else {
        None
    };
    UpdateUserResponse { success: true, message, new_token, expires_in }
}

/// The body that answers the deletion of `username`.
pub fn delete_body(username: &str) -> (body: DeleteResponse)
    ensures
        body.success,
        body.message@ == delete_message(username@),
{
    let message = "User '".to_owned().concat(username).concat("' deleted successfully");
    DeleteResponse { success: true, message }
}

/// Answers a login request: the token and its lifetime in seconds.
///
/// Unknown user and wrong password are both the failure `InvalidCredentials`.
pub fn login_handler(store: &KvStore, request: &LoginRequest, config: &Config) -> (result: Result<
    LoginResponse,
    Error,
>)
    ensures
        exists|now: i64| #[trigger]
            logged_in(
                lookup(store@, request.user@),
                request.password@,
                config.minutes(),
                now,
                login_answer(result),
            ),
        result matches Ok(body) ==> {
            &&& body.success
            &&& body.token is Some
            &&& body.message@ == "Login successful"@
            &&& body.expires_in == config.minutes() * 60
        },
{
    let minutes = config.expiration_minutes();
    match login(store, request.user.as_str(), request.password.as_str(), minutes) {
        Ok(token) => Ok(login_body(token, config)),
        Err(e) => Err(e),
    }
}

/// Answers a registration request.
///
/// A name that is taken is not a failure of the request: it is answered with
/// a body that says so. The only failure is that of hashing.
pub fn register_handler(store: &mut KvStore, request: &LoginRequest) -> (result: Result<
    RegisterResponse,
    Error,
>)
    ensures
        registered(
            old(store)@,
            final(store)@,
            request.user@,
            request.password@,
            register_answer(result),
        ),
        result matches Ok(body) ==> body.message@ == (if body.success {
            "User registered successfully"@
        } else {
            "User already exists"@
        }),
{
    match register(store, request.user.as_str(), request.password.as_str()) {
        Ok(_) => Ok(register_body(false)),
        Err(Error::UserExists) => Ok(register_body(true)),
        Err(e) => Err(e),
    }
}

/// Answers a deletion request that came with the authorization header `authorization`.
pub fn delete_user_handler(store: &mut KvStore, authorization: Option<&str>) -> (result: Result<
    DeleteResponse,
    Error,
>)
    ensures
        match text_option(authorization) {
            None => {
                &&& result is Err
                &&& result->Err_0@ == ErrorView::MissingAuthToken
                &&& final(store)@ == old(store)@
            },
            Some(header) => match bearer_of(header) {
                None => {
                    &&& result is Err
                    &&& result->Err_0@ == ErrorView::InvalidAuthFormat
                    &&& final(store)@ == old(store)@
                },
                Some(token) => exists|now: i64|
                    {
                        let outcome = #[trigger] delete_outcome(
                            old(store)@,
                            token,
                            now,
                        );
                        &&& final(store)@ == outcome.0
                        &&& match result {
                            Ok(body) => outcome.1 is Ok && body.success && body.message@
                                == delete_message(outcome.1->Ok_0),
                            Err(e) => outcome.1 == Err::<Seq<char>, ErrorView>(e@),
                        }
                    },
            },
        },
{
    let token = match bearer_token(authorization) {
        Ok(token) => token,
        Err(e) => {
            return Err(e);
        },
    };
    match delete(store, token.as_str()) {
        Ok(username) => Ok(delete_body(username.as_str())),
        Err(e) => Err(e),
    }
}

/// Value of a borrowed optional string.
pub open spec fn field(text: &Option<String>) -> Option<Seq<char>> {
    match text {
        Some(t) => Some(t@),
        None => None,
    }
}

/// Answers an update request that came with the authorization header `authorization`.
///
/// The body carries the new token and its lifetime in seconds exactly when
/// the update replaced the signing secret.
pub fn update_user_handler(
    store: &mut KvStore,
    authorization: Option<&str>,
    request: &UpdateUserRequest,
    config: &Config,
) -> (result: Result<UpdateUserResponse, Error>)
    ensures
        match text_option(authorization) {
            None => {
                &&& result is Err
                &&& result->Err_0@ == ErrorView::MissingAuthToken
                &&& final(store)@ == old(store)@
            },
            Some(header) => match bearer_of(header) {
                None => {
                    &&& result is Err
                    &&& result->Err_0@ == ErrorView::InvalidAuthFormat
                    &&& final(store)@ == old(store)@
                },
                Some(token) => exists|now: i64, new_hash: Option<Seq<char>>, secret: Seq<char>|
                    #[trigger] updated_drawing(
                        old(store)@,
                        final(store)@,
                        token,
                        field(&request.new_username),
                        field(&request.new_password),
                        config.minutes(),
                        update_answer(result),
                        now,
                        new_hash,
                        secret,
                    ),
            },
        },
        result matches Ok(body) ==> {
            &&& body.success
            &&& body.message@ == update_message(
                request.new_username is Some,
                request.new_password is Some,
            )
            &&& body.expires_in == (if body.new_token is Some {
                Some((config.minutes() * 60) as i64)
            } else {
                None
            })
        },
{
    let token = match bearer_token(authorization) {
        Ok(token) => token,
        Err(e) => {
            return Err(e);
        },
    };
    let new_username: Option<&str> = match &request.new_username {
        Some(name) => Some(name.as_str()),
        None => None,
    };
    let new_password: Option<&str> = match &request.new_password {
        Some(password) => Some(password.as_str()),
        None => None,
    };
    let minutes = config.expiration_minutes();
    let new_token = match update(store, token.as_str(), new_username, new_password, minutes) {
        Ok(new_token) => new_token,
        Err(e) => {
            return Err(e);
        },
    };
    Ok(
        update_body(
            request.new_username.is_some(),
            request.new_password.is_some(),
            new_token,
            config,
        ),
    )
}

/// Answers a health check with the current time.
pub fn health_handler() -> (body: HealthResponse)
    ensures
        body.status@ == "healthy"@,
{
    HealthResponse { status: "healthy".to_owned(), timestamp: unix_now() }
}

} // verus!
