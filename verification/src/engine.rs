//! The credential lifecycle: registration, login, update and deletion of
//! accounts in a store.
//!
//! Each operation comes in two forms. The plain form draws what it needs
//! itself: the time from the clock, salts and secrets from the random
//! generator. The form whose name ends in `_at` or `_with` is handed those
//! values, and its contract says exactly what it returns and what the store
//! holds afterwards.
//!
//! The steps of an operation that need no store (`enroll`, `authenticate`,
//! `authorize`, `revise`, `persist_plan`, `fresh_token`) are public, so that a
//! caller whose store is remote can read, let a step decide, and write.
//!
//! Nothing here locks. Two updates of one account that run at the same time
//! against a shared store are not serialised: the later write wins, and the
//! key version may end up higher than the earlier request expected. A failure
//! of the store is reported, never retried.

use crate::auth::{Claims, ClaimsView, UserData, UserView};
use crate::clock::unix_now;
use crate::error::{Error, ErrorView};
use crate::kv_store::{
    delete_user_from_kv, get_user_from_kv, kv_update_outcome, plan_update, store_user_in_kv,
    text_option, update_plan, update_user_in_kv, user_exists_in_kv, KvStore, StoreAction,
    StoreActionView, StoreError,
};
use crate::password::{argon2_verdict, hash_password, verify_password, PasswordCheck};
use crate::token::{
    expiry, extract_username_from_token, generate_jwt_secret, generate_jwt_token_at,
    install_secret, is_signing_secret, issue_outcome, token_of, unverified_subject,
    verify_jwt_token_at, verify_outcome, TokenError,
};
use vstd::prelude::*;

verus! {

/// The value of a store: the record under each key.
pub type Accounts = Map<Seq<char>, UserView>;

/// True if every record is stored under its own name.
pub open spec fn consistent(store: Accounts) -> bool {
    forall|name: Seq<char>| store.contains_key(name) ==> (#[trigger] store[name]).username == name
}

/// The record under `name`, if there is one.
pub open spec fn lookup(store: Accounts, name: Seq<char>) -> Option<UserView> {
    if store.contains_key(name) {
        Some(store[name])
    } else {
        None
    }
}

/// Value of an optional record.
pub open spec fn record_option(record: Option<&UserData>) -> Option<UserView> {
    match record {
        Some(user) => Some(user@),
        None => None,
    }
}

/// Value of an outcome without a payload.
pub open spec fn unit_result(result: Result<(), Error>) -> Result<(), ErrorView> {
    match result {
        Ok(_) => Ok(()),
        Err(e) => Err(e@),
    }
}

/// Value of an outcome that is a string.
pub open spec fn string_result(result: Result<String, Error>) -> Result<Seq<char>, ErrorView> {
    match result {
        Ok(text) => Ok(text@),
        Err(e) => Err(e@),
    }
}

/// Value of an outcome that is a record.
pub open spec fn record_result(result: Result<UserData, Error>) -> Result<UserView, ErrorView> {
    match result {
        Ok(user) => Ok(user@),
        Err(e) => Err(e@),
    }
}

/// The account that a registration creates from what was drawn for it.
pub open spec fn new_account_of(
    username: Seq<char>,
    password_hash: Seq<char>,
    secret: Seq<char>,
    now: i64,
) -> UserView {
    UserView { username, password_hash, created_at: now, jwt_secret: secret, jwt_version: 1 }
}

/// True if `user` is a fresh account of `username` that `password` opens.
pub open spec fn is_new_account(user: UserView, username: Seq<char>, password: Seq<char>) -> bool {
    &&& user.username == username
    &&& user.jwt_version == 1
    &&& argon2_verdict(password, user.password_hash) == PasswordCheck::Match
    &&& is_signing_secret(user.jwt_secret)
}

/// What entering `user` into `store` gives: the store afterwards, and the answer.
pub open spec fn enter_outcome(store: Accounts, user: UserView) -> (Accounts, Result<(), ErrorView>) {
    if store.contains_key(user.username) {
        (store, Err(ErrorView::UserExists))
    } else {
        (store.insert(user.username, user), Ok(()))
    }
}

/// True if `after` and `result` are what registering `username` with
/// `password` in `before` may give.
///
/// A taken name is refused and nothing changes. Otherwise either hashing
/// failed and nothing changes, or exactly one record was added, under
/// `username`: a fresh account that `password` opens.
pub open spec fn registered(
    before: Accounts,
    after: Accounts,
    username: Seq<char>,
    password: Seq<char>,
    result: Result<(), ErrorView>,
) -> bool {
    if before.contains_key(username) {
        result == Err::<(), ErrorView>(ErrorView::UserExists) && after == before
    } else {
        match result {
            Ok(_) => {
                &&& after.contains_key(username)
                &&& after == before.insert(username, after[username])
                &&& is_new_account(after[username], username, password)
            },
            Err(e) => e == ErrorView::Hash && after == before,
        }
    }
}

/// What a login gives for the record found under the name, if any.
///
/// No record and a wrong password give the same answer. A corrupt stored hash
/// is the server's failure, not the client's.
pub open spec fn login_outcome(
    record: Option<UserView>,
    password: Seq<char>,
    ttl_minutes: i64,
    now: i64,
) -> Result<Seq<char>, ErrorView> {
    match record {
        None => Err(ErrorView::InvalidCredentials),
        Some(user) => match argon2_verdict(password, user.password_hash) {
            PasswordCheck::Mismatch => Err(ErrorView::InvalidCredentials),
            PasswordCheck::Malformed => Err(ErrorView::InvalidPasswordHash),
            PasswordCheck::Match => match issue_outcome(user, ttl_minutes, now) {
                Ok(token) => Ok(token),
                Err(_) => Err(ErrorView::JwtGeneration),
            },
        },
    }
}

/// True if `result` is what a login gives, and a token in it is a token of
/// the record.
pub open spec fn logged_in(
    record: Option<UserView>,
    password: Seq<char>,
    ttl_minutes: i64,
    now: i64,
    result: Result<Seq<char>, ErrorView>,
) -> bool {
    &&& result == login_outcome(record, password, ttl_minutes, now)
    &&& result matches Ok(token) ==> record is Some && token_of(
        token,
        record->Some_0,
        now,
        expiry(now, ttl_minutes) as i64,
    )
}

/// What checking `token` against the record of its subject gives.
pub open spec fn access_outcome(record: Option<UserView>, token: Seq<char>, now: i64) -> Result<
    ClaimsView,
    ErrorView,
> {
    match record {
        None => Err(ErrorView::InvalidCredentials),
        Some(user) => match verify_outcome(token, user, now) {
            Ok(claims) => Ok(claims),
            Err(TokenError::Expired) => Err(ErrorView::ExpiredJwtToken),
            Err(_) => Err(ErrorView::InvalidJwtToken),
        },
    }
}

/// The account that `token` speaks for in `store`: the record under the
/// subject that the token names, if the token verifies against that record.
pub open spec fn identify_outcome(store: Accounts, token: Seq<char>, now: i64) -> Result<
    UserView,
    ErrorView,
> {
    match unverified_subject(token) {
        None => Err(ErrorView::InvalidJwtToken),
        Some(name) => match access_outcome(lookup(store, name), token, now) {
            Ok(_) => Ok(store[name]),
            Err(e) => Err(e),
        },
    }
}

/// What deleting the account of `token` gives: the store afterwards, and the
/// name that was deleted.
pub open spec fn delete_outcome(store: Accounts, token: Seq<char>, now: i64) -> (
    Accounts,
    Result<Seq<char>, ErrorView>,
) {
    match identify_outcome(store, token, now) {
        Ok(user) => (store.remove(user.username), Ok(user.username)),
        Err(e) => (store, Err(e)),
    }
}

/// An account that is identified is stored under its own name, and that name
/// is the subject of the token.
pub proof fn lemma_identified(store: Accounts, token: Seq<char>, now: i64)
    requires
        identify_outcome(store, token, now) is Ok,
    ensures
        ({
            let user = identify_outcome(store, token, now)->Ok_0;
            &&& unverified_subject(token) == Some(user.username)
            &&& store.contains_key(user.username)
            &&& store[user.username] == user
            &&& verify_outcome(token, user, now) is Ok
        }),
{
}

/// Builds the record of a new account from a password hash, a secret and the
/// time of creation. The key version starts at 1.
pub fn new_account_at(username: &str, password_hash: String, secret: String, now: i64) -> (user:
    UserData)
    ensures
        user@ == new_account_of(username@, password_hash@, secret@, now),
{
    UserData {
        username: username.to_owned(),
        password_hash,
        created_at: now,
        jwt_secret: secret,
        jwt_version: 1,
    }
}

/// Builds the record of a new account: hashes the password, draws a secret
/// and stamps the current time.
pub fn new_account(username: &str, password: &str) -> (result: Result<UserData, Error>)
    ensures
        match result {
            Ok(user) => is_new_account(user@, username@, password@),
            Err(e) => e@ == ErrorView::Hash,
        },
{
    let password_hash = match hash_password(password) {
        Ok(hash) => hash,
        Err(_) => {
            return Err(Error::Hash);
        },
    };
    let secret = generate_jwt_secret();
    let now = unix_now();
    Ok(new_account_at(username, password_hash, secret, now))
}

/// Enters `user` under its name, unless the name is taken.
pub fn register_account(store: &mut KvStore, user: &UserData) -> (result: Result<(), Error>)
    ensures
        (final(store)@, unit_result(result)) == enter_outcome(old(store)@, user@),
{
    if user_exists_in_kv(store, user.username.as_str()) {
        return Err(Error::UserExists);
    }
    store_user_in_kv(store, user.username.as_str(), user);
    Ok(())
}

/// Builds the record that a registration is to store: none if the name is
/// taken, else a fresh account.
pub fn enroll(taken: bool, username: &str, password: &str) -> (result: Result<UserData, Error>)
    ensures
        match result {
            Ok(user) => !taken && is_new_account(user@, username@, password@),
            Err(e) => e@ == (if taken {
                ErrorView::UserExists
            } else {
                ErrorView::Hash
            }),
        },
{
    if taken {
        return Err(Error::UserExists);
    }
    new_account(username, password)
}

/// Registers `username` with `password`.
///
/// No token is issued: the client logs in afterwards.
pub fn register(store: &mut KvStore, username: &str, password: &str) -> (result: Result<(), Error>)
    ensures
        registered(old(store)@, final(store)@, username@, password@, unit_result(result)),
        consistent(old(store)@) ==> consistent(final(store)@),
{
    let taken = user_exists_in_kv(store, username);
    let user = match enroll(taken, username, password) {
        Ok(user) => user,
        Err(e) => {
            return Err(e);
        },
    };
    store_user_in_kv(store, username, &user);
    proof {
        assert(final(store)@[username@] == user@);
    }
    Ok(())
}

/// Answers a login for the record found under the name, as of the second `now`.
pub fn authenticate_at(record: Option<&UserData>, password: &str, ttl_minutes: i64, now: i64) -> (result:
    Result<String, Error>)
    ensures
        logged_in(record_option(record), password@, ttl_minutes, now, string_result(result)),
{
    let user = match record {
        Some(user) => user,
        None => {
            return Err(Error::InvalidCredentials);
        },
    };
    match verify_password(password, user.password_hash.as_str()) {
        PasswordCheck::Mismatch => Err(Error::InvalidCredentials),
        PasswordCheck::Malformed => Err(Error::InvalidPasswordHash),
        PasswordCheck::Match => match generate_jwt_token_at(user, ttl_minutes, now) {
            Ok(token) => Ok(token),
            Err(_) => Err(Error::JwtGeneration),
        },
    }
}

/// Answers a login for the record found under the name, as of the current time.
pub fn authenticate(record: Option<&UserData>, password: &str, ttl_minutes: i64) -> (result: Result<
    String,
    Error,
>)
    ensures
        exists|now: i64| #[trigger]
            logged_in(record_option(record), password@, ttl_minutes, now, string_result(result)),
{
    let now = unix_now();
    authenticate_at(record, password, ttl_minutes, now)
}

/// Logs `username` in as of the second `now`: a token valid for `ttl_minutes`
/// if `password` is the account's.
pub fn login_at(store: &KvStore, username: &str, password: &str, ttl_minutes: i64, now: i64) -> (result:
    Result<String, Error>)
    ensures
        logged_in(lookup(store@, username@), password@, ttl_minutes, now, string_result(result)),
{
    match get_user_from_kv(store, username) {
        Ok(user) => authenticate_at(Some(&user), password, ttl_minutes, now),
        Err(_) => authenticate_at(None, password, ttl_minutes, now),
    }
}

/// Logs `username` in as of the current time.
pub fn login(store: &KvStore, username: &str, password: &str, ttl_minutes: i64) -> (result: Result<
    String,
    Error,
>)
    ensures
        exists|now: i64| #[trigger]
            logged_in(lookup(store@, username@), password@, ttl_minutes, now, string_result(result)),
{
    let now = unix_now();
    login_at(store, username, password, ttl_minutes, now)
}

/// Checks `token` against the record found under its subject, as of `now`.
pub fn authorize_at(token: &str, record: Option<&UserData>, now: i64) -> (result: Result<
    Claims,
    Error,
>)
    ensures
        match result {
            Ok(claims) => access_outcome(record_option(record), token@, now) == Ok::<
                ClaimsView,
                ErrorView,
            >(claims@),
            Err(e) => access_outcome(record_option(record), token@, now) == Err::<
                ClaimsView,
                ErrorView,
            >(e@),
        },
{
    let user = match record {
        Some(user) => user,
        None => {
            return Err(Error::InvalidCredentials);
        },
    };
    match verify_jwt_token_at(token, user, now) {
        Ok(claims) => Ok(claims),
        Err(TokenError::Expired) => Err(Error::ExpiredJwtToken),
        Err(_) => Err(Error::InvalidJwtToken),
    }
}

/// Value of the outcome of an authorization.
pub open spec fn access_result(result: Result<Claims, Error>) -> Result<ClaimsView, ErrorView> {
    match result {
        Ok(claims) => Ok(claims@),
        Err(e) => Err(e@),
    }
}

/// Checks `token` against the record found under its subject, as of the
/// current time.
pub fn authorize(token: &str, record: Option<&UserData>) -> (result: Result<Claims, Error>)
    ensures
        exists|now: i64|
            access_result(result) == #[trigger] access_outcome(record_option(record), token@, now),
{
    let now = unix_now();
    authorize_at(token, record, now)
}

/// The name under which to look for the record of `token`: its subject, read
/// without verification.
pub fn token_subject(token: &str) -> (result: Result<String, Error>)
    ensures
        match result {
            Ok(name) => unverified_subject(token@) == Some(name@),
            Err(e) => unverified_subject(token@).is_none() && e@ == ErrorView::InvalidJwtToken,
        },
{
    match extract_username_from_token(token) {
        Some(name) => Ok(name),
        None => Err(Error::InvalidJwtToken),
    }
}

/// Finds the account that `token` speaks for, as of the second `now`.
///
/// The subject is read from the token without verification, only to load its
/// record; the token is then verified against that record in full.
pub fn identify_at(store: &KvStore, token: &str, now: i64) -> (result: Result<UserData, Error>)
    ensures
        record_result(result) == identify_outcome(store@, token@, now),
{
    let name = match token_subject(token) {
        Ok(name) => name,
        Err(e) => {
            return Err(e);
        },
    };
    let record = match get_user_from_kv(store, name.as_str()) {
        Ok(user) => user,
        Err(_) => {
            return Err(Error::InvalidCredentials);
        },
    };
    match authorize_at(token, Some(&record), now) {
        Ok(_) => Ok(record),
        Err(e) => Err(e),
    }
}

/// Deletes the account that `token` speaks for, as of the second `now`, and
/// returns its name.
pub fn delete_at(store: &mut KvStore, token: &str, now: i64) -> (result: Result<String, Error>)
    ensures
        (final(store)@, string_result(result)) == delete_outcome(old(store)@, token@, now),
{
    let user = match identify_at(store, token, now) {
        Ok(user) => user,
        Err(e) => {
            return Err(e);
        },
    };
    proof {
        lemma_identified(store@, token@, now);
    }
    match delete_user_from_kv(store, user.username.as_str()) {
        Ok(_) => Ok(user.username),
        Err(_) => Err(Error::KvStoreError),
    }
}

/// Deletes the account that `token` speaks for, as of the current time.
pub fn delete(store: &mut KvStore, token: &str) -> (result: Result<String, Error>)
    ensures
        exists|now: i64|
            (final(store)@, string_result(result)) == #[trigger] delete_outcome(
                old(store)@,
                token@,
                now,
            ),
{
    let now = unix_now();
    delete_at(store, token, now)
}

/// Value of an optional owned string.
pub open spec fn string_option(text: Option<String>) -> Option<Seq<char>> {
    match text {
        Some(t) => Some(t@),
        None => None,
    }
}

/// Value of the outcome of an update.
pub open spec fn update_result(result: Result<Option<String>, Error>) -> Result<
    Option<Seq<char>>,
    ErrorView,
> {
    match result {
        Ok(token) => Ok(string_option(token)),
        Err(e) => Err(e@),
    }
}

/// True if the update gives `user` another name.
pub open spec fn renames(user: UserView, new_username: Option<Seq<char>>) -> bool {
    new_username is Some && new_username->Some_0 != user.username
}

/// True if the update replaces the signing secret of `user`: it does so for a
/// new password and for another name, and once when both come together.
pub open spec fn rotates(
    user: UserView,
    new_username: Option<Seq<char>>,
    new_hash: Option<Seq<char>>,
) -> bool {
    new_hash is Some || renames(user, new_username)
}

/// The record of `user` after the update. The time of creation stays; the
/// secret changes exactly when the key version moves on, by one.
pub open spec fn revised(
    user: UserView,
    new_username: Option<Seq<char>>,
    new_hash: Option<Seq<char>>,
    secret: Seq<char>,
) -> UserView {
    UserView {
        username: if renames(user, new_username) {
            new_username->Some_0
        } else {
            user.username
        },
        password_hash: if new_hash is Some {
            new_hash->Some_0
        } else {
            user.password_hash
        },
        created_at: user.created_at,
        jwt_secret: if rotates(user, new_username, new_hash) {
            secret
        } else {
            user.jwt_secret
        },
        jwt_version: if rotates(user, new_username, new_hash) {
            (user.jwt_version + 1) as u64
        } else {
            user.jwt_version
        },
    }
}

/// The revised record, or why the update is refused: it names no field, it
/// renames to a name that is taken, or the key version cannot move on any more.
/// `target_taken` tells whether a record is stored under the new name.
pub open spec fn revision_outcome(
    user: UserView,
    new_username: Option<Seq<char>>,
    new_hash: Option<Seq<char>>,
    secret: Seq<char>,
    target_taken: bool,
) -> Result<UserView, ErrorView> {
    if new_username is None && new_hash is None {
        Err(ErrorView::MissingUpdateFields)
    } else if renames(user, new_username) && target_taken {
        Err(ErrorView::UsernameExists)
    } else if rotates(user, new_username, new_hash) && user.jwt_version == u64::MAX {
        Err(ErrorView::JwtGeneration)
    } else {
        Ok(revised(user, new_username, new_hash, secret))
    }
}

/// The failure of an update that a failure of the store stands for.
pub open spec fn persist_error(error: StoreError) -> ErrorView {
    match error {
        StoreError::KeyTaken => ErrorView::UsernameExists,
        StoreError::NotFound => ErrorView::KvStoreError,
    }
}

/// What an update of the identified account `user` gives: the store
/// afterwards, and the new token or the failure.
///
/// An update that cannot be made is refused, then a new name that is taken,
/// with the store as it was. Otherwise the revised record replaces the old
/// one, under the new name if there is one. A token is returned exactly when
/// the secret was replaced.
pub open spec fn revise_outcome(
    store: Accounts,
    user: UserView,
    new_username: Option<Seq<char>>,
    new_hash: Option<Seq<char>>,
    secret: Seq<char>,
    ttl_minutes: i64,
    now: i64,
) -> (Accounts, Result<Option<Seq<char>>, ErrorView>) {
    match revision_outcome(
        user,
        new_username,
        new_hash,
        secret,
        new_username is Some && store.contains_key(new_username->Some_0),
    ) {
        Err(e) => (store, Err(e)),
        Ok(next) => match kv_update_outcome(store, user.username, new_username, next) {
            Err(e) => (store, Err(persist_error(e))),
            Ok(stored) => if rotates(user, new_username, new_hash) {
                match issue_outcome(next, ttl_minutes, now) {
                    Ok(token) => (stored, Ok(Some(token))),
                    Err(_) => (stored, Err(ErrorView::JwtGeneration)),
                }
            } else {
                (stored, Ok(None))
            },
        },
    }
}

/// What an update under `token` gives: the store afterwards, and the new token
/// or the failure. The token is verified first, in full.
pub open spec fn update_outcome(
    store: Accounts,
    token: Seq<char>,
    new_username: Option<Seq<char>>,
    new_hash: Option<Seq<char>>,
    secret: Seq<char>,
    ttl_minutes: i64,
    now: i64,
) -> (Accounts, Result<Option<Seq<char>>, ErrorView>) {
    match identify_outcome(store, token, now) {
        Ok(user) => revise_outcome(store, user, new_username, new_hash, secret, ttl_minutes, now),
        Err(e) => (store, Err(e)),
    }
}

/// True if `after` and `result` are what the update gives, and a token in
/// `result` is a token of the revised record.
pub open spec fn updated(
    before: Accounts,
    after: Accounts,
    token: Seq<char>,
    new_username: Option<Seq<char>>,
    new_hash: Option<Seq<char>>,
    secret: Seq<char>,
    ttl_minutes: i64,
    now: i64,
    result: Result<Option<Seq<char>>, ErrorView>,
) -> bool {
    &&& (after, result) == update_outcome(
        before,
        token,
        new_username,
        new_hash,
        secret,
        ttl_minutes,
        now,
    )
    &&& result matches Ok(Some(fresh)) ==> identify_outcome(before, token, now) is Ok && token_of(
        fresh,
        revised(identify_outcome(before, token, now)->Ok_0, new_username, new_hash, secret),
        now,
        expiry(now, ttl_minutes) as i64,
    )
}

/// True if `after` and `result` are what an update gives that drew the time
/// `now`, hashed the new password to `new_hash`, and drew `secret`.
///
/// With a valid token, a new name that is free and a new password, either
/// hashing failed and nothing changed, or the hash matches the new password. A
/// token in `result` is signed by a full-length secret.
pub open spec fn updated_drawing(
    before: Accounts,
    after: Accounts,
    token: Seq<char>,
    new_username: Option<Seq<char>>,
    new_password: Option<Seq<char>>,
    ttl_minutes: i64,
    result: Result<Option<Seq<char>>, ErrorView>,
    now: i64,
    new_hash: Option<Seq<char>>,
    secret: Seq<char>,
) -> bool {
    if identify_outcome(before, token, now) is Ok && new_password is Some && new_hash is None
        && !(renames(identify_outcome(before, token, now)->Ok_0, new_username)
        && before.contains_key(new_username->Some_0)) {
        result == Err::<Option<Seq<char>>, ErrorView>(ErrorView::Hash) && after == before
    } else {
        &&& new_hash is Some ==> new_password is Some && argon2_verdict(
            new_password->Some_0,
            new_hash->Some_0,
        ) == PasswordCheck::Match
        &&& result matches Ok(Some(_)) ==> is_signing_secret(secret)
        &&& updated(before, after, token, new_username, new_hash, secret, ttl_minutes, now, result)
    }
}

/// A record as an update leaves it, with what the update did to it.
#[derive(Clone, Debug, PartialEq, Eq)]
pub struct Revision {
    /// The revised record.
    pub user: UserData,
    /// True if the record has another name than before.
    pub renamed: bool,
    /// True if the signing secret was replaced.
    pub rotated: bool,
}

/// Revises the record `user`: another name, another password hash, or both,
/// with `secret` as the signing secret to rotate to. `target_taken` tells
/// whether a record is stored under the new name.
pub fn revise_with(
    user: &UserData,
    new_username: Option<&str>,
    new_hash: Option<String>,
    secret: String,
    target_taken: bool,
) -> (result: Result<Revision, Error>)
    ensures
        match result {
            Ok(revision) => {
                &&& revision_outcome(
                    user@,
                    text_option(new_username),
                    string_option(new_hash),
                    secret@,
                    target_taken,
                ) == Ok::<UserView, ErrorView>(revision.user@)
                &&& revision.renamed == renames(user@, text_option(new_username))
                &&& revision.rotated == rotates(
                    user@,
                    text_option(new_username),
                    string_option(new_hash),
                )
            },
            Err(e) => revision_outcome(
                user@,
                text_option(new_username),
                string_option(new_hash),
                secret@,
                target_taken,
            ) == Err::<UserView, ErrorView>(e@),
        },
{
    if new_username.is_none() && new_hash.is_none() {
        return Err(Error::MissingUpdateFields);
    }
    let renamed = match new_username {
        Some(name) => name.to_owned() != user.username,
        None => false,
    };
    if renamed && target_taken {
        return Err(Error::UsernameExists);
    }
    let rotated = new_hash.is_some() || renamed;
    if rotated && user.jwt_version == u64::MAX {
        return Err(Error::JwtGeneration);
    }
    let mut next = user.duplicate();
    match new_hash {
        Some(hash) => {
            next.password_hash = hash;
        },
        None => {},
    }
    if rotated {
        install_secret(&mut next, secret);
    }
    if renamed {
        match new_username {
            Some(name) => {
                next.username = name.to_owned();
            },
            None => {},
        }
    }
    Ok(Revision { user: next, renamed, rotated })
}

/// True if `result` is what revising `user` may give when the new password
/// hashed to `new_hash` and `secret` was drawn: a new name that is taken is
/// refused before anything is hashed; else either hashing failed, or the hash
/// matches the new password, the secret has full length, and the result is
/// that of [`revise_with`].
pub open spec fn revised_drawing(
    user: UserView,
    new_username: Option<Seq<char>>,
    new_password: Option<Seq<char>>,
    target_taken: bool,
    result: Result<UserView, ErrorView>,
    new_hash: Option<Seq<char>>,
    secret: Seq<char>,
) -> bool {
    if renames(user, new_username) && target_taken {
        result == Err::<UserView, ErrorView>(ErrorView::UsernameExists)
    } else if new_password is Some && new_hash is None {
        result == Err::<UserView, ErrorView>(ErrorView::Hash)
    } else {
        &&& new_hash is Some ==> new_password is Some && argon2_verdict(
            new_password->Some_0,
            new_hash->Some_0,
        ) == PasswordCheck::Match
        &&& is_signing_secret(secret)
        &&& result == revision_outcome(user, new_username, new_hash, secret, target_taken)
    }
}

/// Value of the outcome of a revision.
pub open spec fn revision_result(result: Result<Revision, Error>) -> Result<UserView, ErrorView> {
    match result {
        Ok(revision) => Ok(revision.user@),
        Err(e) => Err(e@),
    }
}

/// Revises the record `user`: hashes the new password, if there is one, and
/// draws the secret to rotate to. `target_taken` tells whether a record is
/// stored under the new name.
pub fn revise(
    user: &UserData,
    new_username: Option<&str>,
    new_password: Option<&str>,
    target_taken: bool,
) -> (result: Result<Revision, Error>)
    ensures
        exists|new_hash: Option<Seq<char>>, secret: Seq<char>| #[trigger]
            revised_drawing(
                user@,
                text_option(new_username),
                text_option(new_password),
                target_taken,
                revision_result(result),
                new_hash,
                secret,
            ),
        result matches Ok(revision) ==> {
            &&& revision.renamed == renames(user@, text_option(new_username))
            &&& revision.rotated == (new_password is Some || revision.renamed)
        },
{
    let ghost nothing = None::<Seq<char>>;
    let ghost empty = Seq::<char>::empty();
    let ghost new_name = text_option(new_username);
    let ghost password = text_option(new_password);
    let renamed = match new_username {
        Some(name) => name.to_owned() != user.username,
        None => false,
    };
    if renamed && target_taken {
        let refused: Result<Revision, Error> = Err(Error::UsernameExists);
        assert(revised_drawing(
            user@,
            new_name,
            password,
            target_taken,
            revision_result(refused),
            nothing,
            empty,
        ));
        return refused;
    }
    let new_hash = match new_password {
        Some(password_text) => match hash_password(password_text) {
            Ok(hash) => Some(hash),
            Err(_) => {
                let failed: Result<Revision, Error> = Err(Error::Hash);
                assert(revised_drawing(
                    user@,
                    new_name,
                    password,
                    target_taken,
                    revision_result(failed),
                    nothing,
                    empty,
                ));
                return failed;
            },
        },
        None => None,
    };
    let secret = generate_jwt_secret();
    let ghost hash_value = string_option(new_hash);
    let ghost secret_value = secret@;
    let result = revise_with(user, new_username, new_hash, secret, target_taken);
    assert(revised_drawing(
        user@,
        new_name,
        password,
        target_taken,
        revision_result(result),
        hash_value,
        secret_value,
    ));
    result
}

/// Decides the writes that store a revised record, from what is known of the
/// old and the new name; see [`plan_update`]. A new name that is taken is the
/// failure `UsernameExists`.
pub fn persist_plan(
    old_username: &str,
    new_username: Option<&str>,
    user: &UserData,
    old_exists: bool,
    new_exists: bool,
) -> (result: Result<Vec<StoreAction>, Error>)
    ensures
        match result {
            Ok(actions) => update_plan(
                old_username@,
                text_option(new_username),
                user@,
                old_exists,
                new_exists,
            ) == Ok::<Seq<StoreActionView>, StoreError>(
                Seq::new(actions@.len(), |i: int| actions@[i]@),
            ),
            Err(e) => {
                &&& update_plan(
                    old_username@,
                    text_option(new_username),
                    user@,
                    old_exists,
                    new_exists,
                ) is Err
                &&& e@ == persist_error(
                    update_plan(
                        old_username@,
                        text_option(new_username),
                        user@,
                        old_exists,
                        new_exists,
                    )->Err_0,
                )
            },
        },
{
    match plan_update(old_username, new_username, user, old_exists, new_exists) {
        Ok(actions) => Ok(actions),
        Err(StoreError::KeyTaken) => Err(Error::UsernameExists),
        Err(StoreError::NotFound) => Err(Error::KvStoreError),
    }
}

/// Issues the token that follows an update, as of the second `now`: one for
/// the revised record if its secret was replaced, none otherwise.
pub fn fresh_token_at(revision: &Revision, ttl_minutes: i64, now: i64) -> (result: Result<
    Option<String>,
    Error,
>)
    ensures
        update_result(result) == (if revision.rotated {
            match issue_outcome(revision.user@, ttl_minutes, now) {
                Ok(token) => Ok::<Option<Seq<char>>, ErrorView>(Some(token)),
                Err(_) => Err::<Option<Seq<char>>, ErrorView>(ErrorView::JwtGeneration),
            }
        } else {
            Ok::<Option<Seq<char>>, ErrorView>(None)
        }),
        result matches Ok(Some(fresh)) ==> token_of(
            fresh@,
            revision.user@,
            now,
            expiry(now, ttl_minutes) as i64,
        ),
{
    if revision.rotated {
        match generate_jwt_token_at(&revision.user, ttl_minutes, now) {
            Ok(fresh) => Ok(Some(fresh)),
            Err(_) => Err(Error::JwtGeneration),
        }
    } else {
        Ok(None)
    }
}

/// Issues the token that follows an update, as of the current time.
pub fn fresh_token(revision: &Revision, ttl_minutes: i64) -> (result: Result<Option<String>, Error>)
    ensures
        result matches Ok(fresh) ==> (fresh is Some <==> revision.rotated),
        result matches Ok(Some(fresh)) ==> exists|now: i64| #[trigger]
            token_of(fresh@, revision.user@, now, expiry(now, ttl_minutes) as i64),
        result matches Err(e) ==> revision.rotated && e@ == ErrorView::JwtGeneration,
{
    let now = unix_now();
    fresh_token_at(revision, ttl_minutes, now)
}

fn persist(store: &mut KvStore, old_username: &str, new_username: Option<&str>, user: &UserData) -> (result:
    Result<(), Error>)
    ensures
        match kv_update_outcome(
            old(store)@,
            old_username@,
            text_option(new_username),
            user@,
        ) {
            Ok(stored) => result is Ok && final(store)@ == stored,
            Err(e) => {
                &&& result is Err
                &&& result->Err_0@ == persist_error(e)
                &&& final(store)@ == old(store)@
            },
        },
{
    match update_user_in_kv(store, old_username, new_username, user) {
        Ok(_) => Ok(()),
        Err(StoreError::KeyTaken) => Err(Error::UsernameExists),
        Err(StoreError::NotFound) => Err(Error::KvStoreError),
    }
}

/// Updates the account that `token` speaks for, as of the second `now`, with
/// the hash of the new password and the secret to rotate to handed in.
///
/// `new_username` renames the account, `new_hash` replaces its password hash;
/// one of them must be there. A new password or another name replaces the
/// signing secret by `secret` and moves the key version on by one, once. The
/// record is then written, under the new name first and the old name deleted
/// second when it moves, and a fresh token is returned if the secret changed.
pub fn update_with(
    store: &mut KvStore,
    token: &str,
    new_username: Option<&str>,
    new_hash: Option<String>,
    secret: String,
    ttl_minutes: i64,
    now: i64,
) -> (result: Result<Option<String>, Error>)
    ensures
        updated(
            old(store)@,
            final(store)@,
            token@,
            text_option(new_username),
            string_option(new_hash),
            secret@,
            ttl_minutes,
            now,
            update_result(result),
        ),
{
    let user = match identify_at(store, token, now) {
        Ok(user) => user,
        Err(e) => {
            return Err(e);
        },
    };
    let target_taken = match new_username {
        Some(name) => user_exists_in_kv(store, name),
        None => false,
    };
    let revision = match revise_with(&user, new_username, new_hash, secret, target_taken) {
        Ok(revision) => revision,
        Err(e) => {
            return Err(e);
        },
    };
    match persist(store, user.username.as_str(), new_username, &revision.user) {
        Ok(_) => {},
        Err(e) => {
            return Err(e);
        },
    }
    fresh_token_at(&revision, ttl_minutes, now)
}

/// Updates the account that `token` speaks for, as of the current time:
/// renames it, gives it a new password, or both.
///
/// The token is verified before anything else is done, and the new password
/// is hashed only for a valid token.
pub fn update(
    store: &mut KvStore,
    token: &str,
    new_username: Option<&str>,
    new_password: Option<&str>,
    ttl_minutes: i64,
) -> (result: Result<Option<String>, Error>)
    ensures
        exists|now: i64, new_hash: Option<Seq<char>>, secret: Seq<char>| #[trigger]
            updated_drawing(
                old(store)@,
                final(store)@,
                token@,
                text_option(new_username),
                text_option(new_password),
                ttl_minutes,
                update_result(result),
                now,
                new_hash,
                secret,
            ),
{
    let now = unix_now();
    let ghost before = store@;
    let user = match identify_at(store, token, now) {
        Ok(user) => user,
        Err(e) => {
            proof {
                assert(updated_drawing(
                    before,
                    store@,
                    token@,
                    text_option(new_username),
                    text_option(new_password),
                    ttl_minutes,
                    Err::<Option<Seq<char>>, ErrorView>(e@),
                    now,
                    None::<Seq<char>>,
                    Seq::<char>::empty(),
                ));
            }
            return Err(e);
        },
    };
    proof {
        lemma_identified(store@, token@, now);
    }
    let target_taken = match new_username {
        Some(name) => user_exists_in_kv(store, name),
        None => false,
    };
    let revised = revise(&user, new_username, new_password, target_taken);
    let ghost outcome = revision_result(revised);
    let ghost new_name = text_option(new_username);
    let ghost password = text_option(new_password);
    let ghost drawn = choose|new_hash: Option<Seq<char>>, secret: Seq<char>|
        revised_drawing(user@, new_name, password, target_taken, outcome, new_hash, secret);
    let ghost drawn_hash = drawn.0;
    let ghost drawn_secret = drawn.1;
    assert(revised_drawing(
        user@,
        new_name,
        password,
        target_taken,
        outcome,
        drawn_hash,
        drawn_secret,
    ));
    let revision = match revised {
        Ok(revision) => revision,
        Err(e) => {
            proof {
                let refused = Err::<Option<Seq<char>>, ErrorView>(e@);
                if renames(user@, new_name) && target_taken {
                    assert(updated_drawing(
                        before,
                        store@,
                        token@,
                        new_name,
                        password,
                        ttl_minutes,
                        refused,
                        now,
                        None::<Seq<char>>,
                        Seq::<char>::empty(),
                    ));
                } else {
                    assert(updated_drawing(
                        before,
                        store@,
                        token@,
                        new_name,
                        password,
                        ttl_minutes,
                        refused,
                        now,
                        drawn_hash,
                        drawn_secret,
                    ));
                }
            }
            return Err(e);
        },
    };
    let result = match persist(store, user.username.as_str(), new_username, &revision.user) {
        Ok(_) => fresh_token_at(&revision, ttl_minutes, now),
        Err(e) => Err(e),
    };
    proof {
        assert(updated_drawing(
            before,
            store@,
            token@,
            text_option(new_username),
            text_option(new_password),
            ttl_minutes,
            update_result(result),
            now,
            drawn_hash,
            drawn_secret,
        ));
    }
    result
}

} // verus!
