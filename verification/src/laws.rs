//! What holds of the engine as a whole, over every store, record, token and
//! time. Each law is proved from the contracts of the operations alone.

use crate::auth::{ClaimsView, UserView};
use crate::engine::{
    consistent, delete_outcome, enter_outcome, identify_outcome, lemma_identified, logged_in,
    login_outcome, lookup, registered, renames, revised, rotates, update_outcome, updated,
    Accounts,
};
use crate::error::ErrorView;
use crate::kv_store::{after_action, update_plan};
use crate::password::{argon2_verdict, PasswordCheck};
use crate::token::{
    expiry, issue_outcome, signed_claims, token_of, unverified_subject, verify_outcome,
    IssueError, TokenError,
};
use vstd::prelude::*;

verus! {

/// A token of a record verifies against that record at every time up to its
/// expiry, and yields the claims it was issued with. Read without
/// verification, it names the record's user.
pub proof fn law_token_verifies(token: Seq<char>, user: UserView, iat: i64, exp: i64, later: i64)
    requires
        token_of(token, user, iat, exp),
        later <= exp,
    ensures
        verify_outcome(token, user, later) == Ok::<ClaimsView, TokenError>(
            ClaimsView { sub: user.username, exp, iat, ver: user.jwt_version },
        ),
        unverified_subject(token) == Some(user.username),
{
}

/// A token whose expiry is in the past is refused as expired, even though its
/// signature is valid and its key version is current.
pub proof fn law_expired_token_is_refused(
    token: Seq<char>,
    user: UserView,
    claims: ClaimsView,
    now: i64,
)
    requires
        signed_claims(token, user.jwt_secret) == Some(claims),
        claims.sub == user.username,
        claims.ver == user.jwt_version,
        now > claims.exp,
    ensures
        verify_outcome(token, user, now) == Err::<ClaimsView, TokenError>(TokenError::Expired),
{
}

/// A token that carries another key version than the record's is refused as
/// stale when its signature is valid, whether it has expired or not.
pub proof fn law_stale_version_is_refused(
    token: Seq<char>,
    user: UserView,
    claims: ClaimsView,
    now: i64,
)
    requires
        signed_claims(token, user.jwt_secret) == Some(claims),
        claims.sub == user.username,
        claims.ver != user.jwt_version,
    ensures
        verify_outcome(token, user, now) == Err::<ClaimsView, TokenError>(
            TokenError::VersionMismatch,
        ),
{
}

/// A login under a name that does not exist and a login with a wrong password
/// are answered alike, whatever the lifetime asked for and the time.
pub proof fn law_login_hides_existence(
    user: UserView,
    wrong: Seq<char>,
    any: Seq<char>,
    ttl_a: i64,
    now_a: i64,
    ttl_b: i64,
    now_b: i64,
)
    requires
        argon2_verdict(wrong, user.password_hash) == PasswordCheck::Mismatch,
    ensures
        login_outcome(Some(user), wrong, ttl_a, now_a) == login_outcome(
            None::<UserView>,
            any,
            ttl_b,
            now_b,
        ),
        login_outcome(Some(user), wrong, ttl_a, now_a) == Err::<Seq<char>, ErrorView>(
            ErrorView::InvalidCredentials,
        ),
{
}

/// After a registration that succeeded, a login with the same credentials is
/// never refused for its credentials: it fails only if no token can be made,
/// and never for the secret. A token that it returns verifies against the
/// stored record at every time up to its expiry.
pub proof fn law_register_then_login(
    before: Accounts,
    after: Accounts,
    username: Seq<char>,
    password: Seq<char>,
    ttl_minutes: i64,
    now: i64,
    result: Result<Seq<char>, ErrorView>,
    later: i64,
)
    requires
        registered(before, after, username, password, Ok::<(), ErrorView>(())),
        logged_in(lookup(after, username), password, ttl_minutes, now, result),
    ensures
        after.contains_key(username),
        result is Ok <==> issue_outcome(after[username], ttl_minutes, now) is Ok,
        result is Err ==> result == Err::<Seq<char>, ErrorView>(ErrorView::JwtGeneration),
        issue_outcome(after[username], ttl_minutes, now) != Err::<Seq<char>, IssueError>(
            IssueError::Secret,
        ),
        result matches Ok(token) ==> later <= expiry(now, ttl_minutes) ==> verify_outcome(
            token,
            after[username],
            later,
        ) == Ok::<ClaimsView, TokenError>(
            ClaimsView { sub: username, exp: expiry(now, ttl_minutes) as i64, iat: now, ver: 1 },
        ),
{
}

/// The revised record keeps its time of creation. Its key version never
/// goes down: it stays, or moves on by one. The secret changes only when the
/// version moves on, and then it is the secret that was drawn.
pub proof fn law_rotation(
    user: UserView,
    new_username: Option<Seq<char>>,
    new_hash: Option<Seq<char>>,
    secret: Seq<char>,
)
    requires
        user.jwt_version < u64::MAX,
    ensures
        ({
            let next = revised(user, new_username, new_hash, secret);
            &&& next.created_at == user.created_at
            &&& next.jwt_version >= user.jwt_version
            &&& next.jwt_version == user.jwt_version <==> !rotates(user, new_username, new_hash)
            &&& rotates(user, new_username, new_hash) ==> next.jwt_version == user.jwt_version + 1
                && next.jwt_secret == secret
            &&& next.jwt_secret != user.jwt_secret ==> next.jwt_version == user.jwt_version + 1
        }),
{
}

/// After an update that replaced the secret, every token that verified
/// against the old record is refused against the new one, and never for
/// expiry: as stale if its signature still holds under the new secret and the
/// name stayed, as badly signed otherwise. The token that the update returned
/// verifies against the new record up to its expiry.
pub proof fn law_update_revokes_tokens(
    before: Accounts,
    after: Accounts,
    token: Seq<char>,
    new_username: Option<Seq<char>>,
    new_hash: Option<Seq<char>>,
    secret: Seq<char>,
    ttl_minutes: i64,
    now: i64,
    fresh: Seq<char>,
    earlier_token: Seq<char>,
    earlier: i64,
    later: i64,
)
    requires
        updated(
            before,
            after,
            token,
            new_username,
            new_hash,
            secret,
            ttl_minutes,
            now,
            Ok::<Option<Seq<char>>, ErrorView>(Some(fresh)),
        ),
        verify_outcome(earlier_token, identify_outcome(before, token, now)->Ok_0, earlier) is Ok,
    ensures
        ({
            let user = identify_outcome(before, token, now)->Ok_0;
            let next = revised(user, new_username, new_hash, secret);
            &&& rotates(user, new_username, new_hash)
            &&& lookup(after, next.username) == Some(next)
            &&& verify_outcome(earlier_token, next, later) is Err
            &&& verify_outcome(earlier_token, next, later) != Err::<ClaimsView, TokenError>(
                TokenError::Expired,
            )
            &&& verify_outcome(earlier_token, next, later) == Err::<ClaimsView, TokenError>(
                TokenError::VersionMismatch,
            ) <==> signed_claims(earlier_token, secret) is Some && !renames(user, new_username)
            &&& later <= expiry(now, ttl_minutes) ==> verify_outcome(fresh, next, later) is Ok
        }),
{
    lemma_identified(before, token, now);
}

/// After an update that renamed an account, no record is left under the old
/// name, and the record under the new name has the old time of creation.
/// Before the update the old name was taken and the new one free; after it
/// the new name is taken and the old one free again for a registration.
pub proof fn law_rename_moves_account(
    before: Accounts,
    after: Accounts,
    token: Seq<char>,
    new_name: Seq<char>,
    new_hash: Option<Seq<char>>,
    secret: Seq<char>,
    ttl_minutes: i64,
    now: i64,
    result: Result<Option<Seq<char>>, ErrorView>,
    newcomer: UserView,
)
    requires
        updated(before, after, token, Some(new_name), new_hash, secret, ttl_minutes, now, result),
        result is Ok,
        identify_outcome(before, token, now)->Ok_0.username != new_name,
    ensures
        ({
            let user = identify_outcome(before, token, now)->Ok_0;
            &&& before.contains_key(user.username) && !before.contains_key(new_name)
            &&& !after.contains_key(user.username) && after.contains_key(new_name)
            &&& after[new_name].username == new_name
            &&& after[new_name].created_at == user.created_at
            &&& result is Ok && result->Ok_0 is Some
            &&& newcomer.username == user.username ==> enter_outcome(before, newcomer).1 == Err::<
                (),
                ErrorView,
            >(ErrorView::UserExists) && enter_outcome(after, newcomer).1 is Ok
            &&& newcomer.username == new_name ==> enter_outcome(before, newcomer).1 is Ok
                && enter_outcome(after, newcomer).1 == Err::<(), ErrorView>(
                ErrorView::UserExists,
            )
        }),
{
    lemma_identified(before, token, now);
}

/// An update that renames to a name that is taken fails as such and leaves
/// the store as it was: the record that was to move and the one in its way.
pub proof fn law_taken_name_changes_nothing(
    before: Accounts,
    token: Seq<char>,
    new_name: Seq<char>,
    new_hash: Option<Seq<char>>,
    secret: Seq<char>,
    ttl_minutes: i64,
    now: i64,
)
    requires
        identify_outcome(before, token, now) is Ok,
        identify_outcome(before, token, now)->Ok_0.username != new_name,
        before.contains_key(new_name),
    ensures
        update_outcome(before, token, Some(new_name), new_hash, secret, ttl_minutes, now) == (
            before,
            Err::<Option<Seq<char>>, ErrorView>(ErrorView::UsernameExists),
        ),
{
}

/// An update and a deletion keep every record under its own name, and an
/// update that fails before it writes leaves the store as it was.
pub proof fn law_store_stays_consistent(
    before: Accounts,
    token: Seq<char>,
    new_username: Option<Seq<char>>,
    new_hash: Option<Seq<char>>,
    secret: Seq<char>,
    ttl_minutes: i64,
    now: i64,
)
    requires
        consistent(before),
    ensures
        consistent(
            update_outcome(before, token, new_username, new_hash, secret, ttl_minutes, now).0,
        ),
        consistent(delete_outcome(before, token, now).0),
        update_outcome(before, token, new_username, new_hash, secret, ttl_minutes, now).1 is Err
            && update_outcome(before, token, new_username, new_hash, secret, ttl_minutes, now).1
            != Err::<Option<Seq<char>>, ErrorView>(ErrorView::JwtGeneration) ==> update_outcome(
            before,
            token,
            new_username,
            new_hash,
            secret,
            ttl_minutes,
            now,
        ).0 == before,
{
    if identify_outcome(before, token, now) is Ok {
        lemma_identified(before, token, now);
    }
}

/// A move never loses the account: the plan writes the new name first, so
/// after its first write the record is stored under both names, and only the
/// second write removes the old one.
pub proof fn law_move_never_loses_the_account(
    store: Accounts,
    old_name: Seq<char>,
    new_name: Seq<char>,
    user: UserView,
)
    requires
        store.contains_key(old_name),
        !store.contains_key(new_name),
    ensures
        ({
            let plan = update_plan(old_name, Some(new_name), user, true, false);
            &&& plan is Ok
            &&& plan->Ok_0.len() == 2
            &&& after_action(store, plan->Ok_0[0]).contains_key(old_name)
            &&& after_action(store, plan->Ok_0[0]).contains_key(new_name)
            &&& after_action(store, plan->Ok_0[0])[new_name] == user
            &&& after_action(after_action(store, plan->Ok_0[0]), plan->Ok_0[1]) == store.insert(
                new_name,
                user,
            ).remove(old_name)
        }),
{
}

/// A deletion under a valid token removes exactly the account of the token;
/// under any other token it removes nothing.
pub proof fn law_delete_removes_the_subject(before: Accounts, token: Seq<char>, now: i64)
    ensures
        match identify_outcome(before, token, now) {
            Ok(user) => delete_outcome(before, token, now) == (
                before.remove(user.username),
                Ok::<Seq<char>, ErrorView>(user.username),
            ) && before.contains_key(user.username) && unverified_subject(token) == Some(
                user.username,
            ),
            Err(e) => delete_outcome(before, token, now) == (
                before,
                Err::<Seq<char>, ErrorView>(e),
            ),
        },
{
    if identify_outcome(before, token, now) is Ok {
        lemma_identified(before, token, now);
    }
}

} // verus!
