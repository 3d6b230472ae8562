//! The data model: the persisted user record, the token claims, and the
//! request and response bodies of the service.

use vstd::prelude::*;

verus! {

/// Mathematical value of a [`UserData`].
pub struct UserView {
    pub username: Seq<char>,
    pub password_hash: Seq<char>,
    pub created_at: i64,
    pub jwt_secret: Seq<char>,
    pub jwt_version: u64,
}

/// The persisted record of one account.
///
/// `username` is also the key under which the record is stored. `jwt_secret`
/// is the base64 text of the account's signing key, and `jwt_version` counts
/// how often that key was replaced, starting at 1.
#[derive(Clone, Debug, PartialEq, Eq)]
pub struct UserData {
    pub username: String,
    pub password_hash: String,
    pub created_at: i64,
    pub jwt_secret: String,
    pub jwt_version: u64,
}

impl View for UserData {
    type V = UserView;

    open spec fn view(&self) -> UserView {
        UserView {
            username: self.username@,
            password_hash: self.password_hash@,
            created_at: self.created_at,
            jwt_secret: self.jwt_secret@,
            jwt_version: self.jwt_version,
        }
    }
}

impl UserData {
    /// A copy with the same value.
    pub fn duplicate(&self) -> (copy: UserData)
        ensures
            copy@ == self@,
    {
        UserData {
            username: self.username.clone(),
            password_hash: self.password_hash.clone(),
            created_at: self.created_at,
            jwt_secret: self.jwt_secret.clone(),
            jwt_version: self.jwt_version,
        }
    }
}

/// Mathematical value of a [`Claims`].
pub struct ClaimsView {
    pub sub: Seq<char>,
    pub exp: i64,
    pub iat: i64,
    pub ver: u64,
}

/// The payload of a bearer token: the subject it was issued to, the second it
/// expires, the second it was issued, and the subject's key version at that time.
#[derive(Clone, Debug, PartialEq, Eq)]
pub struct Claims {
    pub sub: String,
    pub exp: i64,
    pub iat: i64,
    pub ver: u64,
}

impl View for Claims {
    type V = ClaimsView;

    open spec fn view(&self) -> ClaimsView {
        ClaimsView { sub: self.sub@, exp: self.exp, iat: self.iat, ver: self.ver }
    }
}

/// Body of a login or registration request.
#[derive(Clone, Debug, PartialEq, Eq)]
pub struct LoginRequest {
    pub user: String,
    pub password: String,
}

/// Body of the answer to a login.
#[derive(Clone, Debug, PartialEq, Eq)]
pub struct LoginResponse {
    pub success: bool,
    pub token: Option<String>,
    pub message: String,
    pub expires_in: i64,
}

/// Body of the answer to an account deletion.
#[derive(Clone, Debug, PartialEq, Eq)]
pub struct DeleteResponse {
    pub success: bool,
    pub message: String,
}

/// Body of an update request: a new name, a new password, or both.
#[derive(Clone, Debug, PartialEq, Eq)]
pub struct UpdateUserRequest {
    pub new_username: Option<String>,
    pub new_password: Option<String>,
}

/// Body of the answer to an update.
#[derive(Clone, Debug, PartialEq, Eq)]
pub struct UpdateUserResponse {
    pub success: bool,
    pub message: String,
    pub new_token: Option<String>,
    pub expires_in: Option<i64>,
}

} // verus!
