//! Data types of the dashboard's API surface.
//!
//! The dashboard itself — routing, templating, cookies, token signing — is
//! the host's; these are the plain values that cross its boundary, plus the
//! one derived value the core computes for it: a user's avatar address.

use vstd::prelude::*;
use vstd::string::StringExecFns;

use crate::textutil::{starts_with_spec, str_starts_with};

verus! {

/// A dashboard session's subject.
#[derive(Debug, Clone, Copy, PartialEq, Eq, Structural)]
pub struct User {
    pub id: u64,
    pub role: Roles,
}

/// The privilege ladder of the dashboard, lowest first.
#[derive(Debug, Clone, Copy, PartialEq, Eq, Structural)]
pub enum Roles {
    Unprivileged,
    User,
    Moderator,
    Admin,
}

impl Roles {
    /// A role's height on the ladder; a claim suffices for a requirement
    /// exactly when its height is at least the requirement's.
    pub fn rank(&self) -> (r: u64)
        ensures
            r == match *self {
                Roles::Unprivileged => 0u64,
                Roles::User => 1u64,
                Roles::Moderator => 2u64,
                Roles::Admin => 3u64,
            },
    {
        match self {
            Roles::Unprivileged => 0,
            Roles::User => 1,
            Roles::Moderator => 2,
            Roles::Admin => 3,
        }
    }
}

impl User {
    /// A fresh subject starts without privileges.
    pub fn new(id: u64) -> (r: User)
        ensures
            r == (User { id, role: Roles::Unprivileged }),
    {
        User { id, role: Roles::Unprivileged }
    }
}

/// A bearer of a valid admin token.
#[derive(Debug)]
pub struct AdminUser<'r>(pub &'r str);

/// A bearer of any valid token.
#[derive(Debug)]
pub struct AuthenticatedUser<'r>(pub &'r str);

/// Why a presented API key was not accepted.
#[derive(Debug, Clone, Copy, PartialEq, Eq, Structural)]
pub enum ApiKeyError {
    Missing,
    Invalid,
}

/// The request body asking for a verification mail.
#[derive(Debug, Clone)]
pub struct Email {
    pub email: String,
}

/// The request body submitting a verification code.
#[derive(Debug, Clone)]
pub struct Code {
    pub code: String,
}

/// A uniform API response envelope.
#[derive(Debug, Clone)]
pub struct Response<T> {
    pub data: T,
    pub status: u16,
    pub message: String,
}

/// The platform's answer to a token exchange.
#[derive(Debug, Clone)]
pub struct TokenResponse {
    pub access_token: String,
}

/// The platform's description of the signed-in user.
#[derive(Debug, Clone)]
pub struct UserInfo {
    pub id: String,
    pub username: String,
    pub avatar: String,
}

/// One server the signed-in user belongs to.
#[derive(Debug, Clone)]
pub struct Guild {
    pub id: String,
    pub name: String,
    pub icon: Option<String>,
    pub owner: bool,
    pub permissions: u64,
}

impl UserInfo {
    /// The address of the user's avatar image: animated avatars (hash
    /// starting `a_`) are fetched as gif, all others as png.
    pub fn get_avatar_url(&self) -> (r: String)
        ensures
            r@ == "https://cdn.discordapp.com/avatars/"@ + self.id@ + "/"@ + self.avatar@
                + "."@ + (if starts_with_spec(self.avatar@, "a_"@) {
                "gif"@
            } else {
                "png"@
            }),
    {
        let animated = str_starts_with(self.avatar.as_str(), "a_");
        let mut r = String::from_str("https://cdn.discordapp.com/avatars/");
        r.append(self.id.as_str());
        r.append("/");
        r.append(self.avatar.as_str());
        r.append(".");
        if animated {
            r.append("gif");
        } else {
            r.append("png");
        }
        r
    }
}

} // verus!
