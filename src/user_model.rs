//! Users and the payloads of the account endpoints.
use vstd::prelude::*;

use crate::ids::{oid_hex, Oid};

verus! {

/// The role recorded on an account. Authorization does not read it:
/// ownership and membership decide.
#[derive(Clone, Copy, Debug, PartialEq, Eq, Structural)]
pub enum Role {
    Admin,
    ProjectManager,
    Member,
    Viewer,
}

impl Default for Role {
    fn default() -> (r: Role)
        ensures
            r == Role::Member,
    {
        Role::Member
    }
}

/// The value of an optional name that a stored user lacks.
pub fn default_none_string() -> (r: Option<String>)
    ensures
        r.is_none(),
{
    None
}

/// A stored account. Times are milliseconds since the Unix epoch.
#[derive(Clone, Debug)]
pub struct User {
    pub id: Option<Oid>,
    pub username: String,
    pub email: String,
    pub password_hash: String,
    pub first_name: Option<String>,
    pub last_name: Option<String>,
    pub bio: Option<String>,
    pub role: Option<Role>,
    pub avatar: Option<String>,
    pub created_at: i64,
    pub updated_at: i64,
}

#[derive(Debug)]
pub struct RegisterUserSchema {
    pub username: String,
    pub email: String,
    pub password: String,
    pub first_name: String,
    pub last_name: String,
    pub bio: Option<String>,
    pub role: Option<Role>,
    pub avatar: Option<String>,
}

#[derive(Debug, Default)]
pub struct UpdateUserSchema {
    pub username: Option<String>,
    pub email: Option<String>,
    pub first_name: Option<String>,
    pub last_name: Option<String>,
    pub bio: Option<String>,
    pub role: Option<Role>,
    pub avatar: Option<String>,
}

#[derive(Debug)]
pub struct LoginUserSchema {
    pub email: String,
    pub password: String,
}

/// The public projection of a user: everything but the password credential.
#[derive(Clone, Debug)]
pub struct UserData {
    pub id: String,
    pub username: String,
    pub email: String,
    pub first_name: Option<String>,
    pub last_name: Option<String>,
    pub bio: Option<String>,
    pub role: Option<Role>,
    pub avatar: Option<String>,
}

#[derive(Debug)]
pub struct LoginResponse {
    pub token: String,
    pub user: UserData,
}

#[derive(Debug)]
pub struct UserLoginResponseTest {
    pub token: String,
    pub user: UserData,
}

/// The hex text of an optional identifier; empty when there is none.
pub open spec fn id_text(id: Option<Oid>) -> Seq<char> {
    match id {
        Some(o) => oid_hex(o.bytes@),
        None => Seq::empty(),
    }
}

/// `d` is the public projection of `u`.
pub open spec fn is_user_data(u: User, d: UserData) -> bool {
    &&& d.id@ == id_text(u.id)
    &&& d.username == u.username
    &&& d.email == u.email
    &&& d.first_name == u.first_name
    &&& d.last_name == u.last_name
    &&& d.bio == u.bio
    &&& d.role == u.role
    &&& d.avatar == u.avatar
}

impl UserData {
    /// Projects a user to its public fields.
    pub fn from_user(user: User) -> (r: UserData)
        ensures
            is_user_data(user, r),
    {
        let id = match user.id {
            Some(o) => o.to_hex(),
            None => String::new(),
        };
        UserData {
            id,
            username: user.username,
            email: user.email,
            first_name: user.first_name,
            last_name: user.last_name,
            bio: user.bio,
            role: user.role,
            avatar: user.avatar,
        }
    }
}

} // verus!
