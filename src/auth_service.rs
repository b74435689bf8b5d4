//! Registration, login and profile rules, and the resolution of a bearer
//! credential to a user. Token signing and checking stay with the caller.
use vstd::prelude::*;

use crate::errors::{fails_with, AppError, ErrorKind};
use crate::ids::{is_oid_hex, names_oid, Oid};
use crate::image_service::{has_prefix, starts_with};
use crate::user_model::{LoginUserSchema, RegisterUserSchema, Role, UpdateUserSchema, User};
use crate::validation::{char_count, email_is_valid, is_valid_email};

verus! {

/// Whether `password` is the password that the PHC string `hash` was made
/// from.
pub uninterp spec fn argon2_accepts(hash: Seq<char>, password: Seq<char>) -> bool;

/// Relies on argon2's `Argon2::default().hash_password` with a salt from
/// password-hash's `SaltString::generate(OsRng)`: the salt is random, but the
/// PHC string carries the salt and parameters, so checking `password`
/// against it succeeds.
#[verifier::external_body]
pub fn hash_password(password: &str) -> (r: Result<String, AppError>)
    ensures
        r matches Ok(h) ==> argon2_accepts(h@, password@),
{
    let salt = argon2::password_hash::SaltString::generate(&mut argon2::password_hash::rand_core::OsRng);
    let hasher = argon2::Argon2::default();
    match argon2::password_hash::PasswordHasher::hash_password(&hasher, password.as_bytes(), &salt) {
        Ok(h) => Ok(h.to_string()),
        Err(_) => Err(AppError::InternalServerError),
    }
}

/// Relies on password-hash's `PasswordHash::new` and argon2's
/// `verify_password`: when `hashed_password` parses, the answer depends on the
/// two texts alone.
#[verifier::external_body]
pub fn verify_password(hashed_password: &str, password_to_verify: &str) -> (r: Result<
    bool,
    AppError,
>)
    ensures
        r matches Ok(b) ==> b == argon2_accepts(hashed_password@, password_to_verify@),
{
    let verifier = argon2::Argon2::default();
    match argon2::password_hash::PasswordHash::new(hashed_password) {
        Ok(parsed) => Ok(
            argon2::password_hash::PasswordVerifier::verify_password(
                &verifier,
                password_to_verify.as_bytes(),
                &parsed,
            ).is_ok(),
        ),
        Err(_) => Err(AppError::InternalServerError),
    }
}

/// The checks of a registration payload that need nothing from storage.
pub open spec fn registration_ok(s: RegisterUserSchema) -> bool {
    s.username@.len() >= 5 && email_is_valid(s.email@) && s.password@.len() >= 8
}

/// `header` carries a bearer credential.
pub open spec fn is_bearer(header: Seq<char>) -> bool {
    has_prefix(header, "Bearer "@)
}

/// The authentication service.
pub struct AuthService {}

impl AuthService {
    pub fn new() -> AuthService {
        AuthService {  }
    }

    /// Decides a registration. `taken` is whether storage already holds a user
    /// with the e-mail address or the user name. The password is stored only
    /// as its hash; the role is `Member` unless given.
    pub fn register_user(&self, schema: RegisterUserSchema, taken: bool, now: i64) -> (r: Result<
        User,
        AppError,
    >)
        ensures
            !registration_ok(schema) ==> fails_with(r, ErrorKind::Validation),
            registration_ok(schema) && taken ==> fails_with(r, ErrorKind::Validation),
            r matches Ok(u) ==> {
                &&& registration_ok(schema) && !taken
                &&& argon2_accepts(u.password_hash@, schema.password@)
                &&& u.id.is_none()
                &&& u.username == schema.username
                &&& u.email == schema.email
                &&& u.first_name == Some(schema.first_name)
                &&& u.last_name == Some(schema.last_name)
                &&& u.bio == schema.bio
                &&& u.role == Some(schema.role.unwrap_or(Role::Member))
                &&& u.avatar == schema.avatar
                &&& u.created_at == now
                &&& u.updated_at == now
            },
    {
        if char_count(schema.username.as_str()) < 5 {
            return Err(
                AppError::ValidationError(
                    String::from_str("El nombre de usuario debe tener al menos 5 caracteres."),
                ),
            );
        }
        if !is_valid_email(schema.email.as_str()) {
            return Err(AppError::ValidationError(String::from_str("El correo electrónico no es válido.")));
        }
        if char_count(schema.password.as_str()) < 8 {
            return Err(
                AppError::ValidationError(
                    String::from_str("La contraseña debe tener al menos 8 caracteres."),
                ),
            );
        }
        if taken {
            return Err(
                AppError::ValidationError(
                    String::from_str("El correo electrónico o nombre de usuario ya está en uso"),
                ),
            );
        }
        let password_hash = match hash_password(schema.password.as_str()) {
            Ok(h) => h,
            Err(e) => {
                return Err(e);
            },
        };
        Ok(
            User {
                id: None,
                username: schema.username,
                email: schema.email,
                password_hash,
                first_name: Some(schema.first_name),
                last_name: Some(schema.last_name),
                bio: schema.bio,
                role: Some(
                    match schema.role {
                        Some(r) => r,
                        None => Role::Member,
                    },
                ),
                avatar: schema.avatar,
                created_at: now,
                updated_at: now,
            },
        )
    }

    /// Decides a login once the password check of `user` has given `check`:
    /// a wrong password is invalid input, a failed check or a user without an
    /// identifier is an internal error.
    pub fn finish_login(user: User, check: Result<bool, AppError>) -> (r: Result<User, AppError>)
        ensures
            check matches Ok(true) ==> if user.id.is_some() {
                r == Ok::<User, AppError>(user)
            } else {
                fails_with(r, ErrorKind::Internal)
            },
            check matches Ok(false) ==> fails_with(r, ErrorKind::Validation),
            check matches Err(e) ==> r == Err::<User, AppError>(e),
    {
        match check {
            Err(e) => Err(e),
            Ok(false) => Err(AppError::ValidationError(String::from_str("Contraseña incorrecta"))),
            Ok(true) => {
                if user.id.is_none() {
                    return Err(AppError::InternalServerError);
                }
                Ok(user)
            },
        }
    }

    /// Decides a login with `schema`, where `user` is what storage holds for
    /// its e-mail address. On success the caller issues a token for the
    /// returned user.
    pub fn login_user(&self, schema: LoginUserSchema, user: Option<User>) -> (r: Result<
        User,
        AppError,
    >)
        ensures
            !email_is_valid(schema.email@) ==> fails_with(r, ErrorKind::Validation),
            email_is_valid(schema.email@) && user.is_none() ==> fails_with(r, ErrorKind::Validation),
            email_is_valid(schema.email@) && user.is_some() && user.unwrap().password_hash@.len() == 0
                ==> fails_with(r, ErrorKind::Validation),
            r matches Ok(u) ==> user == Some(u) && u.id.is_some() && argon2_accepts(
                u.password_hash@,
                schema.password@,
            ),
            email_is_valid(schema.email@) && user.is_some() && user.unwrap().password_hash@.len() > 0
                && !argon2_accepts(user.unwrap().password_hash@, schema.password@) ==> r.is_err(),
    {
        if !is_valid_email(schema.email.as_str()) {
            return Err(AppError::ValidationError(String::from_str("El correo electrónico no es válido.")));
        }
        let u = match user {
            Some(u) => u,
            None => {
                return Err(AppError::ValidationError(String::from_str("Usuario no encontrado")));
            },
        };
        if char_count(u.password_hash.as_str()) == 0 {
            return Err(
                AppError::ValidationError(String::from_str("Usuario sin contraseña configurada")),
            );
        }
        let check = verify_password(u.password_hash.as_str(), schema.password.as_str());
        Self::finish_login(u, check)
    }

    /// Applies a profile change to `user` (what storage holds for the caller).
    /// Absent fields keep their value; a change that sets anything is stamped
    /// with `now`.
    pub fn update_user_details(&self, update_data: UpdateUserSchema, user: Option<User>, now: i64) -> (r:
        Result<User, AppError>)
        ensures
            user.is_none() ==> fails_with(r, ErrorKind::NotFound),
            user matches Some(u) ==> (r matches Ok(v) && {
                let nothing = update_data.username.is_none() && update_data.email.is_none()
                    && update_data.first_name.is_none() && update_data.last_name.is_none()
                    && update_data.bio.is_none() && update_data.role.is_none()
                    && update_data.avatar.is_none();
                &&& v.id == u.id
                &&& v.password_hash == u.password_hash
                &&& v.created_at == u.created_at
                &&& v.username == (match update_data.username {
                    Some(x) => x,
                    None => u.username,
                })
                &&& v.email == (match update_data.email {
                    Some(x) => x,
                    None => u.email,
                })
                &&& v.first_name == (match update_data.first_name {
                    Some(x) => Some(x),
                    None => u.first_name,
                })
                &&& v.last_name == (match update_data.last_name {
                    Some(x) => Some(x),
                    None => u.last_name,
                })
                &&& v.bio == (match update_data.bio {
                    Some(x) => Some(x),
                    None => u.bio,
                })
                &&& v.role == (match update_data.role {
                    Some(x) => Some(x),
                    None => u.role,
                })
                &&& v.avatar == (match update_data.avatar {
                    Some(x) => Some(x),
                    None => u.avatar,
                })
                &&& v.updated_at == if nothing {
                    u.updated_at
                } else {
                    now
                }
            }),
    {
        let mut u = match user {
            Some(u) => u,
            None => {
                return Err(
                    AppError::NotFound(
                        String::from_str("Usuario no encontrado después de actualizar"),
                    ),
                );
            },
        };
        let nothing = update_data.username.is_none() && update_data.email.is_none()
            && update_data.first_name.is_none() && update_data.last_name.is_none()
            && update_data.bio.is_none() && update_data.role.is_none()
            && update_data.avatar.is_none();
        if let Some(x) = update_data.username {
            u.username = x;
        }
        if let Some(x) = update_data.email {
            u.email = x;
        }
        if let Some(x) = update_data.first_name {
            u.first_name = Some(x);
        }
        if let Some(x) = update_data.last_name {
            u.last_name = Some(x);
        }
        if let Some(x) = update_data.bio {
            u.bio = Some(x);
        }
        if let Some(x) = update_data.role {
            u.role = Some(x);
        }
        if let Some(x) = update_data.avatar {
            u.avatar = Some(x);
        }
        if !nothing {
            u.updated_at = now;
        }
        Ok(u)
    }

    /// The credential of an `Authorization` header: the text after
    /// `Bearer `. A missing header, or one of another scheme, is refused.
    pub fn bearer_token(header: Option<&str>) -> (r: Result<String, AppError>)
        ensures
            header.is_none() ==> fails_with(r, ErrorKind::Denied),
            header matches Some(h) ==> if is_bearer(h@) {
                r matches Ok(t) && t@ == h@.subrange(7, h@.len() as int)
            } else {
                fails_with(r, ErrorKind::Denied)
            },
    {
        let h = match header {
            Some(h) => h,
            None => {
                return Err(
                    AppError::Unauthorized(String::from_str("Token de autorización no encontrado")),
                );
            },
        };
        proof {
            reveal_strlit("Bearer ");
        }
        if !starts_with(h, "Bearer ") {
            return Err(
                AppError::Unauthorized(String::from_str("Token de autorización no encontrado")),
            );
        }
        let n = h.unicode_len();
        Ok(String::from_str(h.substring_char(7, n)))
    }

    /// The user that a verified token names by its subject `sub`.
    pub fn token_subject(sub: &str) -> (r: Result<Oid, AppError>)
        ensures
            is_oid_hex(sub@) ==> (r matches Ok(o) && names_oid(sub@, o)),
            !is_oid_hex(sub@) ==> fails_with(r, ErrorKind::Denied),
    {
        match Oid::parse_str(sub) {
            Some(o) => Ok(o),
            None => Err(AppError::Unauthorized(String::from_str("ID de usuario inválido en el token."))),
        }
    }

    /// The principal of a request: the user that storage holds for the
    /// token's subject. A user that no longer exists is refused.
    pub fn authenticated_user(user: Option<User>) -> (r: Result<User, AppError>)
        ensures
            user.is_none() ==> fails_with(r, ErrorKind::Denied),
            user matches Some(u) ==> r == Ok::<User, AppError>(u),
    {
        match user {
            Some(u) => Ok(u),
            None => Err(AppError::Unauthorized(String::from_str("El usuario del token ya no existe."))),
        }
    }
}

} // verus!
