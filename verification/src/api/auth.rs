//! The forms of the sign-in API and the claims of an OAuth2 identity token.
use argon2::password_hash::{Error, SaltString};
use argon2::PasswordHasher;
use vstd::prelude::*;

use crate::api::ApiErrorKind;
use crate::error::ArgonError;
use crate::executor::stages::{argon2_password_check, check_password_hash};

verus! {

/// A sign-in form: the user's name and password.
#[derive(Debug, Clone)]
pub struct LoginForm {
    pub name: String,
    pub password: String,
}

/// A registration form: the new user's name and password.
#[derive(Debug, Clone)]
pub struct RegisterForm {
    pub name: String,
    pub password: String,
}

/// The claims of an OAuth2 identity token.
#[derive(Debug, Clone)]
pub struct Oauth2Claims {
    pub iss: String,
    pub sub: String,
    pub aud: String,
    pub exp: u64,
    pub iat: u64,
    pub auth_time: u64,
    pub acr: String,
    pub email: String,
    pub email_verified: bool,
    pub name: String,
    pub given_name: String,
    pub family_name: String,
    pub middle_name: String,
    pub nickname: String,
    pub preferred_username: String,
}

/// The check of a sign-in against the password hash stored for the named
/// user (none when there is no such user): `Ok(false)` when there is no
/// user (answered 401), `Ok(true)` when the password matches, and otherwise
/// the error: a wrong password is invalid login data, a hash that cannot be
/// read an error of the hash.
pub fn check_login(stored_hash: Option<String>, password: &str) -> (r: Result<bool, ApiErrorKind>)
    ensures
        (r == Ok::<bool, ApiErrorKind>(true)) <==> spec_login_accepts(
            match stored_hash {
                Some(h) => Some(h@),
                None => None,
            },
            password@,
        ),
        match stored_hash {
            None => r == Ok::<bool, ApiErrorKind>(false),
            Some(hash) => match argon2_password_check(hash@, password@) {
                Ok(true) => r == Ok::<bool, ApiErrorKind>(true),
                Ok(false) => r == Err::<bool, ApiErrorKind>(ApiErrorKind::InvalidLoginData),
                Err((is_password, message)) => if is_password {
                    r == Err::<bool, ApiErrorKind>(ApiErrorKind::InvalidLoginData)
                } else {
                    r matches Err(ApiErrorKind::PwHash(m)) && m@ == message
                },
            },
        },
{
    let hash = match stored_hash {
        Some(h) => h,
        None => return Ok(false),
    };
    match check_password_hash(hash.as_str(), password) {
        Ok(true) => Ok(true),
        Ok(false) => Err(ApiErrorKind::from_argon(ArgonError::Password, String::new())),
        Err((is_password, message)) => {
            let err = if is_password {
                ArgonError::Password
            } else {
                ArgonError::Other
            };
            Err(ApiErrorKind::from_argon(err, message))
        },
    }
}

/// Whether a sign-in with a password is accepted against the hash stored for
/// the user (none when there is no such user).
pub open spec fn spec_login_accepts(stored_hash: Option<Seq<char>>, password: Seq<char>) -> bool {
    stored_hash matches Some(h) && argon2_password_check(h, password) == Ok::<
        bool,
        (bool, Seq<char>),
    >(true)
}

/// Hashes a password for storage with Argon2id, version 0x13 and the default
/// parameters, under a fresh random salt (`SaltString::generate` with the
/// system's random source, then `hash_password`). The salt is random, so the
/// hash is not named; what is stated is that the password checks against
/// it (`spec_login_accepts`). A failure gives whether it is the
/// wrong-password error and its message.
#[verifier::external_body]
fn hash_new_password(password: &str) -> (r: Result<String, (bool, String)>)
    ensures
        r matches Ok(h) ==> spec_login_accepts(Some(h@), password@),
{
    let salt = SaltString::generate(&mut rand::rngs::OsRng);
    let argon = argon2::Argon2::new(
        argon2::Algorithm::Argon2id,
        argon2::Version::V0x13,
        argon2::Params::default(),
    );
    match argon.hash_password(password.as_bytes(), &salt) {
        Ok(hash) => Ok(hash.to_string()),
        Err(err) => Err((err == Error::Password, err.to_string())),
    }
}

/// What a registration stores, or answers, for each outcome of hashing the
/// password: the hash itself, or the hashing error (invalid login data for
/// the wrong-password error, an error of the hash with its message
/// otherwise).
pub fn registration_outcome(hashed: Result<String, (bool, String)>) -> (r: Result<String, ApiErrorKind>)
    ensures
        match hashed {
            Ok(h) => r == Ok::<String, ApiErrorKind>(h),
            Err((is_password, message)) => if is_password {
                r == Err::<String, ApiErrorKind>(ApiErrorKind::InvalidLoginData)
            } else {
                r == Err::<String, ApiErrorKind>(ApiErrorKind::PwHash(message))
            },
        },
{
    match hashed {
        Ok(h) => Ok(h),
        Err((is_password, message)) => {
            let err = if is_password {
                ArgonError::Password
            } else {
                ArgonError::Other
            };
            Err(ApiErrorKind::from_argon(err, message))
        },
    }
}

/// The hash a registration stores for the new user's password; a hashing
/// failure is an error of the hash (invalid login data for the wrong-password
/// error).
pub fn registration_hash(form: &RegisterForm) -> (r: Result<String, ApiErrorKind>)
    ensures
        r matches Ok(h) ==> spec_login_accepts(Some(h@), form.password@),
{
    registration_outcome(hash_new_password(form.password.as_str()))
}

} // verus!
