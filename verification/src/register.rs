//! Account registration: validate the submitted profile, hash the initial
//! password, and build the user record for the persistence collaborator to
//! insert.

use vstd::prelude::*;

use crate::crypto::{argon2_verify_of, generate_uuid_string, hash_password};
use crate::factor::FactorError;
use crate::model::{AuthFactors, PasswordFactor, RecentFactors, User};
use crate::text::valid_username;

verus! {

/// The submitted registration form.
#[derive(Debug, Clone, PartialEq, Eq)]
pub struct RegisterBody {
    pub first_name: String,
    pub last_name: String,
    pub display_name: String,
    pub preferred_username: String,
    pub email: String,
    pub password: String,
}

/// Response to a successful registration.
#[derive(Debug, Clone, PartialEq, Eq)]
pub struct RegisterSuccess {
    pub success: bool,
}

/// Response to a successful creation, carrying the identifier the
/// persistence layer assigned.
#[derive(Debug, Clone, PartialEq, Eq)]
pub struct CreateSuccess {
    pub success: bool,
    pub id: String,
}

/// The form constraints registration enforces: names between 1 and 32
/// characters, a well-formed username, an email of at most 128 characters,
/// and a non-empty password.
pub open spec fn register_body_valid(b: RegisterBody) -> bool {
    &&& 1 <= b.first_name@.len() <= 32
    &&& 1 <= b.last_name@.len() <= 32
    &&& 1 <= b.display_name@.len() <= 32
    &&& 1 <= b.preferred_username@.len() <= 32
    &&& valid_username(b.preferred_username@)
    &&& b.email@.len() <= 128
    &&& b.password@.len() >= 1
}

/// Check the form constraints.
pub fn validate_register_body(body: &RegisterBody) -> (r: bool)
    ensures
        r == register_body_valid(*body),
{
    let first_ok = {
        let n = body.first_name.as_str().unicode_len();
        1 <= n && n <= 32
    };
    let last_ok = {
        let n = body.last_name.as_str().unicode_len();
        1 <= n && n <= 32
    };
    let display_ok = {
        let n = body.display_name.as_str().unicode_len();
        1 <= n && n <= 32
    };
    let username_ok = {
        let n = body.preferred_username.as_str().unicode_len();
        1 <= n && n <= 32 && crate::text::is_valid_username(body.preferred_username.as_str())
    };
    let email_ok = body.email.as_str().unicode_len() <= 128;
    let password_ok = body.password.as_str().unicode_len() >= 1;
    first_ok && last_ok && display_ok && username_ok && email_ok && password_ok
}

/// Register a new account.
///
/// `already_exists` is the persistence lookup's answer for the submitted
/// username and email; a taken identity is rejected as a bad request, as is
/// a form that violates the constraints. On success the returned record
/// carries a fresh UUID, the Argon2 hash of the submitted password as its
/// only enabled factor, and an empty identifier for the persistence layer
/// to assign on insert.
pub fn register_user(body: &RegisterBody, already_exists: bool) -> (r: Result<User, FactorError>)
    ensures
        already_exists || !register_body_valid(*body) <==> r == Err::<User, FactorError>(
            FactorError::BadRequest,
        ),
        r matches Err(e) ==> e == FactorError::BadRequest || e == FactorError::Other,
        r matches Ok(u) ==> ({
            &&& !already_exists
            &&& register_body_valid(*body)
            &&& u.id@.len() == 0
            &&& u.uuid@.len() == 36
            &&& u.first_name@ == body.first_name@
            &&& u.last_name@ == body.last_name@
            &&& u.display_name@ == body.display_name@
            &&& u.preferred_username@ == body.preferred_username@
            &&& u.email@ == body.email@
            &&& u.groups@.len() == 0
            &&& u.auth_factors.password.password_hash matches Some(h) && argon2_verify_of(
                body.password@,
                h@,
            )
            &&& u.auth_factors.totp is None
            &&& u.auth_factors.webauthn@.len() == 0
            &&& u.auth_factors.recovery_codes@.len() == 0
            &&& u.auth_factors.pgp is None
            &&& u.auth_factors.recent.first_factor is None
            &&& u.auth_factors.recent.second_factor is None
        }),
{
    if already_exists {
        return Err(FactorError::BadRequest);
    }
    if !validate_register_body(body) {
        return Err(FactorError::BadRequest);
    }

    let hashed_password = match hash_password(body.password.as_str()) {
        Ok(h) => h,
        Err(_) => {
            return Err(FactorError::Other);
        },
    };

    let uuid = generate_uuid_string();

    Ok(
        User {
            id: String::new(),
            uuid,
            first_name: body.first_name.clone(),
            last_name: body.last_name.clone(),
            display_name: body.display_name.clone(),
            preferred_username: body.preferred_username.clone(),
            email: body.email.clone(),
            auth_factors: AuthFactors {
                totp: None,
                webauthn: Vec::new(),
                recovery_codes: Vec::new(),
                pgp: None,
                password: PasswordFactor { password_hash: Some(hashed_password) },
                recent: RecentFactors::empty(),
            },
            groups: Vec::new(),
        },
    )
}

} // verus!
