//! The password verifier: a `Simple`, `Knowledge`-level, `Primary` factor.
//!
//! The login path is built so that every call performs exactly one Argon2
//! computation, whether or not the user exists or has a password set: the
//! lookup result is first turned into a `HashWork` plan holding exactly one
//! hash job, and the plan is then executed. This equalizes response latency
//! and prevents user enumeration through timing.

use vstd::prelude::*;

use crate::crypto::{argon2_verify_of, hash_password, verify_password};
use crate::factor::FactorError;
use crate::model::{AnyFactor, FirstFactor, User, set_recent_factor};
use crate::policy::{SuccessfulLoginResponse, get_second_factors, second_factors_of};
use crate::session::{AuthSession, AuthState};

verus! {

/// The one Argon2 computation a password login performs: verify against the
/// stored hash when there is one, or hash a dummy input when there is none.
#[derive(Debug, Clone, PartialEq, Eq)]
pub enum HashWork {
    /// Verify the submitted password against this stored hash.
    VerifyStored { hash: String },
    /// Hash the submitted password against a fresh salt and discard the
    /// result; the login will fail, but only after the same work.
    HashDummy,
}

/// How many Argon2 computations a plan performs: one for each variant.
pub open spec fn hash_work_cost(p: HashWork) -> nat {
    match p {
        HashWork::VerifyStored { .. } => 1,
        HashWork::HashDummy => 1,
    }
}

/// The plan a lookup result maps to: verify against the stored hash exactly
/// when the user exists and has a password set.
pub open spec fn plan_of(user: Option<User>) -> HashWork {
    match user {
        Some(u) => match u.auth_factors.password.password_hash {
            Some(h) => HashWork::VerifyStored { hash: h },
            None => HashWork::HashDummy,
        },
        None => HashWork::HashDummy,
    }
}

/// Turn the user lookup result into the single hash job to perform.
pub fn plan_password_check(user: &Option<User>) -> (p: HashWork)
    ensures
        p == plan_of(*user),
{
    match user {
        Some(u) => match &u.auth_factors.password.password_hash {
            Some(h) => HashWork::VerifyStored { hash: h.clone() },
            None => HashWork::HashDummy,
        },
        None => HashWork::HashDummy,
    }
}

/// Law: whatever the lookup produced — a user with a password, a user
/// without one, or no user at all — the password check plan performs
/// exactly one Argon2 computation.
pub proof fn lemma_login_single_hash(user: Option<User>)
    ensures
        hash_work_cost(plan_of(user)) == 1,
{
}

/// Execute the plan's single Argon2 computation. A dummy job never
/// accepts; a verify job accepts exactly when the password matches the
/// stored hash.
pub fn execute_password_check(plan: &HashWork, password: &str) -> (r: Result<bool, FactorError>)
    ensures
        plan matches HashWork::VerifyStored { hash } ==> r matches Ok(b) && b == argon2_verify_of(
            password@,
            hash@,
        ),
        plan is HashDummy ==> !(r matches Ok(b) && b),
        plan is HashDummy && r is Err ==> r == Err::<bool, FactorError>(FactorError::Other),
{
    match plan {
        HashWork::VerifyStored { hash } => Ok(verify_password(password, hash.as_str())),
        HashWork::HashDummy => {
            match hash_password(password) {
                Ok(_) => Ok(false),
                Err(_) => Err(FactorError::Other),
            }
        },
    }
}

/// The password login accepts exactly when the user exists, has a password
/// set, and the submitted password verifies against the stored hash.
pub open spec fn password_accepts(user: Option<User>, password: Seq<char>) -> bool {
    &&& user matches Some(u)
    &&& u.auth_factors.password.password_hash matches Some(h)
    &&& argon2_verify_of(password, h@)
}

/// Log in with a password.
///
/// `user` is the lookup result for the submitted username; app code passes
/// it in and persists the record afterwards. On success the session gains
/// the user's identity and moves to `Authenticated` when no second factor
/// is enrolled, else to `BeforeTwoFactor`. On failure nothing changes, and
/// the error does not reveal which precondition failed: a missing user, a
/// missing password and a wrong password all answer `Unauthorized`.
pub fn login_with_password(
    session: &mut AuthSession,
    user: &mut Option<User>,
    password: &str,
) -> (r: Result<SuccessfulLoginResponse, FactorError>)
    ensures
        r is Ok <==> password_accepts(*old(user), password@),
        r matches Err(e) ==> e == FactorError::Unauthorized || e == FactorError::Other,
        (*old(user)) matches Some(u) && u.auth_factors.password.password_hash is Some
            && !password_accepts(*old(user), password@) ==> r == Err::<
            SuccessfulLoginResponse,
            FactorError,
        >(FactorError::Unauthorized),
        r == Err::<SuccessfulLoginResponse, FactorError>(FactorError::Other) ==> plan_of(
            *old(user),
        ) is HashDummy,
        r is Err ==> *final(session) == *old(session) && *final(user) == *old(user),
        r matches Ok(resp) ==> (*old(user)) matches Some(u) && ({
            let n = second_factors_of(u.auth_factors).len();
            &&& final(session).user_id matches Some(id) && id@ == u.id@
            &&& final(session).auth_state == Some(
                if n == 0 {
                    AuthState::Authenticated
                } else {
                    AuthState::BeforeTwoFactor
                },
            )
            &&& resp.two_factor_required == (n > 0)
            &&& (n > 0 ==> (resp.second_factors matches Some(v) && v@ == second_factors_of(
                u.auth_factors,
            )))
            &&& (n == 0 ==> resp.second_factors is None && resp.recent_factor is None)
            &&& (n > 0 ==> resp.recent_factor == u.auth_factors.recent.second_factor)
            &&& (*final(user)) matches Some(w) && w.auth_factors.recent.first_factor == Some(
                FirstFactor::Password,
            ) && w.auth_factors.password == u.auth_factors.password
                && w.auth_factors.totp == u.auth_factors.totp && w.auth_factors.webauthn
                == u.auth_factors.webauthn && w.auth_factors.recovery_codes
                == u.auth_factors.recovery_codes && w.auth_factors.pgp == u.auth_factors.pgp
        }),
        final(session).webauthn_reg_state == old(session).webauthn_reg_state,
        final(session).webauthn_display_name == old(session).webauthn_display_name,
        final(session).webauthn_login_state == old(session).webauthn_login_state,
        final(session).pgp_challenge == old(session).pgp_challenge,
{
    let plan = plan_password_check(user);
    let accepted = match execute_password_check(&plan, password) {
        Ok(b) => b,
        Err(e) => {
            return Err(e);
        },
    };
    if !accepted {
        return Err(FactorError::Unauthorized);
    }

    let u = match user {
        Some(u) => u,
        None => {
            return Err(FactorError::Unauthorized);
        },
    };

    session.user_id = Some(u.id.clone());
    set_recent_factor(&mut u.auth_factors, AnyFactor::from_first(FirstFactor::Password));

    let second_factors = get_second_factors(u);

    if second_factors.len() == 0 {
        session.auth_state = Some(AuthState::Authenticated);
        return Ok(
            SuccessfulLoginResponse {
                two_factor_required: false,
                second_factors: None,
                recent_factor: None,
            },
        );
    }

    session.auth_state = Some(AuthState::BeforeTwoFactor);
    let recent = u.auth_factors.recent.second_factor;
    Ok(
        SuccessfulLoginResponse {
            two_factor_required: true,
            second_factors: Some(second_factors),
            recent_factor: recent,
        },
    )
}

} // verus!
