//! Factor policy and the authentication state machine.
//!
//! The policy derives, from the user's `AuthFactors` aggregate alone, which
//! first factors may open a login and which second factors may complete
//! one. The state machine takes a session from `Anonymous` through
//! `BeforeTwoFactor` to `Authenticated`; a first factor alone suffices
//! exactly when the user has no second factor enrolled.

use vstd::prelude::*;

use crate::model::{
    AuthFactors, FirstFactor, SecondFactor, User, password_enabled, pgp_enabled,
    recovery_codes_enabled, totp_enabled, unused_code_count, webauthn_enabled,
};
use crate::session::AuthState;

verus! {

/// The second factors usable by a user, in the fixed presentation order:
/// WebAuthn, then TOTP, then recovery codes. Each appears exactly when its
/// proof-of-possession step has completed.
pub open spec fn second_factors_of(f: AuthFactors) -> Seq<SecondFactor> {
    (if webauthn_enabled(f) {
        seq![SecondFactor::WebAuthn]
    } else {
        Seq::empty()
    }) + (if totp_enabled(f) {
        seq![SecondFactor::Totp]
    } else {
        Seq::empty()
    }) + (if recovery_codes_enabled(f) {
        seq![SecondFactor::RecoveryCode]
    } else {
        Seq::empty()
    })
}

/// The first factors usable by a user, in the fixed presentation order:
/// password, then WebAuthn, then PGP.
pub open spec fn first_factors_of(f: AuthFactors) -> Seq<FirstFactor> {
    (if password_enabled(f) {
        seq![FirstFactor::Password]
    } else {
        Seq::empty()
    }) + (if webauthn_enabled(f) {
        seq![FirstFactor::WebAuthn]
    } else {
        Seq::empty()
    }) + (if pgp_enabled(f) {
        seq![FirstFactor::Pgp]
    } else {
        Seq::empty()
    })
}

/// Compute the second factors usable by `user`.
pub fn get_second_factors(user: &User) -> (r: Vec<SecondFactor>)
    ensures
        r@ == second_factors_of(user.auth_factors),
{
    let mut second_factors: Vec<SecondFactor> = Vec::new();

    if user.auth_factors.webauthn.len() > 0 {
        second_factors.push(SecondFactor::WebAuthn);
    }

    let totp_on = match &user.auth_factors.totp {
        Some(t) => t.fully_enabled,
        None => false,
    };
    if totp_on {
        second_factors.push(SecondFactor::Totp);
    }

    if crate::model::has_unused_code(&user.auth_factors.recovery_codes) {
        second_factors.push(SecondFactor::RecoveryCode);
    }

    proof {
        assert(second_factors@ =~= second_factors_of(user.auth_factors));
    }
    second_factors
}

/// What the login-option discovery answers for an unknown username: the
/// full generic list, so that the answer does not reveal whether the user
/// exists.
pub open spec fn generic_first_factors() -> Seq<FirstFactor> {
    seq![FirstFactor::Password, FirstFactor::WebAuthn, FirstFactor::Pgp]
}

/// The login options response: which first factors are available, and the
/// recently used one as a hint.
#[derive(Debug, Clone, PartialEq, Eq)]
pub struct LoginOptionsResponse {
    pub options: Vec<FirstFactor>,
    pub recent_factor: Option<FirstFactor>,
}

/// Compute the login options for a username lookup result. For an unknown
/// user the generic full list is returned and no recent factor, so the
/// response is identical for every unknown name.
pub fn get_login_options(user: &Option<User>) -> (r: LoginOptionsResponse)
    ensures
        user matches Some(u) ==> r.options@ == first_factors_of(u.auth_factors)
            && r.recent_factor == u.auth_factors.recent.first_factor,
        user is None ==> r.options@ == generic_first_factors() && r.recent_factor is None,
{
    match user {
        None => {
            let mut options: Vec<FirstFactor> = Vec::new();
            options.push(FirstFactor::Password);
            options.push(FirstFactor::WebAuthn);
            options.push(FirstFactor::Pgp);
            proof {
                assert(options@ =~= generic_first_factors());
            }
            LoginOptionsResponse { options, recent_factor: None }
        },
        Some(u) => {
            let mut options: Vec<FirstFactor> = Vec::new();
            if u.auth_factors.password.password_hash.is_some() {
                options.push(FirstFactor::Password);
            }
            if u.auth_factors.webauthn.len() > 0 {
                options.push(FirstFactor::WebAuthn);
            }
            if u.auth_factors.pgp.is_some() {
                options.push(FirstFactor::Pgp);
            }
            proof {
                assert(options@ =~= first_factors_of(u.auth_factors));
            }
            LoginOptionsResponse {
                options,
                recent_factor: u.auth_factors.recent.first_factor,
            }
        },
    }
}

/// The response of every successful verifier call: whether a second factor
/// is still owed, which ones are eligible, and the recently used one as a
/// hint.
#[derive(Debug, Clone, PartialEq, Eq)]
pub struct SuccessfulLoginResponse {
    /// True when the session now waits in `BeforeTwoFactor`.
    pub two_factor_required: bool,
    /// The eligible second factors, present exactly when one is required.
    pub second_factors: Option<Vec<SecondFactor>>,
    /// The second factor last used by this user, as a hint.
    pub recent_factor: Option<SecondFactor>,
}

// ---------------------------------------------------------------------------
// The state machine
// ---------------------------------------------------------------------------

/// An event the state machine reacts to.
#[derive(Debug, Clone, Copy, PartialEq, Eq, Structural)]
pub enum AuthEvent {
    /// A first-factor verifier succeeded for a user with this many second
    /// factors enrolled.
    FirstFactorSuccess { second_factor_count: usize },
    /// A second-factor verifier succeeded.
    SecondFactorSuccess,
    /// A verification failed.
    VerificationFailure,
}

/// The transition relation of the login state machine:
/// - `Anonymous`, first factor success, zero second factors: `Authenticated`;
/// - `Anonymous`, first factor success, some second factor: `BeforeTwoFactor`;
/// - `BeforeTwoFactor`, second factor success: `Authenticated`;
/// - any failure, and any event in a state where it is not callable, leaves
///   the state unchanged.
pub open spec fn next_auth_state(state: AuthState, event: AuthEvent) -> AuthState {
    match (state, event) {
        (AuthState::Anonymous, AuthEvent::FirstFactorSuccess { second_factor_count }) => {
            if second_factor_count == 0 {
                AuthState::Authenticated
            } else {
                AuthState::BeforeTwoFactor
            }
        },
        (AuthState::BeforeTwoFactor, AuthEvent::SecondFactorSuccess) => AuthState::Authenticated,
        (s, _) => s,
    }
}

/// Advance the state machine by one event.
pub fn auth_state_step(state: AuthState, event: AuthEvent) -> (r: AuthState)
    ensures
        r == next_auth_state(state, event),
{
    match (state, event) {
        (AuthState::Anonymous, AuthEvent::FirstFactorSuccess { second_factor_count }) => {
            if second_factor_count == 0 {
                AuthState::Authenticated
            } else {
                AuthState::BeforeTwoFactor
            }
        },
        (AuthState::BeforeTwoFactor, AuthEvent::SecondFactorSuccess) => AuthState::Authenticated,
        (s, _) => s,
    }
}

/// Law: a successful first factor authenticates the session directly when
/// the user has no second factor enrolled, and holds it at
/// `BeforeTwoFactor` when one is enrolled; from there a successful second
/// factor, and only a success, reaches `Authenticated`.
pub proof fn lemma_login_progression(f: AuthFactors, n: usize)
    requires
        n == second_factors_of(f).len(),
    ensures
        second_factors_of(f).len() == 0 ==> next_auth_state(
            AuthState::Anonymous,
            AuthEvent::FirstFactorSuccess { second_factor_count: n },
        ) == AuthState::Authenticated,
        second_factors_of(f).len() > 0 ==> next_auth_state(
            AuthState::Anonymous,
            AuthEvent::FirstFactorSuccess { second_factor_count: n },
        ) == AuthState::BeforeTwoFactor,
        next_auth_state(AuthState::BeforeTwoFactor, AuthEvent::SecondFactorSuccess)
            == AuthState::Authenticated,
        forall|s: AuthState|
            #[trigger] next_auth_state(s, AuthEvent::VerificationFailure) == s,
{
}

/// Law: no single event takes an anonymous session straight past
/// `BeforeTwoFactor` when a second factor is enrolled: reaching
/// `Authenticated` from `Anonymous` in one step happens only on a
/// first-factor success with zero second factors enrolled.
pub proof fn lemma_no_shortcut(event: AuthEvent)
    requires
        next_auth_state(AuthState::Anonymous, event) == AuthState::Authenticated,
    ensures
        event matches AuthEvent::FirstFactorSuccess { second_factor_count } && second_factor_count
            == 0,
{
}

} // verus!
