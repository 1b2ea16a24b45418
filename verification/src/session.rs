//! The server-side session snapshot and the rules deciding which
//! operations a session may call.
//!
//! The session store itself is an external collaborator; this module models
//! the keys the core owns as one record, so that every mutation a factor
//! operation performs on the session is visible in its contract.

use vstd::prelude::*;

verus! {

/// Progress of a login within one browser session.
///
/// `Anonymous` is the initial state; a successful first factor moves the
/// session to `BeforeTwoFactor` when second factors are enrolled, or
/// directly to `Authenticated` when none are; a successful second factor
/// completes the login. Failed verifications leave the state unchanged.
#[derive(Debug, Clone, Copy, PartialEq, Eq, Structural)]
pub enum AuthState {
    Anonymous,
    BeforeTwoFactor,
    Authenticated,
}

impl AuthState {
    /// The name of this state.
    pub fn name(&self) -> (r: &'static str)
        ensures
            self is Anonymous ==> r@ == "Anonymous"@,
            self is BeforeTwoFactor ==> r@ == "BeforeTwoFactor"@,
            self is Authenticated ==> r@ == "Authenticated"@,
    {
        match self {
            AuthState::Anonymous => "Anonymous",
            AuthState::BeforeTwoFactor => "BeforeTwoFactor",
            AuthState::Authenticated => "Authenticated",
        }
    }
}

/// A short-lived PGP challenge stashed in the session: single use and
/// time-boxed.
#[derive(Debug, Clone, PartialEq, Eq)]
pub struct PgpChallengeConfig {
    /// The opaque challenge string the client must sign.
    pub challenge: String,
    /// Unix time, in seconds, after which the challenge is dead.
    pub expires_at: u64,
}

/// The session keys the core owns: the durable identity pair and the
/// short-lived ceremony state of the round-trip factors.
#[derive(Debug, Clone, PartialEq, Eq)]
pub struct AuthSession {
    /// Identifier of the user who passed the first factor, if any.
    pub user_id: Option<String>,
    /// Login progress, if any login has been attempted.
    pub auth_state: Option<AuthState>,
    /// Serialized WebAuthn registration ceremony state, consumed exactly
    /// once by the finish call.
    pub webauthn_reg_state: Option<String>,
    /// Display name chosen for the credential being registered.
    pub webauthn_display_name: Option<String>,
    /// Serialized WebAuthn authentication ceremony state, consumed exactly
    /// once by the finish call.
    pub webauthn_login_state: Option<String>,
    /// Pending PGP challenge, single use.
    pub pgp_challenge: Option<PgpChallengeConfig>,
}

impl AuthSession {
    /// A fresh browser session: anonymous, with no ceremony in flight.
    pub fn new() -> (r: Self)
        ensures
            r.user_id is None,
            r.auth_state is None,
            r.webauthn_reg_state is None,
            r.webauthn_display_name is None,
            r.webauthn_login_state is None,
            r.pgp_challenge is None,
    {
        AuthSession {
            user_id: None,
            auth_state: None,
            webauthn_reg_state: None,
            webauthn_display_name: None,
            webauthn_login_state: None,
            pgp_challenge: None,
        }
    }
}

/// How strongly an endpoint is protected.
#[derive(Debug, Clone, Copy, PartialEq, Eq, Structural)]
pub enum RouteProtectionLevel {
    /// Reachable by anyone.
    Public,
    /// Reachable once the first factor has succeeded: the second-factor
    /// verifiers.
    BeforeTwoFactor,
    /// Reachable only by a fully authenticated session: general account
    /// operations.
    Authenticated,
    /// Reachable only by a fully authenticated administrator.
    Admin,
}

/// The identity pair a protected request needs: who the user is and how far
/// the login has progressed. Absent until the first factor has stored both.
pub open spec fn auth_state_of(s: AuthSession) -> Option<(Seq<char>, AuthState)> {
    match (s.user_id, s.auth_state) {
        (Some(id), Some(st)) => Some((id@, st)),
        _ => None,
    }
}

/// Read the identity pair out of the session, or fail as unauthorized when
/// either half is missing.
pub fn get_auth_state(session: &AuthSession) -> (r: Result<(String, AuthState), ()>)
    ensures
        r matches Ok(p) ==> auth_state_of(*session) == Some((p.0@, p.1)),
        r is Err <==> auth_state_of(*session) is None,
{
    match (&session.user_id, &session.auth_state) {
        (Some(id), Some(st)) => Ok((id.clone(), *st)),
        _ => Err(()),
    }
}

/// Whether a session in `state` may call an endpoint at `level`.
///
/// Only first-factor operations are callable while anonymous, only
/// second-factor operations between the factors, and general account
/// operations require full authentication. Admin endpoints additionally
/// require a group check that is outside this record.
pub open spec fn route_allowed(state: Option<AuthState>, level: RouteProtectionLevel) -> bool {
    match level {
        RouteProtectionLevel::Public => true,
        RouteProtectionLevel::BeforeTwoFactor => state == Some(AuthState::BeforeTwoFactor),
        RouteProtectionLevel::Authenticated => state == Some(AuthState::Authenticated),
        RouteProtectionLevel::Admin => state == Some(AuthState::Authenticated),
    }
}

/// Decide whether a request may proceed, as the middleware does in front
/// of every protected endpoint.
pub fn check_route_access(session: &AuthSession, level: RouteProtectionLevel) -> (r: bool)
    ensures
        r == route_allowed(session.auth_state, level),
{
    match level {
        RouteProtectionLevel::Public => true,
        RouteProtectionLevel::BeforeTwoFactor => match &session.auth_state {
            Some(AuthState::BeforeTwoFactor) => true,
            _ => false,
        },
        RouteProtectionLevel::Authenticated | RouteProtectionLevel::Admin => match &session
            .auth_state {
            Some(AuthState::Authenticated) => true,
            _ => false,
        },
    }
}

/// Admission to fully protected endpoints: the session must carry an
/// identity and be `Authenticated`.
pub fn require_auth(session: &AuthSession) -> (r: Result<String, ()>)
    ensures
        r matches Ok(id) ==> auth_state_of(*session) matches Some(p) && p.0 == id@ && p.1
            == AuthState::Authenticated,
        r is Err <==> !(auth_state_of(*session) matches Some(p) && p.1
            == AuthState::Authenticated),
{
    match get_auth_state(session) {
        Ok((id, st)) => {
            if st == AuthState::Authenticated {
                Ok(id)
            } else {
                Err(())
            }
        },
        Err(()) => Err(()),
    }
}

/// Admission to second-factor endpoints: the session must carry an
/// identity and have completed at least the first factor.
pub fn require_first_factor(session: &AuthSession) -> (r: Result<String, ()>)
    ensures
        r matches Ok(id) ==> auth_state_of(*session) matches Some(p) && p.0 == id@ && p.1
            != AuthState::Anonymous,
        r is Err <==> !(auth_state_of(*session) matches Some(p) && p.1 != AuthState::Anonymous),
{
    match get_auth_state(session) {
        Ok((id, st)) => {
            if st == AuthState::Anonymous {
                Err(())
            } else {
                Ok(id)
            }
        },
        Err(()) => Err(()),
    }
}

} // verus!
