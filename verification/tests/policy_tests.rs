use agin_auth::model::{
    AuthFactors, FirstFactor, PGPFactor, RecoveryCodeFactor, SecondFactor, TOTPFactor, User,
    WebAuthnFactor,
};
use agin_auth::policy::{AuthEvent, auth_state_step, get_login_options, get_second_factors};
use agin_auth::session::{
    AuthSession, AuthState, RouteProtectionLevel, check_route_access, get_auth_state,
    require_auth, require_first_factor,
};

fn policy_user(factors: AuthFactors) -> User {
    User {
        id: String::from("u2"),
        uuid: String::from("00000000-0000-4000-8000-000000000001"),
        first_name: String::from("Bob"),
        last_name: String::from("Jones"),
        display_name: String::from("Bob"),
        preferred_username: String::from("bob"),
        email: String::from("bob@example.com"),
        auth_factors: factors,
        groups: Vec::new(),
    }
}

fn confirmed_totp() -> TOTPFactor {
    TOTPFactor {
        secret: String::from("SECRETSECRETSECR"),
        display_name: String::from("phone"),
        fully_enabled: true,
    }
}

#[test]
fn second_factors_follow_enrollment_in_fixed_order() {
    let mut factors = AuthFactors::empty();
    factors.password.password_hash = Some(String::from("hash"));
    assert!(get_second_factors(&policy_user(factors.clone())).is_empty());

    factors.totp = Some(confirmed_totp());
    assert_eq!(get_second_factors(&policy_user(factors.clone())), vec![SecondFactor::Totp]);

    factors.recovery_codes = vec![RecoveryCodeFactor { code_hash: String::from("h"), used: false }];
    assert_eq!(
        get_second_factors(&policy_user(factors.clone())),
        vec![SecondFactor::Totp, SecondFactor::RecoveryCode]
    );

    factors.webauthn = vec![WebAuthnFactor {
        credential_id: String::from("c"),
        serialized_key: String::from("{}"),
        display_name: String::from("key"),
    }];
    assert_eq!(
        get_second_factors(&policy_user(factors)),
        vec![SecondFactor::WebAuthn, SecondFactor::Totp, SecondFactor::RecoveryCode]
    );
}

#[test]
fn unconfirmed_totp_is_not_a_second_factor() {
    let mut factors = AuthFactors::empty();
    factors.totp = Some(TOTPFactor {
        secret: String::from("SECRETSECRETSECR"),
        display_name: String::from("phone"),
        fully_enabled: false,
    });
    assert!(get_second_factors(&policy_user(factors)).is_empty());
}

#[test]
fn spent_recovery_codes_are_not_a_second_factor() {
    let mut factors = AuthFactors::empty();
    factors.recovery_codes = vec![RecoveryCodeFactor { code_hash: String::from("h"), used: true }];
    assert!(get_second_factors(&policy_user(factors)).is_empty());
}

#[test]
fn login_options_for_unknown_user_are_generic() {
    let r = get_login_options(&None);
    assert_eq!(
        r.options,
        vec![FirstFactor::Password, FirstFactor::WebAuthn, FirstFactor::Pgp]
    );
    assert_eq!(r.recent_factor, None);
}

#[test]
fn login_options_reflect_enabled_first_factors() {
    let mut factors = AuthFactors::empty();
    factors.password.password_hash = Some(String::from("hash"));
    let r = get_login_options(&Some(policy_user(factors.clone())));
    assert_eq!(r.options, vec![FirstFactor::Password]);

    factors.pgp = Some(PGPFactor {
        public_key: String::from("KEY"),
        fingerprint: String::from("FP"),
        display_name: String::from("mykey"),
    });
    let r = get_login_options(&Some(policy_user(factors)));
    assert_eq!(r.options, vec![FirstFactor::Password, FirstFactor::Pgp]);
}

#[test]
fn state_machine_transitions() {
    // First factor success with no second factor enrolled authenticates.
    assert_eq!(
        auth_state_step(
            AuthState::Anonymous,
            AuthEvent::FirstFactorSuccess { second_factor_count: 0 }
        ),
        AuthState::Authenticated
    );
    // With a second factor enrolled the session waits between the factors.
    assert_eq!(
        auth_state_step(
            AuthState::Anonymous,
            AuthEvent::FirstFactorSuccess { second_factor_count: 1 }
        ),
        AuthState::BeforeTwoFactor
    );
    // A second factor success completes the login.
    assert_eq!(
        auth_state_step(AuthState::BeforeTwoFactor, AuthEvent::SecondFactorSuccess),
        AuthState::Authenticated
    );
    // Failures never move the state.
    assert_eq!(
        auth_state_step(AuthState::Anonymous, AuthEvent::VerificationFailure),
        AuthState::Anonymous
    );
    assert_eq!(
        auth_state_step(AuthState::BeforeTwoFactor, AuthEvent::VerificationFailure),
        AuthState::BeforeTwoFactor
    );
    // Events that are not callable in a state leave it unchanged.
    assert_eq!(
        auth_state_step(AuthState::Anonymous, AuthEvent::SecondFactorSuccess),
        AuthState::Anonymous
    );
    assert_eq!(
        auth_state_step(
            AuthState::Authenticated,
            AuthEvent::FirstFactorSuccess { second_factor_count: 0 }
        ),
        AuthState::Authenticated
    );
}

#[test]
fn route_gating_by_state() {
    let mut session = AuthSession::new();
    assert!(check_route_access(&session, RouteProtectionLevel::Public));
    assert!(!check_route_access(&session, RouteProtectionLevel::BeforeTwoFactor));
    assert!(!check_route_access(&session, RouteProtectionLevel::Authenticated));

    session.auth_state = Some(AuthState::BeforeTwoFactor);
    assert!(check_route_access(&session, RouteProtectionLevel::BeforeTwoFactor));
    assert!(!check_route_access(&session, RouteProtectionLevel::Authenticated));

    session.auth_state = Some(AuthState::Authenticated);
    assert!(!check_route_access(&session, RouteProtectionLevel::BeforeTwoFactor));
    assert!(check_route_access(&session, RouteProtectionLevel::Authenticated));
    assert!(check_route_access(&session, RouteProtectionLevel::Admin));
}

#[test]
fn auth_gates_need_both_identity_and_state() {
    let mut session = AuthSession::new();
    assert!(get_auth_state(&session).is_err());
    assert!(require_auth(&session).is_err());
    assert!(require_first_factor(&session).is_err());

    // An identity alone is not enough.
    session.user_id = Some(String::from("u1"));
    assert!(get_auth_state(&session).is_err());

    session.auth_state = Some(AuthState::Anonymous);
    assert!(require_auth(&session).is_err());
    assert!(require_first_factor(&session).is_err());

    session.auth_state = Some(AuthState::BeforeTwoFactor);
    assert!(require_auth(&session).is_err());
    assert_eq!(require_first_factor(&session), Ok(String::from("u1")));

    session.auth_state = Some(AuthState::Authenticated);
    assert_eq!(require_auth(&session), Ok(String::from("u1")));
    assert_eq!(require_first_factor(&session), Ok(String::from("u1")));
}
