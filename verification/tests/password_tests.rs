use agin_auth::factor::FactorError;
use agin_auth::model::{FirstFactor, SecondFactor, TOTPFactor};
use agin_auth::password::{HashWork, login_with_password, plan_password_check};
use agin_auth::register::{RegisterBody, register_user};
use agin_auth::session::{AuthSession, AuthState};

fn alice_form() -> RegisterBody {
    RegisterBody {
        first_name: String::from("Alice"),
        last_name: String::from("Smith"),
        display_name: String::from("Alice"),
        preferred_username: String::from("alice"),
        email: String::from("alice@example.com"),
        password: String::from("p@ss1234"),
    }
}

#[test]
fn register_builds_a_password_only_user() {
    let user = register_user(&alice_form(), false).expect("registration succeeds");
    assert_eq!(user.id, "");
    assert_eq!(user.uuid.len(), 36);
    assert_eq!(user.preferred_username, "alice");
    assert!(user.auth_factors.password.password_hash.is_some());
    assert!(user.auth_factors.totp.is_none());
    assert!(user.auth_factors.webauthn.is_empty());
    assert!(user.auth_factors.recovery_codes.is_empty());
    assert!(user.auth_factors.pgp.is_none());
    // The stored value is a hash, not the password itself.
    assert_ne!(user.auth_factors.password.password_hash.unwrap(), "p@ss1234");
}

#[test]
fn register_rejects_taken_identity_and_bad_forms() {
    assert_eq!(register_user(&alice_form(), true), Err(FactorError::BadRequest));

    let mut body = alice_form();
    body.preferred_username = String::from("Alice");
    assert_eq!(register_user(&body, false), Err(FactorError::BadRequest));

    let mut body = alice_form();
    body.first_name = String::from("");
    assert_eq!(register_user(&body, false), Err(FactorError::BadRequest));

    let mut body = alice_form();
    body.password = String::from("");
    assert_eq!(register_user(&body, false), Err(FactorError::BadRequest));
}

#[test]
fn password_login_succeeds_with_correct_password() {
    let user = register_user(&alice_form(), false).expect("registration succeeds");
    let mut session = AuthSession::new();
    let mut lookup = Some(user);

    let resp = login_with_password(&mut session, &mut lookup, "p@ss1234")
        .expect("correct password accepted");
    assert!(!resp.two_factor_required);
    assert_eq!(resp.second_factors, None);
    assert_eq!(resp.recent_factor, None);
    assert_eq!(session.auth_state, Some(AuthState::Authenticated));
    assert!(session.user_id.is_some());
    let updated = lookup.expect("user still present");
    assert_eq!(updated.auth_factors.recent.first_factor, Some(FirstFactor::Password));
}

#[test]
fn password_login_with_second_factor_waits() {
    let mut user = register_user(&alice_form(), false).expect("registration succeeds");
    user.auth_factors.totp = Some(TOTPFactor {
        secret: String::from("SECRETSECRETSECR"),
        display_name: String::from("phone"),
        fully_enabled: true,
    });
    let mut session = AuthSession::new();
    let mut lookup = Some(user);

    let resp = login_with_password(&mut session, &mut lookup, "p@ss1234")
        .expect("correct password accepted");
    assert!(resp.two_factor_required);
    assert_eq!(resp.second_factors, Some(vec![SecondFactor::Totp]));
    assert_eq!(session.auth_state, Some(AuthState::BeforeTwoFactor));
}

#[test]
fn password_login_fails_identically_on_every_precondition() {
    // Wrong password for an existing user.
    let user = register_user(&alice_form(), false).expect("registration succeeds");
    let mut session = AuthSession::new();
    let mut lookup = Some(user.clone());
    assert_eq!(
        login_with_password(&mut session, &mut lookup, "wrong-password"),
        Err(FactorError::Unauthorized)
    );
    assert_eq!(session.auth_state, None);
    assert_eq!(session.user_id, None);

    // No such user: the same error, after the same single hash computation.
    let mut lookup_none: Option<agin_auth::model::User> = None;
    assert_eq!(
        login_with_password(&mut session, &mut lookup_none, "p@ss1234"),
        Err(FactorError::Unauthorized)
    );

    // A user with no password set: the same error again.
    let mut no_password = user;
    no_password.auth_factors.password.password_hash = None;
    let mut lookup_no_pass = Some(no_password);
    assert_eq!(
        login_with_password(&mut session, &mut lookup_no_pass, "p@ss1234"),
        Err(FactorError::Unauthorized)
    );
    assert_eq!(session.auth_state, None);
}

#[test]
fn every_lookup_result_plans_exactly_one_hash_computation() {
    // A user with a password plans a verification against the stored hash.
    let user = register_user(&alice_form(), false).expect("registration succeeds");
    let stored = user.auth_factors.password.password_hash.clone().unwrap();
    match plan_password_check(&Some(user.clone())) {
        HashWork::VerifyStored { hash } => assert_eq!(hash, stored),
        HashWork::HashDummy => panic!("expected a stored-hash verification"),
    }

    // A missing user plans a dummy hash: one computation either way.
    assert_eq!(plan_password_check(&None), HashWork::HashDummy);

    // A user without a password plans the dummy hash too.
    let mut no_password = user;
    no_password.auth_factors.password.password_hash = None;
    assert_eq!(plan_password_check(&Some(no_password)), HashWork::HashDummy);
}
