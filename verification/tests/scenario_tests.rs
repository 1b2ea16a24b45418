//! The full enrollment-and-login walk: register, enable and confirm TOTP,
//! generate recovery codes, then log in with the password and complete the
//! second factor with a current TOTP code.

use agin_auth::model::SecondFactor;
use agin_auth::password::login_with_password;
use agin_auth::recovery::enable_recovery_codes;
use agin_auth::register::{RegisterBody, register_user};
use agin_auth::session::{AuthSession, AuthState};
use agin_auth::totp::{confirm_enabling_totp, enable_totp, login_with_totp};

fn current_code(secret_b32: &str, time: u64) -> String {
    let bytes =
        base32::decode(base32::Alphabet::Rfc4648 { padding: false }, secret_b32).expect("base32");
    let totp = totp_rs::Builder::new().with_secret(bytes).build().expect("totp instance");
    totp.generate(time).to_string()
}

#[test]
fn full_two_factor_walkthrough() {
    let now: u64 = 1_700_000_000;

    // Register user "alice" with password "p@ss1234".
    let mut user = register_user(
        &RegisterBody {
            first_name: String::from("Alice"),
            last_name: String::from("Smith"),
            display_name: String::from("Alice"),
            preferred_username: String::from("alice"),
            email: String::from("alice@example.com"),
            password: String::from("p@ss1234"),
        },
        false,
    )
    .expect("registration succeeds");
    user.id = String::from("alice-id");

    // Enable TOTP and receive the secret.
    let enabled = enable_totp(&mut user, "phone", "Example Auth").expect("enable succeeds");
    let secret = enabled.secret.clone();

    // Confirm with the current code: the factor becomes fully enabled.
    let code = current_code(&secret, now);
    confirm_enabling_totp(&mut user, &code, now).expect("confirm succeeds");
    assert!(user.auth_factors.totp.clone().unwrap().fully_enabled);

    // Generate recovery codes as a fallback second factor.
    enable_recovery_codes(&mut user, 10, 12).expect("codes generated");

    // Log in with the correct password: the session waits for the second
    // factor and offers TOTP and recovery codes.
    let mut session = AuthSession::new();
    let mut lookup = Some(user);
    let resp =
        login_with_password(&mut session, &mut lookup, "p@ss1234").expect("password accepted");
    assert!(resp.two_factor_required);
    assert_eq!(
        resp.second_factors,
        Some(vec![SecondFactor::Totp, SecondFactor::RecoveryCode])
    );
    assert_eq!(session.auth_state, Some(AuthState::BeforeTwoFactor));
    assert_eq!(session.user_id, Some(String::from("alice-id")));

    // Submit the current TOTP code: the session is fully authenticated.
    let code = current_code(&secret, now);
    let resp = login_with_totp(&mut session, &mut lookup, &code, now).expect("code accepted");
    assert!(!resp.two_factor_required);
    assert_eq!(session.auth_state, Some(AuthState::Authenticated));
}
