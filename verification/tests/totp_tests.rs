use agin_auth::factor::FactorError;
use agin_auth::model::{AuthFactors, User};
use agin_auth::session::{AuthSession, AuthState};
use agin_auth::totp::{
    confirm_enabling_totp, enable_totp, login_with_totp, verify_totp,
};

fn totp_user() -> User {
    User {
        id: String::from("u3"),
        uuid: String::from("00000000-0000-4000-8000-000000000002"),
        first_name: String::from("Carol"),
        last_name: String::from("King"),
        display_name: String::from("Carol"),
        preferred_username: String::from("carol"),
        email: String::from("carol@example.com"),
        auth_factors: AuthFactors::empty(),
        groups: Vec::new(),
    }
}

/// Compute the current 6-digit code for a base32 secret, as an
/// authenticator app would.
fn code_for(secret_b32: &str, time: u64) -> String {
    let bytes =
        base32::decode(base32::Alphabet::Rfc4648 { padding: false }, secret_b32).expect("base32");
    let totp = totp_rs::Builder::new().with_secret(bytes).build().expect("totp instance");
    totp.generate(time).to_string()
}

// The RFC 6238 appendix vector: the ASCII secret "12345678901234567890",
// at 59 seconds past the epoch, yields the SHA-1 code 94287082; its
// 6-digit form is 287082.
const RFC_SECRET_B32: &str = "GEZDGNBVGY3TQOJQGEZDGNBVGY3TQOJQ";

#[test]
fn verify_totp_accepts_the_reference_vector() {
    assert_eq!(verify_totp(RFC_SECRET_B32, "287082", 59), Ok(()));
    assert_eq!(verify_totp(RFC_SECRET_B32, "000000", 59), Err(FactorError::Unauthorized));
    // A code from a distant time step is refused.
    assert_eq!(
        verify_totp(RFC_SECRET_B32, "287082", 59 + 3600),
        Err(FactorError::Unauthorized)
    );
}

#[test]
fn verify_totp_rejects_unusable_secrets() {
    // Not base32 at all.
    assert_eq!(verify_totp("not base32!", "123456", 59), Err(FactorError::Other));
    // Valid base32, but under 128 bits.
    assert_eq!(verify_totp("GEZDGNBV", "123456", 59), Err(FactorError::Other));
}

#[test]
fn enable_then_confirm_fully_enables() {
    let mut user = totp_user();
    let now: u64 = 1_700_000_000;

    let resp = enable_totp(&mut user, "phone", "Example Auth").expect("enable succeeds");
    assert!(resp.qr.starts_with("otpauth://totp/"));
    let pending = user.auth_factors.totp.clone().expect("secret stored");
    assert!(!pending.fully_enabled);
    assert_eq!(pending.secret, resp.secret);
    assert_eq!(pending.display_name, "phone");
    // The generated secret decodes to the documented 160 bits.
    let bytes = base32::decode(base32::Alphabet::Rfc4648 { padding: false }, &resp.secret)
        .expect("secret is base32");
    assert_eq!(bytes.len(), 20);

    // A wrong code does not confirm.
    assert_eq!(
        confirm_enabling_totp(&mut user, "000000", now),
        Err(FactorError::Unauthorized)
    );
    assert!(!user.auth_factors.totp.clone().unwrap().fully_enabled);

    // The current code confirms.
    let code = code_for(&resp.secret, now);
    let confirmed = confirm_enabling_totp(&mut user, &code, now).expect("confirm succeeds");
    assert!(confirmed.success);
    assert!(user.auth_factors.totp.clone().unwrap().fully_enabled);

    // Confirming again is refused: the factor is already enabled.
    let code2 = code_for(&resp.secret, now);
    assert_eq!(
        confirm_enabling_totp(&mut user, &code2, now),
        Err(FactorError::AlreadyEnabled)
    );
}

#[test]
fn enable_fails_once_fully_enabled_but_replaces_a_pending_secret() {
    let mut user = totp_user();
    let now: u64 = 1_700_000_000;

    let first = enable_totp(&mut user, "phone", "Example Auth").expect("enable succeeds");
    // Still unconfirmed: enabling again rotates the pending secret.
    let second = enable_totp(&mut user, "tablet", "Example Auth").expect("re-enable succeeds");
    assert_ne!(first.secret, second.secret);
    assert_eq!(user.auth_factors.totp.clone().unwrap().display_name, "tablet");

    let code = code_for(&second.secret, now);
    confirm_enabling_totp(&mut user, &code, now).expect("confirm succeeds");
    assert_eq!(
        enable_totp(&mut user, "phone", "Example Auth"),
        Err(FactorError::AlreadyEnabled)
    );
}

#[test]
fn unconfirmed_totp_is_rejected_like_not_enrolled() {
    let mut user = totp_user();
    let now: u64 = 1_700_000_000;

    // No TOTP enrolled at all: Unauthorized.
    let mut session = AuthSession::new();
    let mut lookup = Some(user.clone());
    assert_eq!(
        login_with_totp(&mut session, &mut lookup, "123456", now),
        Err(FactorError::Unauthorized)
    );

    // Secret generated but never confirmed: the same error, even for the
    // correct current code.
    let resp = enable_totp(&mut user, "phone", "Example Auth").expect("enable succeeds");
    let code = code_for(&resp.secret, now);
    let mut lookup = Some(user);
    assert_eq!(
        login_with_totp(&mut session, &mut lookup, &code, now),
        Err(FactorError::Unauthorized)
    );
    assert_eq!(session.auth_state, None);
}

#[test]
fn totp_login_succeeds_only_with_the_current_code() {
    let mut user = totp_user();
    let now: u64 = 1_700_000_000;
    let resp = enable_totp(&mut user, "phone", "Example Auth").expect("enable succeeds");
    let code = code_for(&resp.secret, now);
    confirm_enabling_totp(&mut user, &code, now).expect("confirm succeeds");

    let mut session = AuthSession::new();
    session.auth_state = Some(AuthState::BeforeTwoFactor);

    let mut lookup = Some(user.clone());
    assert_eq!(
        login_with_totp(&mut session, &mut lookup, "999999", now),
        Err(FactorError::Unauthorized)
    );
    assert_eq!(session.auth_state, Some(AuthState::BeforeTwoFactor));

    let fresh = code_for(&resp.secret, now);
    let ok = login_with_totp(&mut session, &mut lookup, &fresh, now).expect("login succeeds");
    assert!(!ok.two_factor_required);
    assert_eq!(session.auth_state, Some(AuthState::Authenticated));
    let updated = lookup.expect("user present");
    assert_eq!(
        updated.auth_factors.recent.second_factor,
        Some(agin_auth::model::SecondFactor::Totp)
    );
}

#[test]
fn enable_totp_needs_a_usable_account_label() {
    // The provisioning URI labels the account with the user's email; a
    // colon is not representable there, so enrollment reports an internal
    // fault and stores nothing.
    let mut user = totp_user();
    user.email = String::from("not:an@email");
    assert_eq!(
        enable_totp(&mut user, "phone", "Example Auth"),
        Err(FactorError::Other)
    );
    assert!(user.auth_factors.totp.is_none());
}
