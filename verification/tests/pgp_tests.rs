use agin_auth::factor::FactorError;
use agin_auth::model::{AuthFactors, User};
use agin_auth::pgp::{
    EnablePgpBody, enable_pgp, get_pgp_challenge, respond_to_pgp_challenge,
    verify_pgp_signature,
};
use agin_auth::session::{AuthSession, AuthState};

use pgp::composed::{
    ArmorOptions, DetachedSignature, KeyType, SecretKeyParamsBuilder, SignedPublicKey,
    SignedSecretKey,
};
use pgp::crypto::hash::HashAlgorithm;
use pgp::types::Password;
use rand_chacha::ChaCha20Rng;
use rand_chacha::rand_core::SeedableRng;

fn pgp_user() -> User {
    User {
        id: String::from("u5"),
        uuid: String::from("00000000-0000-4000-8000-000000000004"),
        first_name: String::from("Eve"),
        last_name: String::from("Lane"),
        display_name: String::from("Eve"),
        preferred_username: String::from("eve"),
        email: String::from("eve@example.com"),
        auth_factors: AuthFactors::empty(),
        groups: Vec::new(),
    }
}

/// Generate a signing key pair and return the secret key with the armored
/// form of its public half.
fn generate_key(seed: u64) -> (SignedSecretKey, String) {
    let mut rng = ChaCha20Rng::seed_from_u64(seed);
    let params = SecretKeyParamsBuilder::default()
        .key_type(KeyType::Ed25519Legacy)
        .can_certify(true)
        .can_sign(true)
        .primary_user_id(String::from("Eve <eve@example.com>"))
        .build()
        .expect("key params");
    let secret = params.generate(&mut rng).expect("key generation");
    let public: SignedPublicKey = secret.clone().into();
    let armored = public.to_armored_string(ArmorOptions::default()).expect("armor");
    (secret, armored)
}

/// Sign a message with the key, returning the armored detached signature.
fn sign_message(secret: &SignedSecretKey, message: &str, seed: u64) -> String {
    let mut rng = ChaCha20Rng::seed_from_u64(seed);
    let sig = DetachedSignature::sign_binary_data(
        &mut rng,
        &secret.primary_key,
        &Password::empty(),
        HashAlgorithm::Sha256,
        message.as_bytes(),
    )
    .expect("signing");
    sig.to_armored_string(ArmorOptions::default()).expect("armor signature")
}

#[test]
fn challenge_issue_stores_a_time_boxed_challenge() {
    let mut session = AuthSession::new();
    let now: u64 = 1_700_000_000;
    let resp = get_pgp_challenge(&mut session, now);
    assert_eq!(resp.challenge.len(), 64);
    assert!(resp.challenge.chars().all(|c| c.is_ascii_alphanumeric()));
    let stored = session.pgp_challenge.expect("challenge stored");
    assert_eq!(stored.challenge, resp.challenge);
    assert_eq!(stored.expires_at, now + 300);
}

#[test]
fn signature_verification_is_exact() {
    let (secret, armored_pub) = generate_key(11);
    let sig = sign_message(&secret, "hello challenge", 12);
    assert!(verify_pgp_signature(&armored_pub, "hello challenge", &sig));
    // A signature over different content does not verify.
    assert!(!verify_pgp_signature(&armored_pub, "another message", &sig));
    // Garbage inputs verify as false, never panic.
    assert!(!verify_pgp_signature("not a key", "hello challenge", &sig));
    assert!(!verify_pgp_signature(&armored_pub, "hello challenge", "not a signature"));
}

#[test]
fn enable_pgp_stores_canonical_key_and_fingerprint() {
    let (_, armored_pub) = generate_key(21);
    let mut user = pgp_user();
    let resp = enable_pgp(
        &mut user,
        &EnablePgpBody {
            display_name: String::from("mykey"),
            public_key: armored_pub,
        },
    )
    .expect("enable succeeds");
    assert!(resp.success);
    let stored = user.auth_factors.pgp.expect("key stored");
    assert!(!stored.fingerprint.is_empty());
    assert_eq!(stored.display_name, "mykey");
    assert!(stored.public_key.contains("BEGIN PGP PUBLIC KEY BLOCK"));
}

#[test]
fn enable_pgp_rejects_malformed_input() {
    let mut user = pgp_user();
    assert_eq!(
        enable_pgp(
            &mut user,
            &EnablePgpBody {
                display_name: String::from("mykey"),
                public_key: String::from("not a key"),
            },
        ),
        Err(FactorError::BadRequest)
    );
    assert_eq!(
        enable_pgp(
            &mut user,
            &EnablePgpBody {
                display_name: String::from(""),
                public_key: String::from("x"),
            },
        ),
        Err(FactorError::BadRequest)
    );
    assert!(user.auth_factors.pgp.is_none());
}

#[test]
fn pgp_challenge_login_round_trip() {
    let (secret, armored_pub) = generate_key(31);
    let mut user = pgp_user();
    enable_pgp(
        &mut user,
        &EnablePgpBody {
            display_name: String::from("mykey"),
            public_key: armored_pub,
        },
    )
    .expect("enable succeeds");

    let mut session = AuthSession::new();
    let now: u64 = 1_700_000_000;
    let challenge = get_pgp_challenge(&mut session, now).challenge;
    // Sign the canonical stored form's challenge.
    let signature = sign_message(&secret, &challenge, 32);

    let mut lookup = Some(user);
    let resp = respond_to_pgp_challenge(&mut session, &mut lookup, &signature, now + 60)
        .expect("valid signature within the window");
    assert!(!resp.two_factor_required);
    assert_eq!(session.auth_state, Some(AuthState::Authenticated));
    assert!(session.user_id.is_some());
    // The challenge is gone: single use.
    assert!(session.pgp_challenge.is_none());
    let updated = lookup.expect("user present");
    assert_eq!(
        updated.auth_factors.recent.first_factor,
        Some(agin_auth::model::FirstFactor::Pgp)
    );
}

#[test]
fn expired_challenge_fails_even_with_a_correct_signature() {
    let (secret, armored_pub) = generate_key(41);
    let mut user = pgp_user();
    enable_pgp(
        &mut user,
        &EnablePgpBody {
            display_name: String::from("mykey"),
            public_key: armored_pub,
        },
    )
    .expect("enable succeeds");

    let mut session = AuthSession::new();
    let now: u64 = 1_700_000_000;
    let challenge = get_pgp_challenge(&mut session, now).challenge;
    let signature = sign_message(&secret, &challenge, 42);

    // Five minutes and one second later: refused despite the valid
    // signature.
    let mut lookup = Some(user);
    assert_eq!(
        respond_to_pgp_challenge(&mut session, &mut lookup, &signature, now + 301),
        Err(FactorError::Unauthorized)
    );
    assert_eq!(session.auth_state, None);
}

#[test]
fn challenge_is_consumed_even_on_a_failed_response() {
    let mut session = AuthSession::new();
    let now: u64 = 1_700_000_000;
    get_pgp_challenge(&mut session, now);

    let mut lookup = Some(pgp_user());
    // No key on file: unauthorized — and the challenge is spent anyway.
    assert_eq!(
        respond_to_pgp_challenge(&mut session, &mut lookup, "sig", now),
        Err(FactorError::Unauthorized)
    );
    assert!(session.pgp_challenge.is_none());
    // Answering again finds no challenge at all.
    assert_eq!(
        respond_to_pgp_challenge(&mut session, &mut lookup, "sig", now),
        Err(FactorError::BadRequest)
    );
}
