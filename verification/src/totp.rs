//! The TOTP verifier: a `Simple`, `Possession`-level, `MultiFactorOnly`
//! factor.
//!
//! Enabling generates a 160-bit secret and stores it half-enabled; only a
//! successful confirmation code flips `fully_enabled`, and login consults
//! that flag, never the mere presence of a secret. Codes are checked with
//! SHA-1, 6 digits, a 30-second step and a drift window of one step either
//! side.

use vstd::prelude::*;

use crate::factor::FactorError;
use crate::model::{AnyFactor, SecondFactor, TOTPFactor, User, totp_enabled, set_recent_factor};
use crate::policy::SuccessfulLoginResponse;
use crate::session::{AuthSession, AuthState};

verus! {

/// Whether the TOTP parameters fixed here (SHA-1, 6 digits, 30-second
/// step, drift window of one step) accept `code` for `secret` at `time`.
/// The outcome is a function of the three arguments alone.
pub uninterp spec fn totp_matches(secret: Seq<u8>, code: Seq<char>, time: u64) -> bool;

/// The RFC 4648 base32 encoding, without padding, of `b`.
pub uninterp spec fn base32_of(b: Seq<u8>) -> Seq<char>;

/// The RFC 4648 base32 decoding, without padding, of `s`; `None` when `s`
/// is not valid base32.
pub uninterp spec fn base32_decode_of(s: Seq<char>) -> Option<Seq<u8>>;

/// The otpauth provisioning URI for `secret` under the given account and
/// issuer labels, with the parameters fixed here.
pub uninterp spec fn otpauth_url_of(secret: Seq<u8>, account: Seq<char>, issuer: Seq<char>)
    -> Seq<char>;

/// Generate a fresh 160-bit TOTP secret from a CSPRNG.
///
/// Relies on `totp_rs::Secret::generate`, documented to draw exactly 20
/// random bytes. The value is random; nothing else is assumed of it.
#[verifier::external_body]
pub fn generate_totp_secret() -> (r: Vec<u8>)
    ensures
        r@.len() == 20,
{
    totp_rs::Secret::generate().as_bytes().to_vec()
}

/// Base32-encode bytes without padding.
///
/// Relies on `base32::encode` with the RFC 4648 alphabet, and on decoding
/// being its inverse.
#[verifier::external_body]
pub fn base32_encode(b: &Vec<u8>) -> (r: String)
    ensures
        r@ == base32_of(b@),
        base32_decode_of(r@) == Some(b@),
{
    base32::encode(base32::Alphabet::Rfc4648 { padding: false }, b.as_slice())
}

/// Base32-decode a string without padding.
///
/// Relies on `base32::decode` with the RFC 4648 alphabet: the result is a
/// function of the string alone, `None` exactly on invalid input.
#[verifier::external_body]
pub fn base32_decode(s: &str) -> (r: Option<Vec<u8>>)
    ensures
        r matches Some(v) ==> base32_decode_of(s@) == Some(v@),
        r is None <==> base32_decode_of(s@) is None,
{
    base32::decode(base32::Alphabet::Rfc4648 { padding: false }, s)
}

/// Check a TOTP code against a raw secret at an explicit timestamp.
///
/// Relies on `totp_rs::Builder::build` and `totp_rs::Totp::check` with the
/// defaults SHA-1, 6 digits, 30-second step and skew 1: `build` fails
/// exactly when the secret is shorter than 16 bytes, and `check` is a
/// function of secret, code and time.
#[verifier::external_body]
pub fn totp_check_at(secret: &Vec<u8>, code: &str, time: u64) -> (r: Option<bool>)
    ensures
        r is Some <==> secret@.len() >= 16,
        r matches Some(b) ==> b == totp_matches(secret@, code@, time),
{
    match totp_rs::Builder::new().with_secret(secret.clone()).build() {
        Ok(totp) => Some(totp.check(code, time).is_some()),
        Err(_) => None,
    }
}

/// A label acceptable to the provisioning URI: non-empty and without a
/// colon.
pub open spec fn account_label_ok(s: Seq<char>) -> bool {
    s.len() > 0 && !s.contains(':')
}

/// Build the otpauth provisioning URI for a secret.
///
/// Relies on `totp_rs::Builder::build` and `totp_rs::Totp::to_url`: the URI
/// is a function of secret, account and issuer; building fails exactly when
/// the secret is shorter than 16 bytes or a label contains a colon, and
/// `to_url` additionally refuses an empty account name.
#[verifier::external_body]
pub fn totp_provisioning_url(secret: &Vec<u8>, account: &str, issuer: &str) -> (r: Option<String>)
    ensures
        r is Some ==> secret@.len() >= 16 && account_label_ok(account@) && !issuer@.contains(':'),
        secret@.len() >= 16 && account_label_ok(account@) && !issuer@.contains(':') ==> r is Some,
        r matches Some(u) ==> u@ == otpauth_url_of(secret@, account@, issuer@),
{
    let built = totp_rs::Builder::new()
        .with_secret(secret.clone())
        .with_account_name(account)
        .with_issuer(Some(issuer))
        .build();
    match built {
        Ok(totp) => totp.to_url().ok(),
        Err(_) => None,
    }
}

/// What verifying a code against a stored base32 secret answers:
/// an unusable secret is an internal fault (`Other`), a usable secret
/// accepts or refuses the code (`Unauthorized`).
pub open spec fn totp_verify_result(secret: Seq<char>, code: Seq<char>, time: u64) -> Result<
    (),
    FactorError,
> {
    match base32_decode_of(secret) {
        None => Err(FactorError::Other),
        Some(bytes) => {
            if bytes.len() < 16 {
                Err(FactorError::Other)
            } else if totp_matches(bytes, code, time) {
                Ok(())
            } else {
                Err(FactorError::Unauthorized)
            }
        },
    }
}

/// Verify a 6-digit TOTP code against a base32-encoded secret at time
/// `now` (seconds since the Unix epoch).
pub fn verify_totp(secret: &str, code: &str, now: u64) -> (r: Result<(), FactorError>)
    ensures
        r == totp_verify_result(secret@, code@, now),
{
    let bytes = match base32_decode(secret) {
        Some(b) => b,
        None => {
            return Err(FactorError::Other);
        },
    };
    match totp_check_at(&bytes, code, now) {
        None => Err(FactorError::Other),
        Some(true) => Ok(()),
        Some(false) => Err(FactorError::Unauthorized),
    }
}

/// The response to enabling TOTP: the secret and the provisioning URI,
/// shown exactly once.
#[derive(Debug, Clone, PartialEq, Eq)]
pub struct EnableTotpResponse {
    /// The base32-encoded secret; it is never shown again.
    pub secret: String,
    /// Provisioning URI that adds the factor to an authenticator app.
    pub qr: String,
}

/// Request body for enabling TOTP.
#[derive(Debug, Clone, PartialEq, Eq)]
pub struct EnableTotpBody {
    /// Display name for the factor, for example the authenticator app name.
    pub display_name: String,
}

/// Response to a successful TOTP confirmation.
#[derive(Debug, Clone, PartialEq, Eq)]
pub struct ConfirmTotpResponse {
    pub success: bool,
}

/// Request body carrying a 6-digit TOTP code.
#[derive(Debug, Clone, PartialEq, Eq)]
pub struct TotpCodeBody {
    pub code: String,
}

/// Enable TOTP for a user: generate a fresh 160-bit secret, store it
/// half-enabled, and return the secret with its provisioning URI.
///
/// Fails with `AlreadyEnabled` when a fully enabled TOTP exists — rotation
/// requires disable-then-enable. A pending unconfirmed secret is replaced.
/// The provisioning URI labels the account with the user's email under the
/// given issuer.
pub fn enable_totp(user: &mut User, display_name: &str, issuer: &str) -> (r: Result<
    EnableTotpResponse,
    FactorError,
>)
    ensures
        totp_enabled(old(user).auth_factors) <==> r == Err::<EnableTotpResponse, FactorError>(
            FactorError::AlreadyEnabled,
        ),
        !totp_enabled(old(user).auth_factors) && account_label_ok(old(user).email@)
            && !issuer@.contains(':') ==> r is Ok,
        r is Err ==> *final(user) == *old(user),
        r matches Ok(resp) ==> ({
            &&& final(user).auth_factors.totp matches Some(t) && !t.fully_enabled && t.secret@
                == resp.secret@ && t.display_name@ == display_name@
            &&& base32_decode_of(resp.secret@) matches Some(b) && b.len() == 20 && resp.qr@
                == otpauth_url_of(b, old(user).email@, issuer@)
            &&& final(user).auth_factors.webauthn == old(user).auth_factors.webauthn
            &&& final(user).auth_factors.recovery_codes == old(user).auth_factors.recovery_codes
            &&& final(user).auth_factors.pgp == old(user).auth_factors.pgp
            &&& final(user).auth_factors.password == old(user).auth_factors.password
            &&& final(user).auth_factors.recent == old(user).auth_factors.recent
            &&& final(user).email == old(user).email
        }),
{
    let already_enabled = match &user.auth_factors.totp {
        Some(t) => t.fully_enabled,
        None => false,
    };
    if already_enabled {
        return Err(FactorError::AlreadyEnabled);
    }

    let raw_secret = generate_totp_secret();
    let encoded_secret = base32_encode(&raw_secret);

    let qr = match totp_provisioning_url(&raw_secret, user.email.as_str(), issuer) {
        Some(u) => u,
        None => {
            return Err(FactorError::Other);
        },
    };

    user.auth_factors.totp = Some(
        TOTPFactor {
            secret: encoded_secret.clone(),
            display_name: String::from_str(display_name),
            fully_enabled: false,
        },
    );

    Ok(EnableTotpResponse { secret: encoded_secret, qr })
}

/// What confirming a pending enrollment decides, before the flag is
/// flipped: refused when already enabled or nothing is pending, else the
/// code check's own verdict.
pub open spec fn confirm_totp_result(f: crate::model::AuthFactors, code: Seq<char>, now: u64)
    -> Result<(), FactorError> {
    if totp_enabled(f) {
        Err(FactorError::AlreadyEnabled)
    } else {
        match f.totp {
            None => Err(FactorError::NotEnabled),
            Some(t) => totp_verify_result(t.secret@, code, now),
        }
    }
}

/// Confirm a pending TOTP enrollment with a current code; on success the
/// factor becomes fully enabled and visible to login.
pub fn confirm_enabling_totp(user: &mut User, code: &str, now: u64) -> (r: Result<
    ConfirmTotpResponse,
    FactorError,
>)
    ensures
        r matches Err(e) ==> Err::<(), FactorError>(e) == confirm_totp_result(
            old(user).auth_factors,
            code@,
            now,
        ),
        r is Ok <==> confirm_totp_result(old(user).auth_factors, code@, now) is Ok,
        r is Err ==> *final(user) == *old(user),
        r matches Ok(resp) ==> ({
            &&& resp.success
            &&& totp_enabled(final(user).auth_factors)
            &&& final(user).auth_factors.totp matches Some(t) && old(user).auth_factors.totp
                matches Some(p) && t.secret == p.secret && t.display_name == p.display_name
                && t.fully_enabled
            &&& final(user).auth_factors.webauthn == old(user).auth_factors.webauthn
            &&& final(user).auth_factors.recovery_codes == old(user).auth_factors.recovery_codes
            &&& final(user).auth_factors.pgp == old(user).auth_factors.pgp
            &&& final(user).auth_factors.password == old(user).auth_factors.password
            &&& final(user).auth_factors.recent == old(user).auth_factors.recent
        }),
{
    let already_enabled = match &user.auth_factors.totp {
        Some(t) => t.fully_enabled,
        None => false,
    };
    if already_enabled {
        return Err(FactorError::AlreadyEnabled);
    }

    let (secret, display_name) = match &user.auth_factors.totp {
        Some(t) => (t.secret.clone(), t.display_name.clone()),
        None => {
            return Err(FactorError::NotEnabled);
        },
    };

    match verify_totp(secret.as_str(), code, now) {
        Ok(()) => (),
        Err(e) => {
            return Err(e);
        },
    }

    user.auth_factors.totp = Some(
        TOTPFactor { secret, display_name, fully_enabled: true },
    );

    Ok(ConfirmTotpResponse { success: true })
}

/// What a TOTP login decides. Every refused precondition — no such user,
/// no TOTP enrolled, or a secret that was generated but never confirmed —
/// collapses into the same `Unauthorized` as a wrong code.
pub open spec fn totp_login_result(user: Option<User>, code: Seq<char>, now: u64) -> Result<
    (),
    FactorError,
> {
    match user {
        None => Err(FactorError::Unauthorized),
        Some(u) => {
            if !totp_enabled(u.auth_factors) {
                Err(FactorError::Unauthorized)
            } else {
                totp_verify_result(u.auth_factors.totp->0.secret@, code, now)
            }
        },
    }
}

/// Law: a TOTP secret that was generated but not confirmed is invisible to
/// login — the outcome is exactly the outcome for the same user with no
/// TOTP enrolled at all, namely `Unauthorized`.
pub proof fn lemma_unconfirmed_totp_is_not_enrolled(u: User, code: Seq<char>, now: u64)
    requires
        u.auth_factors.totp matches Some(t) && !t.fully_enabled,
    ensures
        totp_login_result(Some(u), code, now) == Err::<(), FactorError>(FactorError::Unauthorized),
        totp_login_result(Some(u), code, now) == totp_login_result(
            Some(
                User {
                    auth_factors: crate::model::AuthFactors { totp: None, ..u.auth_factors },
                    ..u
                },
            ),
            code,
            now,
        ),
{
}

/// Log in with a TOTP code as the second factor.
///
/// `user` is the lookup result for the session's user id. On success the
/// session is fully authenticated and the recent second factor is
/// recorded. A missing user, a missing or unconfirmed enrollment and a
/// wrong code all answer `Unauthorized`.
pub fn login_with_totp(
    session: &mut AuthSession,
    user: &mut Option<User>,
    code: &str,
    now: u64,
) -> (r: Result<SuccessfulLoginResponse, FactorError>)
    ensures
        r is Ok <==> totp_login_result(*old(user), code@, now) is Ok,
        r matches Err(e) ==> Err::<(), FactorError>(e) == totp_login_result(
            *old(user),
            code@,
            now,
        ),
        r is Err ==> *final(session) == *old(session) && *final(user) == *old(user),
        r matches Ok(resp) ==> (*old(user)) matches Some(u) && ({
            &&& !resp.two_factor_required && resp.second_factors is None && resp.recent_factor
                is None
            &&& final(session).auth_state == Some(AuthState::Authenticated)
            &&& final(session).user_id == old(session).user_id
            &&& final(session).webauthn_reg_state == old(session).webauthn_reg_state
            &&& final(session).webauthn_display_name == old(session).webauthn_display_name
            &&& final(session).webauthn_login_state == old(session).webauthn_login_state
            &&& final(session).pgp_challenge == old(session).pgp_challenge
            &&& (*final(user)) matches Some(w) && w.auth_factors.recent.second_factor == Some(
                SecondFactor::Totp,
            ) && w.auth_factors.recent.first_factor == u.auth_factors.recent.first_factor
                && w.auth_factors.totp == u.auth_factors.totp && w.auth_factors.webauthn
                == u.auth_factors.webauthn && w.auth_factors.recovery_codes
                == u.auth_factors.recovery_codes && w.auth_factors.pgp == u.auth_factors.pgp
                && w.auth_factors.password == u.auth_factors.password
        }),
{
    let enabled = match user {
        Some(u) => match &u.auth_factors.totp {
            Some(t) => t.fully_enabled,
            None => false,
        },
        None => false,
    };
    if !enabled {
        return Err(FactorError::Unauthorized);
    }

    let u = match user {
        Some(u) => u,
        None => {
            return Err(FactorError::Unauthorized);
        },
    };

    let secret = match &u.auth_factors.totp {
        Some(t) => t.secret.clone(),
        None => {
            return Err(FactorError::Unauthorized);
        },
    };

    match verify_totp(secret.as_str(), code, now) {
        Ok(()) => (),
        Err(e) => {
            return Err(e);
        },
    }

    set_recent_factor(&mut u.auth_factors, AnyFactor::from_second(SecondFactor::Totp));
    session.auth_state = Some(AuthState::Authenticated);

    Ok(
        SuccessfulLoginResponse {
            two_factor_required: false,
            second_factors: None,
            recent_factor: None,
        },
    )
}

} // verus!
