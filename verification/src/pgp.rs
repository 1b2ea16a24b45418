//! The PGP challenge verifier: a `RoundTrip`, `Possession`-level,
//! `Primary` factor.
//!
//! A login issues a random 64-character challenge, time-boxed to five
//! minutes and stored in the session. The response call consumes the
//! stored challenge on read — before any validation, so a challenge can
//! never be answered twice — checks the expiry, and verifies the supplied
//! signature against the user's stored public key.

use vstd::prelude::*;

use crate::crypto::{is_alphanumeric_char, random_alphanumeric};
use crate::factor::FactorError;
use crate::model::{AnyFactor, FirstFactor, PGPFactor, User, set_recent_factor};
use crate::policy::{SuccessfulLoginResponse, get_second_factors, second_factors_of};
use crate::session::{AuthSession, AuthState, PgpChallengeConfig};

use pgp::composed::Deserializable;

verus! {

/// How long an issued challenge lives, in seconds.
pub const PGP_CHALLENGE_TTL_SECONDS: u64 = 300;

/// The canonical re-armored form and the fingerprint of a parsed public
/// key; `None` when the input is not a well-formed armored key. Both are
/// functions of the input string alone.
pub uninterp spec fn pgp_key_of(s: Seq<char>) -> Option<(Seq<char>, Seq<char>)>;

/// Whether `signature` is a valid signature over `message` by the armored
/// public key `key`. The outcome is a function of the three strings alone;
/// malformed keys and malformed signatures verify as false.
pub uninterp spec fn pgp_sig_valid(key: Seq<char>, message: Seq<char>, signature: Seq<char>)
    -> bool;

/// Parse an armored public key, returning its canonical armored form and
/// its fingerprint.
///
/// Relies on `pgp::composed::SignedPublicKey::from_string`,
/// `to_armored_string` and `pgp::types::KeyDetails::fingerprint`: all are
/// deterministic in the input.
#[verifier::external_body]
pub fn parse_public_key(s: &str) -> (r: Option<(String, String)>)
    ensures
        r is Some <==> pgp_key_of(s@) is Some,
        r matches Some(p) ==> pgp_key_of(s@) == Some((p.0@, p.1@)),
{
    let (key, _) = match pgp::composed::SignedPublicKey::from_string(s) {
        Ok(k) => k,
        Err(_) => {
            return None;
        },
    };
    let armored = match key.to_armored_string(pgp::composed::ArmorOptions::default()) {
        Ok(a) => a,
        Err(_) => {
            return None;
        },
    };
    let fingerprint = format!("{:X}", pgp::types::KeyDetails::fingerprint(&key));
    Some((armored, fingerprint))
}

/// Verify an armored detached signature over `message` with the armored
/// public key `key`.
///
/// Relies on `pgp::composed::DetachedSignature::from_string` and
/// `DetachedSignature::verify` against the parsed
/// `pgp::composed::SignedPublicKey`: deterministic in the three inputs.
#[verifier::external_body]
pub fn verify_pgp_signature(key: &str, message: &str, signature: &str) -> (r: bool)
    ensures
        r == pgp_sig_valid(key@, message@, signature@),
{
    let (public_key, _) = match pgp::composed::SignedPublicKey::from_string(key) {
        Ok(k) => k,
        Err(_) => {
            return false;
        },
    };
    let (sig, _) = match pgp::composed::DetachedSignature::from_string(signature) {
        Ok(s) => s,
        Err(_) => {
            return false;
        },
    };
    sig.verify(&public_key, message.as_bytes()).is_ok()
}

/// The challenge handed to the caller to sign.
#[derive(Debug, Clone, PartialEq, Eq)]
pub struct PgpChallengeResponse {
    pub challenge: String,
}

/// Request body for enabling the PGP factor.
#[derive(Debug, Clone, PartialEq, Eq)]
pub struct EnablePgpBody {
    /// Display name for the key.
    pub display_name: String,
    /// The armored public key.
    pub public_key: String,
}

/// Response to a successful enable.
#[derive(Debug, Clone, PartialEq, Eq)]
pub struct EnablePgpResponse {
    pub success: bool,
}

/// Draw a fresh opaque challenge string of 64 alphanumeric characters.
pub fn generate_pgp_challenge() -> (r: String)
    ensures
        r@.len() == 64,
        forall|i: int| 0 <= i < r@.len() ==> is_alphanumeric_char(#[trigger] r@[i]),
{
    random_alphanumeric(64)
}

/// Issue a PGP login challenge: store it in the session, time-boxed to
/// five minutes from `now`, and return it to the caller. A previously
/// pending challenge is replaced.
pub fn get_pgp_challenge(session: &mut AuthSession, now: u64) -> (r: PgpChallengeResponse)
    requires
        now + PGP_CHALLENGE_TTL_SECONDS <= u64::MAX,
    ensures
        final(session).pgp_challenge matches Some(c) && c.challenge@ == r.challenge@
            && c.expires_at == now + PGP_CHALLENGE_TTL_SECONDS,
        r.challenge@.len() == 64,
        forall|i: int| 0 <= i < r.challenge@.len() ==> is_alphanumeric_char(
            #[trigger] r.challenge@[i],
        ),
        final(session).user_id == old(session).user_id,
        final(session).auth_state == old(session).auth_state,
        final(session).webauthn_reg_state == old(session).webauthn_reg_state,
        final(session).webauthn_display_name == old(session).webauthn_display_name,
        final(session).webauthn_login_state == old(session).webauthn_login_state,
{
    let challenge = generate_pgp_challenge();
    session.pgp_challenge = Some(
        PgpChallengeConfig {
            challenge: challenge.clone(),
            expires_at: now + PGP_CHALLENGE_TTL_SECONDS,
        },
    );
    PgpChallengeResponse { challenge }
}

/// The form constraints enabling enforces: a display name of 1 to 32
/// characters and a non-empty key.
pub open spec fn enable_pgp_body_valid(b: EnablePgpBody) -> bool {
    1 <= b.display_name@.len() <= 32 && b.public_key@.len() >= 1
}

/// Enable the PGP factor: parse the submitted armored key and store its
/// canonical form, fingerprint and display name. A malformed form or key
/// is rejected as a bad request; a key already on file is replaced.
pub fn enable_pgp(user: &mut User, body: &EnablePgpBody) -> (r: Result<
    EnablePgpResponse,
    FactorError,
>)
    ensures
        r is Ok <==> enable_pgp_body_valid(*body) && pgp_key_of(body.public_key@) is Some,
        r matches Err(e) ==> e == FactorError::BadRequest && *final(user) == *old(user),
        r matches Ok(resp) ==> ({
            &&& resp.success
            &&& final(user).auth_factors.pgp matches Some(k) && pgp_key_of(body.public_key@)
                == Some((k.public_key@, k.fingerprint@)) && k.display_name@
                == body.display_name@
            &&& final(user).auth_factors.totp == old(user).auth_factors.totp
            &&& final(user).auth_factors.webauthn == old(user).auth_factors.webauthn
            &&& final(user).auth_factors.recovery_codes == old(user).auth_factors.recovery_codes
            &&& final(user).auth_factors.password == old(user).auth_factors.password
            &&& final(user).auth_factors.recent == old(user).auth_factors.recent
        }),
{
    let name_len = body.display_name.as_str().unicode_len();
    let key_len = body.public_key.as_str().unicode_len();
    if !(1 <= name_len && name_len <= 32 && key_len >= 1) {
        return Err(FactorError::BadRequest);
    }

    let (armored, fingerprint) = match parse_public_key(body.public_key.as_str()) {
        Some(p) => p,
        None => {
            return Err(FactorError::BadRequest);
        },
    };

    user.auth_factors.pgp = Some(
        PGPFactor {
            public_key: armored,
            fingerprint,
            display_name: body.display_name.clone(),
        },
    );

    Ok(EnablePgpResponse { success: true })
}

/// What answering a challenge decides: a missing challenge is a bad
/// request; an expired challenge, an unknown user, a user without a key
/// and an invalid signature all answer `Unauthorized`.
pub open spec fn pgp_respond_result(
    session: AuthSession,
    user: Option<User>,
    signature: Seq<char>,
    now: u64,
) -> Result<(), FactorError> {
    match session.pgp_challenge {
        None => Err(FactorError::BadRequest),
        Some(c) => {
            if c.expires_at < now {
                Err(FactorError::Unauthorized)
            } else {
                match user {
                    None => Err(FactorError::Unauthorized),
                    Some(u) => match u.auth_factors.pgp {
                        None => Err(FactorError::Unauthorized),
                        Some(k) => {
                            if pgp_sig_valid(k.public_key@, c.challenge@, signature) {
                                Ok(())
                            } else {
                                Err(FactorError::Unauthorized)
                            }
                        },
                    },
                }
            }
        },
    }
}

/// Law: a challenge answered after its expiry fails, even when the
/// signature over it is correct.
pub proof fn lemma_expired_challenge_fails(
    session: AuthSession,
    user: Option<User>,
    signature: Seq<char>,
    now: u64,
)
    requires
        session.pgp_challenge matches Some(c) && c.expires_at < now,
    ensures
        pgp_respond_result(session, user, signature, now) == Err::<(), FactorError>(
            FactorError::Unauthorized,
        ),
{
}

/// Answer a pending PGP challenge with a signature, completing a login's
/// first factor.
///
/// The stored challenge is consumed on read, before any validation, so it
/// can never be answered twice. On success the session gains the user's
/// identity and moves to `Authenticated` when no second factor is
/// enrolled, else to `BeforeTwoFactor`, and the recent first factor is
/// recorded.
pub fn respond_to_pgp_challenge(
    session: &mut AuthSession,
    user: &mut Option<User>,
    signature: &str,
    now: u64,
) -> (r: Result<SuccessfulLoginResponse, FactorError>)
    ensures
        final(session).pgp_challenge is None,
        r is Ok <==> pgp_respond_result(*old(session), *old(user), signature@, now) is Ok,
        r matches Err(e) ==> Err::<(), FactorError>(e) == pgp_respond_result(
            *old(session),
            *old(user),
            signature@,
            now,
        ),
        r is Err ==> *final(user) == *old(user) && final(session).user_id == old(session).user_id
            && final(session).auth_state == old(session).auth_state,
        final(session).webauthn_reg_state == old(session).webauthn_reg_state,
        final(session).webauthn_display_name == old(session).webauthn_display_name,
        final(session).webauthn_login_state == old(session).webauthn_login_state,
        r matches Ok(resp) ==> (*old(user)) matches Some(u) && ({
            let n = second_factors_of(u.auth_factors).len();
            &&& final(session).user_id matches Some(id) && id@ == u.id@
            &&& final(session).auth_state == Some(
                if n == 0 {
                    AuthState::Authenticated
                } else {
                    AuthState::BeforeTwoFactor
                },
            )
            &&& resp.two_factor_required == (n > 0)
            &&& (n > 0 ==> (resp.second_factors matches Some(v) && v@ == second_factors_of(
                u.auth_factors,
            )))
            &&& (n == 0 ==> resp.second_factors is None && resp.recent_factor is None)
            &&& (n > 0 ==> resp.recent_factor == u.auth_factors.recent.second_factor)
            &&& (*final(user)) matches Some(w) && w.auth_factors.recent.first_factor == Some(
                FirstFactor::Pgp,
            ) && w.auth_factors.password == u.auth_factors.password && w.auth_factors.totp
                == u.auth_factors.totp && w.auth_factors.webauthn == u.auth_factors.webauthn
                && w.auth_factors.recovery_codes == u.auth_factors.recovery_codes
                && w.auth_factors.pgp == u.auth_factors.pgp
        }),
{
    let challenge_config = match &session.pgp_challenge {
        Some(c) => PgpChallengeConfig {
            challenge: c.challenge.clone(),
            expires_at: c.expires_at,
        },
        None => {
            return Err(FactorError::BadRequest);
        },
    };
    // Consumed on read: a stale ceremony can never be replayed, even after
    // a failed validation.
    session.pgp_challenge = None;

    if challenge_config.expires_at < now {
        return Err(FactorError::Unauthorized);
    }

    let u = match user {
        Some(u) => u,
        None => {
            return Err(FactorError::Unauthorized);
        },
    };

    let public_key = match &u.auth_factors.pgp {
        Some(k) => k.public_key.clone(),
        None => {
            return Err(FactorError::Unauthorized);
        },
    };

    if !verify_pgp_signature(
        public_key.as_str(),
        challenge_config.challenge.as_str(),
        signature,
    ) {
        return Err(FactorError::Unauthorized);
    }

    session.user_id = Some(u.id.clone());
    set_recent_factor(&mut u.auth_factors, AnyFactor::from_first(FirstFactor::Pgp));

    let second_factors = get_second_factors(u);

    if second_factors.len() == 0 {
        session.auth_state = Some(AuthState::Authenticated);
        return Ok(
            SuccessfulLoginResponse {
                two_factor_required: false,
                second_factors: None,
                recent_factor: None,
            },
        );
    }

    session.auth_state = Some(AuthState::BeforeTwoFactor);
    let recent = u.auth_factors.recent.second_factor;
    Ok(
        SuccessfulLoginResponse {
            two_factor_required: true,
            second_factors: Some(second_factors),
            recent_factor: recent,
        },
    )
}

} // verus!
