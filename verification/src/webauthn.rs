//! The WebAuthn verifier: a `RoundTrip`, `Hardware`-level factor, `Primary`
//! when used passwordless and a second factor otherwise.
//!
//! Both ceremonies — registration and authentication — stash their opaque
//! cryptographic state in the session at `start` and consume it exactly
//! once at `finish`: the state is removed on read, before validation, so a
//! ceremony can never be replayed, not even after a failed validation.
//! After every successful authentication the updated authenticator state
//! (the signature counter) is written back to every credential record, so
//! cloned authenticators stay detectable.

use vstd::prelude::*;

use crate::factor::FactorError;
use crate::model::{AnyFactor, SecondFactor, User, WebAuthnFactor, set_recent_factor};
use crate::policy::SuccessfulLoginResponse;
use crate::session::{AuthSession, AuthState};

verus! {

/// Site-wide WebAuthn context of the relying party, owned by the
/// `webauthn_rs` crate.
#[verifier::external_type_specification]
#[verifier::external_body]
pub struct ExWebauthn(webauthn_rs::Webauthn);

/// A registered passkey credential, opaque to the core.
#[verifier::external_type_specification]
#[verifier::external_body]
pub struct ExPasskey(webauthn_rs::prelude::Passkey);

/// The challenge handed to the browser to create a credential.
#[verifier::external_type_specification]
#[verifier::external_body]
pub struct ExCreationChallengeResponse(webauthn_rs::prelude::CreationChallengeResponse);

/// The challenge handed to the browser to assert a credential.
#[verifier::external_type_specification]
#[verifier::external_body]
pub struct ExRequestChallengeResponse(webauthn_rs::prelude::RequestChallengeResponse);

/// The browser's answer to a registration challenge.
#[verifier::external_type_specification]
#[verifier::external_body]
pub struct ExRegisterPublicKeyCredential(webauthn_rs::prelude::RegisterPublicKeyCredential);

/// The browser's answer to an authentication challenge.
#[verifier::external_type_specification]
#[verifier::external_body]
pub struct ExPublicKeyCredential(webauthn_rs::prelude::PublicKeyCredential);

/// The outcome of a validated assertion, carrying the updated counter.
#[verifier::external_type_specification]
#[verifier::external_body]
pub struct ExAuthenticationResult(webauthn_rs::prelude::AuthenticationResult);

/// A credential identifier, opaque binary data.
#[verifier::external_type_specification]
#[verifier::external_body]
pub struct ExHumanBinaryData(webauthn_rs::prelude::CredentialID);

/// Request body for starting a credential registration.
#[derive(Debug, Clone, PartialEq, Eq)]
pub struct WebAuthnRegistrationBody {
    /// Display name for the new credential.
    pub display_name: String,
}

/// Deserialize a stored passkey.
///
/// Relies on `serde_json::from_str` for `webauthn_rs::prelude::Passkey`.
#[verifier::external_body]
fn passkey_from_json(s: &str) -> Option<webauthn_rs::prelude::Passkey> {
    serde_json::from_str(s).ok()
}

/// Serialize a passkey for storage.
///
/// Relies on `serde_json::to_string` for `webauthn_rs::prelude::Passkey`.
#[verifier::external_body]
fn passkey_to_json(p: &webauthn_rs::prelude::Passkey) -> Option<String> {
    serde_json::to_string(p).ok()
}

/// The credential identifier of a passkey.
///
/// Relies on `webauthn_rs::prelude::Passkey::cred_id`.
#[verifier::external_body]
fn passkey_cred_id(p: &webauthn_rs::prelude::Passkey) -> webauthn_rs::prelude::CredentialID {
    p.cred_id().clone()
}

/// The credential identifier of a passkey, base32-encoded for storage and
/// display.
///
/// Relies on `webauthn_rs::prelude::Passkey::cred_id` and
/// `base32::encode`.
#[verifier::external_body]
fn passkey_cred_id_encoded(p: &webauthn_rs::prelude::Passkey) -> String {
    base32::encode(base32::Alphabet::Rfc4648 { padding: false }, p.cred_id().as_ref())
}

/// Write an authentication result's updated counter and backup state into
/// a passkey.
///
/// Relies on `webauthn_rs::prelude::Passkey::update_credential`: `Some`
/// says whether the stored state changed; `None` says the result belongs
/// to a different credential.
#[verifier::external_body]
fn passkey_update_credential(
    p: &mut webauthn_rs::prelude::Passkey,
    res: &webauthn_rs::prelude::AuthenticationResult,
) -> Option<bool> {
    p.update_credential(res)
}

/// Begin a registration ceremony for a user.
///
/// Relies on `webauthn_rs::Webauthn::start_passkey_registration`, with
/// `uuid::Uuid::parse_str` for the user handle and `serde_json::to_string`
/// for the ceremony state.
#[verifier::external_body]
fn start_passkey_registration_call(
    wa: &webauthn_rs::Webauthn,
    user_uuid: &str,
    username: &str,
    display_name: &str,
    exclude: Vec<webauthn_rs::prelude::CredentialID>,
) -> Option<(webauthn_rs::prelude::CreationChallengeResponse, String)> {
    let uuid = uuid::Uuid::parse_str(user_uuid).ok()?;
    let (ccr, reg_state) = wa
        .start_passkey_registration(uuid, username, display_name, Some(exclude))
        .ok()?;
    let state_json = serde_json::to_string(&reg_state).ok()?;
    Some((ccr, state_json))
}

/// Complete a registration ceremony, validating the browser's answer.
///
/// Relies on `webauthn_rs::Webauthn::finish_passkey_registration`, with
/// `serde_json::from_str` for the stored ceremony state.
#[verifier::external_body]
fn finish_passkey_registration_call(
    wa: &webauthn_rs::Webauthn,
    reg: &webauthn_rs::prelude::RegisterPublicKeyCredential,
    state_json: &str,
) -> (r: Result<webauthn_rs::prelude::Passkey, FactorError>)
    ensures
        r matches Err(e) ==> e == FactorError::Other || e == FactorError::BadRequest,
{
    let state: webauthn_rs::prelude::PasskeyRegistration = match serde_json::from_str(state_json) {
        Ok(s) => s,
        Err(_) => return Err(FactorError::Other),
    };
    wa.finish_passkey_registration(reg, &state).map_err(|_| FactorError::BadRequest)
}

/// Begin an authentication ceremony over a set of credentials.
///
/// Relies on `webauthn_rs::Webauthn::start_passkey_authentication`, with
/// `serde_json::to_string` for the ceremony state.
#[verifier::external_body]
fn start_passkey_authentication_call(
    wa: &webauthn_rs::Webauthn,
    creds: &Vec<webauthn_rs::prelude::Passkey>,
) -> Option<(webauthn_rs::prelude::RequestChallengeResponse, String)> {
    let (rcr, auth_state) = wa.start_passkey_authentication(creds.as_slice()).ok()?;
    let state_json = serde_json::to_string(&auth_state).ok()?;
    Some((rcr, state_json))
}

/// Complete an authentication ceremony, validating the browser's answer.
///
/// Relies on `webauthn_rs::Webauthn::finish_passkey_authentication`, with
/// `serde_json::from_str` for the stored ceremony state.
#[verifier::external_body]
fn finish_passkey_authentication_call(
    wa: &webauthn_rs::Webauthn,
    cred: &webauthn_rs::prelude::PublicKeyCredential,
    state_json: &str,
) -> (r: Result<webauthn_rs::prelude::AuthenticationResult, FactorError>)
    ensures
        r matches Err(e) ==> e == FactorError::Other || e == FactorError::BadRequest,
{
    let state: webauthn_rs::prelude::PasskeyAuthentication = match serde_json::from_str(state_json)
    {
        Ok(s) => s,
        Err(_) => return Err(FactorError::Other),
    };
    wa.finish_passkey_authentication(cred, &state).map_err(|_| FactorError::BadRequest)
}

/// Deserialize every stored credential of a user.
fn parse_user_passkeys(factors: &Vec<WebAuthnFactor>) -> (r: Result<
    Vec<webauthn_rs::prelude::Passkey>,
    FactorError,
>)
    ensures
        r matches Ok(v) ==> v@.len() == factors@.len(),
        r matches Err(e) ==> e == FactorError::Other,
        factors@.len() == 0 ==> r is Ok,
{
    let mut passkeys: Vec<webauthn_rs::prelude::Passkey> = Vec::new();
    let mut i: usize = 0;
    while i < factors.len()
        invariant
            i <= factors@.len(),
            passkeys@.len() == i,
        decreases factors@.len() - i,
    {
        match passkey_from_json(factors[i].serialized_key.as_str()) {
            Some(p) => passkeys.push(p),
            None => {
                return Err(FactorError::Other);
            },
        }
        i = i + 1;
    }
    Ok(passkeys)
}

/// Remove and return the stored authentication ceremony state: the
/// single-use read every finish call starts with.
pub fn take_login_ceremony(session: &mut AuthSession) -> (r: Option<String>)
    ensures
        r == old(session).webauthn_login_state,
        final(session).webauthn_login_state is None,
        final(session).user_id == old(session).user_id,
        final(session).auth_state == old(session).auth_state,
        final(session).webauthn_reg_state == old(session).webauthn_reg_state,
        final(session).webauthn_display_name == old(session).webauthn_display_name,
        final(session).pgp_challenge == old(session).pgp_challenge,
{
    let r = match &session.webauthn_login_state {
        Some(s) => Some(s.clone()),
        None => None,
    };
    session.webauthn_login_state = None;
    r
}

/// Remove and return the stored registration ceremony state: the
/// single-use read every finish call starts with.
pub fn take_registration_ceremony(session: &mut AuthSession) -> (r: Option<String>)
    ensures
        r == old(session).webauthn_reg_state,
        final(session).webauthn_reg_state is None,
        final(session).user_id == old(session).user_id,
        final(session).auth_state == old(session).auth_state,
        final(session).webauthn_login_state == old(session).webauthn_login_state,
        final(session).webauthn_display_name == old(session).webauthn_display_name,
        final(session).pgp_challenge == old(session).pgp_challenge,
{
    let r = match &session.webauthn_reg_state {
        Some(s) => Some(s.clone()),
        None => None,
    };
    session.webauthn_reg_state = None;
    r
}

/// The session after a finish call consumed the authentication ceremony.
pub open spec fn login_ceremony_taken(s: AuthSession) -> AuthSession {
    AuthSession { webauthn_login_state: None, ..s }
}

/// What the finish call decides from the session alone: without a prior
/// challenge there is nothing to finish.
pub open spec fn finish_login_gate(s: AuthSession) -> Result<(), FactorError> {
    match s.webauthn_login_state {
        None => Err(FactorError::NotEnabled),
        Some(_) => Ok(()),
    }
}

/// Law: ceremony state is not reusable. A finish call consumes the stored
/// state on read, so a second finish on the resulting session — whatever
/// the first validation decided — is refused for want of a challenge.
pub proof fn lemma_ceremony_not_reusable(s: AuthSession)
    ensures
        finish_login_gate(login_ceremony_taken(s)) == Err::<(), FactorError>(
            FactorError::NotEnabled,
        ),
{
}

/// Start registering a new credential: build a creation challenge that
/// excludes the user's registered credentials, and stash the ceremony
/// state and chosen display name in the session. Any previous registration
/// ceremony is abandoned.
pub fn webauthn_start_setup(
    session: &mut AuthSession,
    user: &User,
    wa: &webauthn_rs::Webauthn,
    display_name: &str,
) -> (r: Result<webauthn_rs::prelude::CreationChallengeResponse, FactorError>)
    ensures
        r is Ok ==> final(session).webauthn_reg_state is Some && (final(session)
            .webauthn_display_name matches Some(d) && d@ == display_name@),
        r is Err ==> final(session).webauthn_reg_state is None && final(session)
            .webauthn_display_name == old(session).webauthn_display_name,
        r matches Err(e) ==> e == FactorError::Other,
        final(session).user_id == old(session).user_id,
        final(session).auth_state == old(session).auth_state,
        final(session).webauthn_login_state == old(session).webauthn_login_state,
        final(session).pgp_challenge == old(session).pgp_challenge,
{
    session.webauthn_reg_state = None;

    let passkeys = match parse_user_passkeys(&user.auth_factors.webauthn) {
        Ok(p) => p,
        Err(e) => {
            return Err(e);
        },
    };

    let mut exclude: Vec<webauthn_rs::prelude::CredentialID> = Vec::new();
    let mut i: usize = 0;
    while i < passkeys.len()
        invariant
            i <= passkeys@.len(),
        decreases passkeys@.len() - i,
    {
        exclude.push(passkey_cred_id(&passkeys[i]));
        i = i + 1;
    }

    let (ccr, reg_state) = match start_passkey_registration_call(
        wa,
        user.uuid.as_str(),
        user.preferred_username.as_str(),
        user.display_name.as_str(),
        exclude,
    ) {
        Some(p) => p,
        None => {
            return Err(FactorError::Other);
        },
    };

    session.webauthn_reg_state = Some(reg_state);
    session.webauthn_display_name = Some(String::from_str(display_name));

    Ok(ccr)
}

/// Finish registering a credential: consume the ceremony state — exactly
/// once, removed before validation — validate the browser's answer, and
/// append the new credential with its authenticator state and display name
/// to the user's set.
pub fn webauthn_finish_setup(
    session: &mut AuthSession,
    user: &mut User,
    wa: &webauthn_rs::Webauthn,
    reg: &webauthn_rs::prelude::RegisterPublicKeyCredential,
) -> (r: Result<(), FactorError>)
    ensures
        final(session).webauthn_reg_state is None,
        old(session).webauthn_reg_state is None ==> r == Err::<(), FactorError>(
            FactorError::NotEnabled,
        ),
        r is Err ==> *final(user) == *old(user),
        r matches Err(e) ==> e == FactorError::NotEnabled || e == FactorError::BadRequest || e
            == FactorError::Other,
        r is Ok ==> ({
            &&& old(session).webauthn_reg_state is Some
            &&& final(user).auth_factors.webauthn@.len() == old(user).auth_factors.webauthn@.len() + 1
            &&& forall|i: int|
                0 <= i < old(user).auth_factors.webauthn@.len()
                    ==> final(user).auth_factors.webauthn@[i] == #[trigger] old(user).auth_factors.webauthn@[i]
            &&& (old(session).webauthn_display_name matches Some(d) ==> final(user).auth_factors.webauthn@.last().display_name@ == d@)
            &&& final(user).auth_factors.totp == old(user).auth_factors.totp
            &&& final(user).auth_factors.recovery_codes == old(user).auth_factors.recovery_codes
            &&& final(user).auth_factors.pgp == old(user).auth_factors.pgp
            &&& final(user).auth_factors.password == old(user).auth_factors.password
            &&& final(user).auth_factors.recent == old(user).auth_factors.recent
        }),
        final(session).user_id == old(session).user_id,
        final(session).auth_state == old(session).auth_state,
        final(session).webauthn_login_state == old(session).webauthn_login_state,
        final(session).webauthn_display_name == old(session).webauthn_display_name,
        final(session).pgp_challenge == old(session).pgp_challenge,
{
    let reg_state = match take_registration_ceremony(session) {
        Some(s) => s,
        None => {
            return Err(FactorError::NotEnabled);
        },
    };

    let passkey = match finish_passkey_registration_call(wa, reg, reg_state.as_str()) {
        Ok(p) => p,
        Err(e) => {
            return Err(e);
        },
    };

    let display_name = match &session.webauthn_display_name {
        Some(d) => d.clone(),
        None => {
            return Err(FactorError::Other);
        },
    };

    let serialized_key = match passkey_to_json(&passkey) {
        Some(s) => s,
        None => {
            return Err(FactorError::Other);
        },
    };
    let credential_id = passkey_cred_id_encoded(&passkey);

    user.auth_factors.webauthn.push(
        WebAuthnFactor { credential_id, serialized_key, display_name },
    );

    Ok(())
}

/// Start a WebAuthn authentication: build an assertion challenge from the
/// user's registered credentials — refused as `Unauthorized` when there is
/// none — and stash the ceremony state in the session. Any previous
/// authentication ceremony is abandoned.
pub fn webauthn_start_login(
    session: &mut AuthSession,
    user: &User,
    wa: &webauthn_rs::Webauthn,
) -> (r: Result<webauthn_rs::prelude::RequestChallengeResponse, FactorError>)
    ensures
        user.auth_factors.webauthn@.len() == 0 ==> r == Err::<
            webauthn_rs::prelude::RequestChallengeResponse,
            FactorError,
        >(FactorError::Unauthorized),
        r is Ok ==> final(session).webauthn_login_state is Some,
        r is Err ==> final(session).webauthn_login_state is None,
        r matches Err(e) ==> e == FactorError::Unauthorized || e == FactorError::Other,
        final(session).user_id == old(session).user_id,
        final(session).auth_state == old(session).auth_state,
        final(session).webauthn_reg_state == old(session).webauthn_reg_state,
        final(session).webauthn_display_name == old(session).webauthn_display_name,
        final(session).pgp_challenge == old(session).pgp_challenge,
{
    session.webauthn_login_state = None;

    let passkeys = match parse_user_passkeys(&user.auth_factors.webauthn) {
        Ok(p) => p,
        Err(e) => {
            return Err(e);
        },
    };

    if passkeys.len() == 0 {
        return Err(FactorError::Unauthorized);
    }

    let (rcr, auth_state) = match start_passkey_authentication_call(wa, &passkeys) {
        Some(p) => p,
        None => {
            return Err(FactorError::Other);
        },
    };

    session.webauthn_login_state = Some(auth_state);
    Ok(rcr)
}

/// Finish a WebAuthn authentication as the second factor: consume the
/// ceremony state — exactly once, removed before validation — validate the
/// browser's assertion, write the updated authenticator state back to
/// every credential record, and authenticate the session.
#[verifier::loop_isolation(false)]
pub fn webauthn_finish_login(
    session: &mut AuthSession,
    user: &mut Option<User>,
    wa: &webauthn_rs::Webauthn,
    cred: &webauthn_rs::prelude::PublicKeyCredential,
) -> (r: Result<SuccessfulLoginResponse, FactorError>)
    ensures
        (*old(user)) is None ==> r == Err::<SuccessfulLoginResponse, FactorError>(
            FactorError::Other,
        ) && *final(session) == *old(session),
        (*old(user)) is Some ==> final(session).webauthn_login_state is None,
        (*old(user)) is Some && old(session).webauthn_login_state is None ==> r == Err::<
            SuccessfulLoginResponse,
            FactorError,
        >(FactorError::NotEnabled),
        r is Err ==> *final(user) == *old(user) && final(session).auth_state == old(session).auth_state && final(session).user_id == old(session).user_id,
        r matches Err(e) ==> e == FactorError::NotEnabled || e == FactorError::BadRequest || e
            == FactorError::Other,
        final(session).webauthn_reg_state == old(session).webauthn_reg_state,
        final(session).webauthn_display_name == old(session).webauthn_display_name,
        final(session).pgp_challenge == old(session).pgp_challenge,
        r matches Ok(resp) ==> (*old(user)) matches Some(u) && ({
            &&& !resp.two_factor_required && resp.second_factors is None && resp.recent_factor
                is None
            &&& old(session).webauthn_login_state is Some
            &&& final(session).auth_state == Some(AuthState::Authenticated)
            &&& final(session).user_id == old(session).user_id
            &&& (*final(user)) matches Some(w) && ({
                &&& w.auth_factors.webauthn@.len() == u.auth_factors.webauthn@.len()
                &&& forall|i: int|
                    0 <= i < u.auth_factors.webauthn@.len() ==> (
                    #[trigger] w.auth_factors.webauthn@[i]).credential_id@
                        == u.auth_factors.webauthn@[i].credential_id@
                        && w.auth_factors.webauthn@[i].display_name@
                        == u.auth_factors.webauthn@[i].display_name@
                &&& w.auth_factors.recent.second_factor == Some(SecondFactor::WebAuthn)
                &&& w.auth_factors.recent.first_factor == u.auth_factors.recent.first_factor
                &&& w.auth_factors.totp == u.auth_factors.totp
                &&& w.auth_factors.recovery_codes == u.auth_factors.recovery_codes
                &&& w.auth_factors.pgp == u.auth_factors.pgp
                &&& w.auth_factors.password == u.auth_factors.password
            })
        }),
{
    let u = match user {
        Some(u) => u,
        None => {
            return Err(FactorError::Other);
        },
    };

    let auth_state_json = match take_login_ceremony(session) {
        Some(s) => s,
        None => {
            return Err(FactorError::NotEnabled);
        },
    };

    let auth_result = match finish_passkey_authentication_call(wa, cred, auth_state_json.as_str())
    {
        Ok(res) => res,
        Err(e) => {
            return Err(e);
        },
    };

    let mut updated: Vec<WebAuthnFactor> = Vec::new();
    let mut i: usize = 0;
    while i < u.auth_factors.webauthn.len()
        invariant
            i <= u.auth_factors.webauthn@.len(),
            updated@.len() == i,
            forall|j: int|
                0 <= j < i ==> (#[trigger] updated@[j]).credential_id@
                    == u.auth_factors.webauthn@[j].credential_id@ && updated@[j].display_name@
                    == u.auth_factors.webauthn@[j].display_name@,
        decreases u.auth_factors.webauthn@.len() - i,
    {
        let factor = &u.auth_factors.webauthn[i];
        let mut passkey = match passkey_from_json(factor.serialized_key.as_str()) {
            Some(p) => p,
            None => {
                return Err(FactorError::Other);
            },
        };
        let _changed = passkey_update_credential(&mut passkey, &auth_result);
        let serialized_key = match passkey_to_json(&passkey) {
            Some(s) => s,
            None => {
                return Err(FactorError::Other);
            },
        };
        updated.push(
            WebAuthnFactor {
                credential_id: factor.credential_id.clone(),
                serialized_key,
                display_name: factor.display_name.clone(),
            },
        );
        i = i + 1;
    }

    u.auth_factors.webauthn = updated;
    set_recent_factor(&mut u.auth_factors, AnyFactor::from_second(SecondFactor::WebAuthn));
    session.auth_state = Some(AuthState::Authenticated);

    Ok(
        SuccessfulLoginResponse {
            two_factor_required: false,
            second_factors: None,
            recent_factor: None,
        },
    )
}

} // verus!
