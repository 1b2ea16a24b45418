//! Plain data definitions of the WebAuthn wire format: the options,
//! extension inputs and outputs, and enumerations that the relying party
//! exchanges with browsers. These are the schema the transport layer
//! publishes; the opaque cryptographic payloads stay with the WebAuthn
//! collaborator.

use vstd::prelude::*;

verus! {

/// Valid credential protection policies of the `credProtect` extension.
#[derive(Debug, Clone, Copy, PartialEq, Eq, Structural)]
pub enum CredentialProtectionPolicy {
    /// User verification is optional with or without a credential list.
    UserVerificationOptional,
    /// The credential is discovered only when its id is provided by the
    /// platform or some form of user verification is performed.
    UserVerificationOptionalWithCredentialIDList,
    /// Discovery and use of the credential must be preceded by user
    /// verification.
    UserVerificationRequired,
}

/// The desired options for the client's use of the `credProtect`
/// extension.
#[derive(Debug, Clone, Copy, PartialEq, Eq, Structural)]
pub struct CredProtect {
    /// The credential policy to enact.
    pub credential_protection_policy: CredentialProtectionPolicy,
    /// Whether the authenticator should rather fail to create a credential
    /// than ignore the protection policy; absent reads as false.
    pub enforce_credential_protection_policy: Option<bool>,
}

/// Extension option inputs for credential creation.
#[derive(Debug, Clone, Copy, PartialEq, Eq, Structural)]
pub struct RequestRegistrationExtensions {
    /// The `credProtect` extension options.
    pub cred_protect: Option<CredProtect>,
    /// Request user-verification-methods output; not supported by
    /// browsers.
    pub uvm: Option<bool>,
    /// Request the unsigned resident-key hint in the output.
    pub cred_props: Option<bool>,
    /// Request the minimum PIN length.
    pub min_pin_length: Option<bool>,
    /// Request creation of an hmac secret.
    pub hmac_create_secret: Option<bool>,
}

/// The authenticator-credential-properties output: a user-agent supplied,
/// unsigned hint that the credential may be resident.
#[derive(Debug, Clone, Copy, PartialEq, Eq, Structural)]
pub struct CredProps {
    /// Whether the user agent believes a resident key was created.
    pub rk: bool,
}

/// Unsigned extension outputs of a registration, as reported by the
/// client.
#[derive(Debug, Clone, Copy, PartialEq, Eq, Structural)]
pub struct RegistrationExtensionsClientOutputs {
    /// Whether the client used the provided appid extension.
    pub appid: Option<bool>,
    /// Whether the client believes it created a resident key; unsigned and
    /// not to be trusted.
    pub cred_props: Option<CredProps>,
    /// Whether the client applied an hmac secret.
    pub hmac_secret: Option<bool>,
    /// Whether the client applied a credential protection policy.
    pub cred_protect: Option<CredentialProtectionPolicy>,
    /// The current minimum PIN length.
    pub min_pin_length: Option<u32>,
}

/// The extensions provided by the client during authentication.
#[derive(Debug, Clone, Copy, PartialEq, Eq, Structural)]
pub struct AuthenticationExtensions {}

/// The user-verification policy requested at registration; `Required` is
/// the only consistently enforceable choice.
#[derive(Debug, Clone, Copy, PartialEq, Eq, Structural)]
#[allow(non_camel_case_types)]
pub enum UserVerificationPolicy {
    /// Require the user verification bit, failing otherwise.
    Required,
    /// Prefer verification if possible, ignore if absent.
    Preferred,
    /// Discourage — but do not prevent — user verification.
    Discouraged_DO_NOT_USE,
}

impl UserVerificationPolicy {
    /// The default policy: required, the only secure and consistent
    /// option.
    pub fn default_policy() -> (r: Self)
        ensures
            r == UserVerificationPolicy::Required,
    {
        UserVerificationPolicy::Required
    }
}

/// The relying party entity.
#[derive(Debug, Clone, PartialEq, Eq)]
pub struct RelyingParty {
    /// The name of the relying party.
    pub name: String,
    /// The id of the relying party.
    pub id: String,
}

/// Public key cryptographic parameters: a credential type and a COSE
/// algorithm identifier.
#[derive(Debug, Clone, PartialEq, Eq)]
pub struct PubKeyCredParams {
    /// The type of public-key credential.
    pub type_: String,
    /// The algorithm in use, as defined by COSE.
    pub alg: i64,
}

/// How much attestation the relying party asks the device for.
#[derive(Debug, Clone, Copy, PartialEq, Eq, Structural)]
pub enum AttestationConveyancePreference {
    /// Do not request attestation.
    NoAttestation,
    /// Request attestation in a semi-anonymized form.
    Indirect,
    /// Request attestation in a direct form.
    Direct,
}

/// The transports an authenticator may use.
#[derive(Debug, Clone, Copy, PartialEq, Eq, Structural)]
pub enum AuthenticatorTransport {
    Usb,
    Nfc,
    Ble,
    Internal,
    /// Hybrid transport, formerly caBLE.
    Hybrid,
    /// Test transport, used by some platforms.
    Test,
    /// An unknown transport; ignored.
    Unknown,
}

/// The attestation formats of the IANA WebAuthn registry.
#[derive(Debug, Clone, Copy, PartialEq, Eq, Structural)]
pub enum AttestationFormat {
    /// Packed attestation.
    Packed,
    /// TPM attestation.
    Tpm,
    /// Android hardware attestation.
    AndroidKey,
    /// Older Android SafetyNet attestation.
    AndroidSafetyNet,
    /// Old U2F attestation.
    FIDOU2F,
    /// Apple anonymous attestation.
    AppleAnonymous,
    /// No attestation.
    NoAttestation,
}

/// A hint whether the authenticator is part of the machine or a separate
/// token; never enforced.
#[derive(Debug, Clone, Copy, PartialEq, Eq, Structural)]
pub enum AuthenticatorAttachment {
    /// A device that is part of the machine.
    Platform,
    /// A device that can be separated from the machine.
    CrossPlatform,
}

/// A hint as to the class of device expected to fulfil an operation.
#[derive(Debug, Clone, Copy, PartialEq, Eq, Structural)]
pub enum PublicKeyCredentialHints {
    /// A removable security key.
    SecurityKey,
    /// A platform authenticator.
    ClientDevice,
    /// An external device.
    Hybrid,
}

/// The relying party's requirement for client-side discoverable
/// credentials.
#[derive(Debug, Clone, Copy, PartialEq, Eq, Structural)]
pub enum ResidentKeyRequirement {
    Discouraged,
    /// In major browsers, identical in behaviour to required.
    Preferred,
    Required,
}

/// Criteria defining which authenticators may take part in an operation.
#[derive(Debug, Clone, Copy, PartialEq, Eq, Structural)]
pub struct AuthenticatorSelectionCriteria {
    /// How the authenticator should be attached; a hint only.
    pub authenticator_attachment: Option<AuthenticatorAttachment>,
    /// Hint to create a resident key; clients ignore unknown values.
    pub resident_key: Option<ResidentKeyRequirement>,
    /// Hint to create a resident key; cannot be enforced.
    pub require_resident_key: bool,
    /// The user verification level to request during registration.
    pub user_verification: UserVerificationPolicy,
}

/// Token binding status as reported in the collected client data.
#[derive(Debug, Clone, PartialEq, Eq)]
pub struct TokenBinding {
    pub status: String,
    pub id: Option<String>,
}

} // verus!
