//! The per-user authentication data: the `AuthFactors` aggregate, the user
//! record that owns it, and the public (redacted) views of both.
//!
//! A factor counts as *enabled* for login only when its proof-of-possession
//! step has completed: a password hash stored, a TOTP secret confirmed, a
//! WebAuthn credential registered, at least one unused recovery code, or a
//! PGP key on file. Every usability check goes through the derived spec
//! functions below, never through raw presence of a secret alone.

use vstd::prelude::*;

use crate::factor::{FactorError, FactorRole, FlowType, SecurityLevel};

verus! {

/// A TOTP enrollment. The secret exists from the moment enabling starts;
/// `fully_enabled` stays false until the confirmation code is verified, and
/// a half-enabled TOTP must not be usable for login.
#[derive(Debug, Clone, PartialEq, Eq)]
pub struct TOTPFactor {
    /// Base32-encoded shared secret.
    pub secret: String,
    /// User-chosen label, for example the authenticator app name.
    pub display_name: String,
    /// True only after the confirmation code has been verified.
    pub fully_enabled: bool,
}

/// A registered WebAuthn credential together with its serialized
/// authenticator state. The state is rewritten after every successful
/// authentication so the signature counter can detect cloned authenticators.
#[derive(Debug, Clone, PartialEq, Eq)]
pub struct WebAuthnFactor {
    /// Identifier of the credential, as issued at registration.
    pub credential_id: String,
    /// Serialized authenticator state, including the signature counter.
    pub serialized_key: String,
    /// User-chosen label for the credential.
    pub display_name: String,
}

/// One recovery code, stored only as a hash, spent at most once.
#[derive(Debug, Clone, PartialEq, Eq)]
pub struct RecoveryCodeFactor {
    /// Hash of the code; the plaintext is shown to the user exactly once.
    pub code_hash: String,
    /// True once the code has been redeemed.
    pub used: bool,
}

/// A PGP key on file: a possession factor proven via signature, with no
/// stored secret.
#[derive(Debug, Clone, PartialEq, Eq)]
pub struct PGPFactor {
    /// Armored public key.
    pub public_key: String,
    /// Fingerprint of the key.
    pub fingerprint: String,
    /// User-chosen label for the key.
    pub display_name: String,
}

/// The password factor; absence of the hash means the factor is disabled.
#[derive(Debug, Clone, PartialEq, Eq)]
pub struct PasswordFactor {
    /// Password hash in PHC string format, if a password is set.
    pub password_hash: Option<String>,
}

impl PasswordFactor {
    /// A password factor with no password set.
    pub fn empty() -> (r: Self)
        ensures
            r.password_hash is None,
    {
        PasswordFactor { password_hash: None }
    }
}

/// The last successfully used first and second factor, kept for UX hinting
/// only and never consulted for authorization decisions.
#[derive(Debug, Clone, PartialEq, Eq)]
pub struct RecentFactors {
    pub first_factor: Option<FirstFactor>,
    pub second_factor: Option<SecondFactor>,
}

impl RecentFactors {
    /// No factor recorded yet.
    pub fn empty() -> (r: Self)
        ensures
            r.first_factor is None,
            r.second_factor is None,
    {
        RecentFactors { first_factor: None, second_factor: None }
    }
}

/// The authentication factors of one user.
#[derive(Debug, Clone, PartialEq, Eq)]
pub struct AuthFactors {
    pub totp: Option<TOTPFactor>,
    pub webauthn: Vec<WebAuthnFactor>,
    pub recovery_codes: Vec<RecoveryCodeFactor>,
    pub pgp: Option<PGPFactor>,
    pub password: PasswordFactor,
    pub recent: RecentFactors,
}

impl AuthFactors {
    /// A user with no factor enrolled at all.
    pub fn empty() -> (r: Self)
        ensures
            r.totp is None,
            r.webauthn@.len() == 0,
            r.recovery_codes@.len() == 0,
            r.pgp is None,
            r.password.password_hash is None,
            r.recent.first_factor is None,
            r.recent.second_factor is None,
    {
        AuthFactors {
            totp: None,
            webauthn: Vec::new(),
            recovery_codes: Vec::new(),
            pgp: None,
            password: PasswordFactor::empty(),
            recent: RecentFactors::empty(),
        }
    }
}

/// A user record. The identifiers are plain strings here; the persistence
/// collaborator owns their canonical representation.
#[derive(Debug, Clone, PartialEq, Eq)]
pub struct User {
    pub id: String,
    pub uuid: String,
    pub first_name: String,
    pub last_name: String,
    pub display_name: String,
    pub preferred_username: String,
    pub email: String,
    pub auth_factors: AuthFactors,
    pub groups: Vec<String>,
}

/// Factors that may open a login as the first step.
#[derive(Debug, Clone, Copy, PartialEq, Eq, Structural)]
pub enum FirstFactor {
    Password,
    WebAuthn,
    Pgp,
}

/// Factors that may complete a login as the second step.
#[derive(Debug, Clone, Copy, PartialEq, Eq, Structural)]
pub enum SecondFactor {
    Totp,
    WebAuthn,
    RecoveryCode,
}

/// Either kind of factor, as recorded in the recent-factor hint.
#[derive(Debug, Clone, Copy, PartialEq, Eq, Structural)]
pub enum AnyFactor {
    First(FirstFactor),
    Second(SecondFactor),
}

impl AnyFactor {
    /// Wrap a first factor.
    pub fn from_first(f: FirstFactor) -> (r: Self)
        ensures
            r == AnyFactor::First(f),
    {
        AnyFactor::First(f)
    }

    /// Wrap a second factor.
    pub fn from_second(s: SecondFactor) -> (r: Self)
        ensures
            r == AnyFactor::Second(s),
    {
        AnyFactor::Second(s)
    }
}

/// The five concrete factors, as a closed set.
#[derive(Debug, Clone, Copy, PartialEq, Eq, Structural)]
pub enum FactorKind {
    Password,
    Totp,
    RecoveryCode,
    WebAuthn,
    Pgp,
}

/// The flow type each factor declares.
pub open spec fn kind_flow_type(k: FactorKind) -> FlowType {
    match k {
        FactorKind::Password => FlowType::Simple,
        FactorKind::Totp => FlowType::Simple,
        FactorKind::RecoveryCode => FlowType::Simple,
        FactorKind::WebAuthn => FlowType::RoundTrip,
        FactorKind::Pgp => FlowType::RoundTrip,
    }
}

/// The security level each factor declares.
pub open spec fn kind_security_level(k: FactorKind) -> SecurityLevel {
    match k {
        FactorKind::Password => SecurityLevel::Knowledge,
        FactorKind::Totp => SecurityLevel::Possession,
        FactorKind::RecoveryCode => SecurityLevel::Possession,
        FactorKind::WebAuthn => SecurityLevel::Hardware,
        FactorKind::Pgp => SecurityLevel::Possession,
    }
}

/// The role each factor declares. WebAuthn is declared `Primary` for its
/// passwordless use; when invoked as a second factor the policy, not the
/// credential, decides the role in effect.
pub open spec fn kind_role(k: FactorKind) -> FactorRole {
    match k {
        FactorKind::Password => FactorRole::Primary,
        FactorKind::Totp => FactorRole::MultiFactorOnly,
        FactorKind::RecoveryCode => FactorRole::MultiFactorOnly,
        FactorKind::WebAuthn => FactorRole::Primary,
        FactorKind::Pgp => FactorRole::Primary,
    }
}

impl FactorKind {
    /// The flow type this factor declares.
    pub fn flow_type(&self) -> (r: FlowType)
        ensures
            r == kind_flow_type(*self),
    {
        match self {
            FactorKind::Password => FlowType::Simple,
            FactorKind::Totp => FlowType::Simple,
            FactorKind::RecoveryCode => FlowType::Simple,
            FactorKind::WebAuthn => FlowType::RoundTrip,
            FactorKind::Pgp => FlowType::RoundTrip,
        }
    }

    /// The security level this factor declares.
    pub fn security_level(&self) -> (r: SecurityLevel)
        ensures
            r == kind_security_level(*self),
    {
        match self {
            FactorKind::Password => SecurityLevel::Knowledge,
            FactorKind::Totp => SecurityLevel::Possession,
            FactorKind::RecoveryCode => SecurityLevel::Possession,
            FactorKind::WebAuthn => SecurityLevel::Hardware,
            FactorKind::Pgp => SecurityLevel::Possession,
        }
    }

    /// The role this factor declares.
    pub fn role(&self) -> (r: FactorRole)
        ensures
            r == kind_role(*self),
    {
        match self {
            FactorKind::Password => FactorRole::Primary,
            FactorKind::Totp => FactorRole::MultiFactorOnly,
            FactorKind::RecoveryCode => FactorRole::MultiFactorOnly,
            FactorKind::WebAuthn => FactorRole::Primary,
            FactorKind::Pgp => FactorRole::Primary,
        }
    }
}

// ---------------------------------------------------------------------------
// Derived enabled-ness: the invariant every usability check consults.
// ---------------------------------------------------------------------------

/// Number of unused recovery codes in `codes`.
pub open spec fn unused_code_count(codes: Seq<RecoveryCodeFactor>) -> nat
    decreases codes.len(),
{
    if codes.len() == 0 {
        0
    } else {
        unused_code_count(codes.drop_last()) + if codes.last().used {
            0nat
        } else {
            1nat
        }
    }
}

/// The password factor is usable: a hash is stored.
pub open spec fn password_enabled(f: AuthFactors) -> bool {
    f.password.password_hash is Some
}

/// The TOTP factor is usable: a secret exists *and* confirmation completed.
/// A generated-but-unconfirmed secret is invisible to login.
pub open spec fn totp_enabled(f: AuthFactors) -> bool {
    f.totp matches Some(t) && t.fully_enabled
}

/// The WebAuthn factor is usable: at least one credential is registered.
pub open spec fn webauthn_enabled(f: AuthFactors) -> bool {
    f.webauthn@.len() > 0
}

/// The recovery-code factor is usable: at least one code is still unspent.
pub open spec fn recovery_codes_enabled(f: AuthFactors) -> bool {
    unused_code_count(f.recovery_codes@) > 0
}

/// The PGP factor is usable: a key is on file.
pub open spec fn pgp_enabled(f: AuthFactors) -> bool {
    f.pgp is Some
}

/// Whether the given factor is enabled for login purposes.
pub open spec fn factor_enabled(f: AuthFactors, k: FactorKind) -> bool {
    match k {
        FactorKind::Password => password_enabled(f),
        FactorKind::Totp => totp_enabled(f),
        FactorKind::RecoveryCode => recovery_codes_enabled(f),
        FactorKind::WebAuthn => webauthn_enabled(f),
        FactorKind::Pgp => pgp_enabled(f),
    }
}

/// How many `Primary`-role factors are enabled.
pub open spec fn primary_enabled_count(f: AuthFactors) -> int {
    (if password_enabled(f) {
        1int
    } else {
        0int
    }) + (if webauthn_enabled(f) {
        1int
    } else {
        0int
    }) + (if pgp_enabled(f) {
        1int
    } else {
        0int
    })
}

/// Count the unused recovery codes, saturating at `u8::MAX` as the public
/// view stores the count in a byte.
pub fn count_unused_codes(codes: &Vec<RecoveryCodeFactor>) -> (r: u8)
    ensures
        unused_code_count(codes@) <= 255 ==> r == unused_code_count(codes@),
        unused_code_count(codes@) > 255 ==> r == 255,
{
    let mut count: u8 = 0;
    let mut i: usize = 0;
    while i < codes.len()
        invariant
            i <= codes@.len(),
            unused_code_count(codes@.take(i as int)) <= 255 ==> count == unused_code_count(
                codes@.take(i as int),
            ),
            unused_code_count(codes@.take(i as int)) > 255 ==> count == 255,
        decreases codes@.len() - i,
    {
        proof {
            assert(codes@.take(i + 1).drop_last() =~= codes@.take(i as int));
            assert(codes@.take(i + 1).last() == codes@[i as int]);
        }
        if !codes[i].used && count < 255 {
            count = count + 1;
        } else if !codes[i].used {
            count = 255;
        }
        i = i + 1;
    }
    proof {
        assert(codes@.take(codes@.len() as int) =~= codes@);
    }
    count
}

/// True when at least one recovery code is unspent.
pub fn has_unused_code(codes: &Vec<RecoveryCodeFactor>) -> (r: bool)
    ensures
        r == (unused_code_count(codes@) > 0),
{
    let mut i: usize = 0;
    while i < codes.len()
        invariant
            i <= codes@.len(),
            unused_code_count(codes@.take(i as int)) == 0,
        decreases codes@.len() - i,
    {
        proof {
            assert(codes@.take(i + 1).drop_last() =~= codes@.take(i as int));
            assert(codes@.take(i + 1).last() == codes@[i as int]);
        }
        if !codes[i].used {
            proof {
                lemma_unused_count_take_bound(codes@, i as int);
            }
            return true;
        }
        i = i + 1;
    }
    proof {
        assert(codes@.take(codes@.len() as int) =~= codes@);
    }
    false
}

/// The unused count over the whole sequence is at least the count over a
/// prefix extended by one unspent code.
proof fn lemma_unused_count_take_bound(codes: Seq<RecoveryCodeFactor>, i: int)
    requires
        0 <= i < codes.len(),
        !codes[i].used,
    ensures
        unused_code_count(codes) >= unused_code_count(codes.take(i)) + 1,
    decreases codes.len(),
{
    if i == codes.len() - 1 {
        assert(codes.drop_last() =~= codes.take(i));
    } else {
        lemma_unused_count_take_bound(codes.drop_last(), i);
        assert(codes.drop_last().take(i) =~= codes.take(i));
    }
}

// ---------------------------------------------------------------------------
// Public (redacted) views
// ---------------------------------------------------------------------------

/// Public view of a TOTP enrollment: everything but the secret.
#[derive(Debug, Clone, PartialEq, Eq)]
pub struct PublicTOTPFactor {
    pub display_name: String,
    pub fully_enabled: bool,
}

/// Public view of the password factor: only whether one is set.
#[derive(Debug, Clone, PartialEq, Eq)]
pub struct PublicPasswordFactor {
    pub is_set: bool,
}

/// Public view of a WebAuthn credential: everything but the key state.
#[derive(Debug, Clone, PartialEq, Eq)]
pub struct PublicWebAuthnFactor {
    pub credential_id: String,
    pub display_name: String,
}

/// Public view of the recovery codes: only how many are left.
#[derive(Debug, Clone, PartialEq, Eq)]
pub struct PublicRecoveryCodeFactor {
    pub remaining_codes: u8,
}

/// Public view of a PGP key: everything but the key material.
#[derive(Debug, Clone, PartialEq, Eq)]
pub struct PublicPGPFactor {
    pub fingerprint: String,
    pub display_name: String,
}

/// Public view of the whole factor aggregate.
#[derive(Debug, Clone, PartialEq, Eq)]
pub struct PublicAuthFactors {
    pub totp: Option<PublicTOTPFactor>,
    pub webauthn: Vec<PublicWebAuthnFactor>,
    pub recovery_codes: PublicRecoveryCodeFactor,
    pub pgp: Vec<PublicPGPFactor>,
    pub password: PublicPasswordFactor,
    pub recent: RecentFactors,
}

impl TOTPFactor {
    /// The public view of this enrollment; the secret never leaves.
    pub fn to_public(&self) -> (r: PublicTOTPFactor)
        ensures
            r.display_name@ == self.display_name@,
            r.fully_enabled == self.fully_enabled,
    {
        PublicTOTPFactor {
            display_name: self.display_name.clone(),
            fully_enabled: self.fully_enabled,
        }
    }
}

impl WebAuthnFactor {
    /// The public view of this credential; the key state never leaves.
    pub fn to_public(&self) -> (r: PublicWebAuthnFactor)
        ensures
            r.credential_id@ == self.credential_id@,
            r.display_name@ == self.display_name@,
    {
        PublicWebAuthnFactor {
            credential_id: self.credential_id.clone(),
            display_name: self.display_name.clone(),
        }
    }
}

impl PGPFactor {
    /// The public view of this key: fingerprint and label only.
    pub fn to_public(&self) -> (r: PublicPGPFactor)
        ensures
            r.fingerprint@ == self.fingerprint@,
            r.display_name@ == self.display_name@,
    {
        PublicPGPFactor {
            fingerprint: self.fingerprint.clone(),
            display_name: self.display_name.clone(),
        }
    }
}

impl AuthFactors {
    /// The public view of the aggregate: secrets and hashes are reduced to
    /// presence bits, codes to a remaining count, credentials to their
    /// labels and identifiers.
    pub fn to_public(&self) -> (r: PublicAuthFactors)
        ensures
            r.totp is Some <==> self.totp is Some,
            self.totp matches Some(t) ==> r.totp matches Some(p) && p.display_name@
                == t.display_name@ && p.fully_enabled == t.fully_enabled,
            r.webauthn@.len() == self.webauthn@.len(),
            forall|i: int|
                0 <= i < self.webauthn@.len() ==> #[trigger] r.webauthn@[i].credential_id@
                    == self.webauthn@[i].credential_id@ && r.webauthn@[i].display_name@
                    == self.webauthn@[i].display_name@,
            unused_code_count(self.recovery_codes@) <= 255 ==> r.recovery_codes.remaining_codes
                == unused_code_count(self.recovery_codes@),
            unused_code_count(self.recovery_codes@) > 255 ==> r.recovery_codes.remaining_codes
                == 255,
            r.pgp@.len() == (if self.pgp is Some {
                1int
            } else {
                0int
            }),
            self.pgp matches Some(k) ==> r.pgp@[0].fingerprint@ == k.fingerprint@
                && r.pgp@[0].display_name@ == k.display_name@,
            r.password.is_set == password_enabled(*self),
            r.recent == self.recent,
    {
        let totp_public = match &self.totp {
            Some(t) => Some(t.to_public()),
            None => None,
        };

        let mut webauthn_public: Vec<PublicWebAuthnFactor> = Vec::new();
        let mut i: usize = 0;
        while i < self.webauthn.len()
            invariant
                i <= self.webauthn@.len(),
                webauthn_public@.len() == i,
                forall|j: int|
                    0 <= j < i ==> #[trigger] webauthn_public@[j].credential_id@
                        == self.webauthn@[j].credential_id@ && webauthn_public@[j].display_name@
                        == self.webauthn@[j].display_name@,
            decreases self.webauthn@.len() - i,
        {
            webauthn_public.push(self.webauthn[i].to_public());
            i = i + 1;
        }

        let mut pgp_public: Vec<PublicPGPFactor> = Vec::new();
        match &self.pgp {
            Some(k) => pgp_public.push(k.to_public()),
            None => (),
        }

        PublicAuthFactors {
            totp: totp_public,
            webauthn: webauthn_public,
            recovery_codes: PublicRecoveryCodeFactor {
                remaining_codes: count_unused_codes(&self.recovery_codes),
            },
            pgp: pgp_public,
            password: PublicPasswordFactor { is_set: self.password.password_hash.is_some() },
            recent: RecentFactors {
                first_factor: self.recent.first_factor,
                second_factor: self.recent.second_factor,
            },
        }
    }
}

// ---------------------------------------------------------------------------
// Mutations owned by the core
// ---------------------------------------------------------------------------

/// Record the factor used by a successful verification, as a UX hint.
pub fn set_recent_factor(factors: &mut AuthFactors, factor: AnyFactor)
    ensures
        factor matches AnyFactor::First(f) ==> final(factors).recent.first_factor == Some(f)
            && final(factors).recent.second_factor == old(factors).recent.second_factor,
        factor matches AnyFactor::Second(s) ==> final(factors).recent.second_factor == Some(s)
            && final(factors).recent.first_factor == old(factors).recent.first_factor,
        final(factors).totp == old(factors).totp,
        final(factors).webauthn == old(factors).webauthn,
        final(factors).recovery_codes == old(factors).recovery_codes,
        final(factors).pgp == old(factors).pgp,
        final(factors).password == old(factors).password,
{
    match factor {
        AnyFactor::First(f) => {
            factors.recent.first_factor = Some(f);
        },
        AnyFactor::Second(s) => {
            factors.recent.second_factor = Some(s);
        },
    }
}

/// The outcome `disable_factor` decides for a given aggregate and factor:
/// `NotEnabled` when the factor is not currently enabled, and
/// `CannotDisableOnlyPrimary` when the factor is the last enabled
/// `Primary`-role factor. At least one primary factor must always remain,
/// enforced at disable time.
pub open spec fn disable_decision(f: AuthFactors, k: FactorKind) -> Result<(), FactorError> {
    if !factor_enabled(f, k) {
        Err(FactorError::NotEnabled)
    } else if kind_role(k) is Primary && primary_enabled_count(f) == 1 {
        Err(FactorError::CannotDisableOnlyPrimary)
    } else {
        Ok(())
    }
}

/// Disable a factor: clears its enrollment state. Refuses to remove the
/// last enabled `Primary`-role factor, so a user can never lock themselves
/// out of every first factor.
pub fn disable_factor(factors: &mut AuthFactors, kind: FactorKind) -> (r: Result<(), FactorError>)
    ensures
        r == disable_decision(*old(factors), kind),
        r is Err ==> *final(factors) == *old(factors),
        r is Ok ==> !factor_enabled(*final(factors), kind),
        r is Ok && kind != FactorKind::Password ==> final(factors).password == old(
            factors,
        ).password,
        r is Ok && kind != FactorKind::Totp ==> final(factors).totp == old(factors).totp,
        r is Ok && kind != FactorKind::RecoveryCode ==> final(factors).recovery_codes == old(
            factors,
        ).recovery_codes,
        r is Ok && kind != FactorKind::WebAuthn ==> final(factors).webauthn == old(
            factors,
        ).webauthn,
        r is Ok && kind != FactorKind::Pgp ==> final(factors).pgp == old(factors).pgp,
        final(factors).recent == old(factors).recent,
{
    let enabled = match kind {
        FactorKind::Password => factors.password.password_hash.is_some(),
        FactorKind::Totp => match &factors.totp {
            Some(t) => t.fully_enabled,
            None => false,
        },
        FactorKind::RecoveryCode => has_unused_code(&factors.recovery_codes),
        FactorKind::WebAuthn => factors.webauthn.len() > 0,
        FactorKind::Pgp => factors.pgp.is_some(),
    };
    if !enabled {
        return Err(FactorError::NotEnabled);
    }

    let is_primary = match kind.role() {
        FactorRole::Primary => true,
        FactorRole::MultiFactorOnly => false,
    };
    if is_primary {
        let mut primary_count: u8 = 0;
        if factors.password.password_hash.is_some() {
            primary_count = primary_count + 1;
        }
        if factors.webauthn.len() > 0 {
            primary_count = primary_count + 1;
        }
        if factors.pgp.is_some() {
            primary_count = primary_count + 1;
        }
        if primary_count == 1 {
            return Err(FactorError::CannotDisableOnlyPrimary);
        }
    }

    match kind {
        FactorKind::Password => {
            factors.password.password_hash = None;
        },
        FactorKind::Totp => {
            factors.totp = None;
        },
        FactorKind::RecoveryCode => {
            factors.recovery_codes = Vec::new();
        },
        FactorKind::WebAuthn => {
            factors.webauthn = Vec::new();
        },
        FactorKind::Pgp => {
            factors.pgp = None;
        },
    }
    Ok(())
}

/// Law: for every user, disabling the last enabled `Primary`-role factor
/// fails with `CannotDisableOnlyPrimary`.
pub proof fn lemma_last_primary_cannot_be_disabled(f: AuthFactors, k: FactorKind)
    requires
        factor_enabled(f, k),
        kind_role(k) is Primary,
        primary_enabled_count(f) == 1,
    ensures
        disable_decision(f, k) == Err::<(), FactorError>(FactorError::CannotDisableOnlyPrimary),
{
}

} // verus!
