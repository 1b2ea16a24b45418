//! The factor contract: the static metadata every authentication factor
//! declares (flow type, security level, role) and the error taxonomy shared
//! by all factor operations.

use vstd::prelude::*;

verus! {

/// How a factor completes authentication.
///
/// `Simple` factors authenticate in a single call; `RoundTrip` factors issue
/// a challenge first and complete authentication in a separate response call.
#[derive(Debug, Clone, Copy, PartialEq, Eq, Structural)]
pub enum FlowType {
    /// The user provides credentials and is authenticated in a single step.
    Simple,
    /// A challenge is issued by the factor and answered by the user in a
    /// second call to complete authentication.
    RoundTrip,
}

/// How much security a factor provides, ordered weakest to strongest:
/// `Knowledge < OutOfBand < Possession < Hardware`.
#[derive(Debug, Clone, Copy, PartialEq, Eq, Structural)]
pub enum SecurityLevel {
    /// A password or similar knowledge-based factor.
    Knowledge,
    /// A factor relying on an external channel, such as SMS or email codes.
    OutOfBand,
    /// A possession-based software-backed factor, such as TOTP.
    Possession,
    /// A possession-based hardware-backed factor, such as a security key.
    Hardware,
}

/// Whether a factor is sufficient alone or only usable alongside others.
#[derive(Debug, Clone, Copy, PartialEq, Eq, Structural)]
pub enum FactorRole {
    /// Can be used alone as the first authentication factor.
    Primary,
    /// Can only be used as an additional factor, never alone.
    MultiFactorOnly,
}

/// Numeric rank of a security level, used to compare strength.
pub open spec fn level_rank(l: SecurityLevel) -> int {
    match l {
        SecurityLevel::Knowledge => 0,
        SecurityLevel::OutOfBand => 1,
        SecurityLevel::Possession => 2,
        SecurityLevel::Hardware => 3,
    }
}

impl SecurityLevel {
    /// The rank of this level in the weakest-to-strongest order.
    pub fn rank(&self) -> (r: u8)
        ensures
            r as int == level_rank(*self),
    {
        match self {
            SecurityLevel::Knowledge => 0,
            SecurityLevel::OutOfBand => 1,
            SecurityLevel::Possession => 2,
            SecurityLevel::Hardware => 3,
        }
    }

    /// True when `self` provides at least the strength of `other`.
    pub fn at_least(&self, other: &SecurityLevel) -> (r: bool)
        ensures
            r == (level_rank(*self) >= level_rank(*other)),
    {
        self.rank() >= other.rank()
    }
}

/// The errors a factor operation can report.
///
/// Verifiers never reveal which precondition failed on an `Unauthorized`
/// path: a missing user, a missing factor and a credential mismatch all
/// collapse into the same variant.
#[derive(Debug, Clone, Copy, PartialEq, Eq, Structural)]
pub enum FactorError {
    /// The operation is invalid for the current enrollment state.
    NotEnabled,
    /// Enable was called while the factor is already enabled.
    AlreadyEnabled,
    /// Disabling would leave the user with zero `Primary` factors.
    CannotDisableOnlyPrimary,
    /// Credential, signature or code mismatch, or an expired or missing
    /// challenge.
    Unauthorized,
    /// Malformed input, such as an unparsable key.
    BadRequest,
    /// Unexpected collaborator failure, surfaced opaquely.
    Other,
}

impl FactorError {
    /// A caller-facing message for this error; never names the precondition
    /// that failed on an `Unauthorized` path.
    pub fn message(&self) -> String {
        match self {
            FactorError::NotEnabled => String::from_str("Factor is not enabled"),
            FactorError::AlreadyEnabled => String::from_str("Factor is already enabled"),
            FactorError::CannotDisableOnlyPrimary => String::from_str(
                "Cannot disable the only remaining primary factor",
            ),
            FactorError::Unauthorized => String::from_str("Unauthorized"),
            FactorError::BadRequest => String::from_str("Bad request"),
            FactorError::Other => String::from_str("Internal error"),
        }
    }
}

/// Error body returned when a request is not authorized.
#[derive(Debug, Clone, PartialEq, Eq)]
pub struct UnauthorizedError {
    pub error: String,
}

/// Error body returned for a failed password login; identical whether the
/// user does not exist, has no password or supplied the wrong password.
#[derive(Debug, Clone, PartialEq, Eq)]
pub struct InvalidUserOrPass {
    pub error: String,
}

/// Error body returned for an invalid TOTP code.
#[derive(Debug, Clone, PartialEq, Eq)]
pub struct Invalid2faCode {
    pub error: String,
}

/// Error body returned for an invalid or already-used recovery code.
#[derive(Debug, Clone, PartialEq, Eq)]
pub struct InvalidRecoveryCode {
    pub error: String,
}

/// Error body returned when enable is called for an already-enabled factor.
#[derive(Debug, Clone, PartialEq, Eq)]
pub struct AlreadyEnabledError {
    pub error: String,
}

/// Error body returned for malformed input.
#[derive(Debug, Clone, PartialEq, Eq)]
pub struct BadRequestError {
    pub error: String,
}

/// Which router a generated factor endpoint is mounted under.
#[derive(Debug, Clone, Copy, PartialEq, Eq, Structural)]
pub enum EndpointBasePath {
    /// Endpoints that perform authentication.
    Authentication,
    /// Endpoints that manage enrollment of factors.
    Management,
}

impl EndpointBasePath {
    /// The URL prefix for endpoints in this group.
    pub fn base_path(&self) -> (r: &'static str)
        ensures
            self is Authentication ==> r@ == "/api/auth/factors"@,
            self is Management ==> r@ == "/api/settings/factors"@,
    {
        match self {
            EndpointBasePath::Authentication => "/api/auth/factors",
            EndpointBasePath::Management => "/api/settings/factors",
        }
    }
}

/// The per-factor options of the endpoint group: where it is mounted and
/// whether enabling needs a separate confirmation call.
#[derive(Debug, Clone, PartialEq, Eq)]
pub struct FactorArgs {
    /// Path segment the factor's endpoints live under.
    pub path: String,
    /// Whether `enable` must be followed by `confirm_enable`.
    pub requires_confirmation: bool,
}

/// A definition of one generated factor endpoint.
#[derive(Debug, Clone, PartialEq, Eq)]
pub struct HandlerDefinition {
    /// Name of the factor operation (for example `authenticate`).
    pub method: &'static str,
    /// Which router the endpoint is mounted under.
    pub endpoint_base_path: EndpointBasePath,
    /// Path segment of the endpoint (for example `enable/confirm`).
    pub endpoint: &'static str,
    /// Name of the operation's request type.
    pub request_type: &'static str,
    /// Name of the operation's response type.
    pub response_type: &'static str,
}

} // verus!
