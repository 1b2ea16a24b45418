//! Core of a multi-factor authentication service.
//!
//! The library models a pluggable set of credential factors (password, TOTP,
//! recovery codes, WebAuthn, PGP challenge), the policy that decides which
//! factors a user may use, and the session state machine that tracks a login
//! from `Anonymous` through `BeforeTwoFactor` to `Authenticated`.
//!
//! Storage, transport and session plumbing are external collaborators: every
//! public operation here works on plain values (the user record, the session
//! snapshot, the current time) and states its effect in its contract.

pub mod apps;
pub mod crypto;
pub mod factor;
pub mod model;
pub mod password;
pub mod pgp;
pub mod policy;
pub mod recovery;
pub mod register;
pub mod session;
pub mod text;
pub mod totp;
pub mod webauthn;
pub mod webauthn_proto;
