//! Trusted boundary to the cryptographic collaborators: the memory-hard
//! password hash, the secure random source, the wall clock and Unicode
//! case mapping.
//!
//! Each function here is believed on its contract; the contract states only
//! what the called crate's source or documentation shows.

use vstd::prelude::*;

use crate::factor::FactorError;

verus! {

/// Whether the Argon2 verifier accepts `password` against the PHC-format
/// string `hash`. The outcome is a function of the two strings alone: the
/// verifier reads algorithm, parameters and salt out of `hash` itself.
pub uninterp spec fn argon2_verify_of(password: Seq<char>, hash: Seq<char>) -> bool;

/// Hash a password with Argon2id and a freshly generated random salt.
///
/// Relies on `argon2::PasswordHasher::hash_password` and the PHC round
/// trip: verifying a password against the hash just computed from it
/// succeeds, whatever salt was drawn.
#[verifier::external_body]
pub fn hash_password(password: &str) -> (r: Result<String, FactorError>)
    ensures
        r matches Ok(h) ==> argon2_verify_of(password@, h@),
{
    match argon2::PasswordHasher::hash_password(&argon2::Argon2::default(), password.as_bytes()) {
        Ok(hash) => Ok(hash.to_string()),
        Err(_) => Err(FactorError::Other),
    }
}

/// Verify a password against a stored PHC-format hash string.
///
/// Relies on `argon2::PasswordVerifier::verify_password`: the result is
/// deterministic in the password and the hash string, and is `false` both
/// on mismatch and on an unparsable hash.
#[verifier::external_body]
pub fn verify_password(password: &str, hash: &str) -> (r: bool)
    ensures
        r == argon2_verify_of(password@, hash@),
{
    argon2::PasswordVerifier::<str>::verify_password(
        &argon2::Argon2::default(),
        password.as_bytes(),
        hash,
    ).is_ok()
}

/// An ASCII letter or digit, the alphabet of generated codes and
/// challenges.
pub open spec fn is_alphanumeric_char(c: char) -> bool {
    ('a' <= c && c <= 'z') || ('A' <= c && c <= 'Z') || ('0' <= c && c <= '9')
}

/// Draw `len` characters uniformly from the 62-character alphanumeric
/// alphabet, using the thread-local CSPRNG.
///
/// Relies on `rand::distr::Alphanumeric`: its documentation fixes the
/// sample set to a-z, A-Z and 0-9, and `sample_string` to exactly `len`
/// samples.
#[verifier::external_body]
pub fn random_alphanumeric(len: usize) -> (r: String)
    ensures
        r@.len() == len,
        forall|i: int| 0 <= i < r@.len() ==> is_alphanumeric_char(#[trigger] r@[i]),
{
    rand::distr::SampleString::sample_string(&rand::distr::Alphanumeric, &mut rand::rng(), len)
}

/// A fresh version-4 UUID in hyphenated form.
///
/// Relies on `uuid::Uuid::new_v4` and its documented hyphenated encoding:
/// 32 hex digits in five groups, 36 characters in all. The value is random;
/// nothing else is assumed of it.
#[verifier::external_body]
pub fn generate_uuid_string() -> (r: String)
    ensures
        r@.len() == 36,
{
    uuid::Uuid::new_v4().to_string()
}

/// Seconds since the Unix epoch, from the system clock.
///
/// Relies on `std::time::SystemTime::now`. The value depends on the
/// machine's clock; nothing is assumed of it, and a clock before the epoch
/// reads as zero.
#[verifier::external_body]
pub fn now_unix_seconds() -> u64 {
    match std::time::SystemTime::now().duration_since(std::time::UNIX_EPOCH) {
        Ok(d) => d.as_secs(),
        Err(_) => 0,
    }
}

/// The Unicode uppercase mapping of one character, possibly several
/// characters long.
pub uninterp spec fn upper_of(c: char) -> Seq<char>;

/// Uppercase one character.
///
/// Relies on `char::to_uppercase`: the result is determined by the
/// character alone, per the Unicode case mapping tables.
#[verifier::external_body]
pub fn char_uppercase(c: char) -> (r: String)
    ensures
        r@ == upper_of(c),
{
    c.to_uppercase().collect::<String>()
}

} // verus!
