//! The recovery-code verifier: a `Simple`, `Possession`-level,
//! `MultiFactorOnly` factor.
//!
//! Enabling generates a batch of random alphanumeric codes, stores one
//! independent Argon2 hash per code and returns the plaintext exactly once;
//! regenerating replaces the whole set and is destructive. Redemption finds
//! the first stored hash the submitted code verifies against and spends it
//! with a compare-and-set, so a code is accepted at most once even under
//! concurrent attempts.

use vstd::prelude::*;

use crate::crypto::{argon2_verify_of, hash_password, is_alphanumeric_char, random_alphanumeric};
use crate::factor::FactorError;
use crate::model::{AnyFactor, RecoveryCodeFactor, SecondFactor, User, set_recent_factor};
use crate::policy::SuccessfulLoginResponse;
use crate::session::{AuthSession, AuthState};

verus! {

/// Generate one random alphanumeric recovery code of the given length.
pub fn generate_recovery_code(len: usize) -> (r: String)
    ensures
        r@.len() == len,
        forall|i: int| 0 <= i < r@.len() ==> is_alphanumeric_char(#[trigger] r@[i]),
{
    random_alphanumeric(len)
}

/// Generate `count` random alphanumeric recovery codes of `code_length`
/// characters each.
pub fn generate_recovery_codes(count: usize, code_length: usize) -> (r: Vec<String>)
    ensures
        r@.len() == count,
        forall|i: int| 0 <= i < r@.len() ==> (#[trigger] r@[i])@.len() == code_length,
        forall|i: int, j: int|
            0 <= i < r@.len() && 0 <= j < (#[trigger] r@[i])@.len() ==> is_alphanumeric_char(
                #[trigger] r@[i]@[j],
            ),
{
    let mut codes: Vec<String> = Vec::new();
    let mut n: usize = 0;
    while n < count
        invariant
            n <= count,
            codes@.len() == n,
            forall|i: int| 0 <= i < codes@.len() ==> (#[trigger] codes@[i])@.len() == code_length,
            forall|i: int, j: int|
                0 <= i < codes@.len() && 0 <= j < (#[trigger] codes@[i])@.len()
                    ==> is_alphanumeric_char(#[trigger] codes@[i]@[j]),
        decreases count - n,
    {
        codes.push(generate_recovery_code(code_length));
        n = n + 1;
    }
    codes
}

/// Hash each code independently with Argon2id and a per-code salt.
pub fn hash_recovery_codes(codes: &Vec<String>) -> (r: Result<Vec<String>, FactorError>)
    ensures
        r matches Ok(v) ==> v@.len() == codes@.len() && forall|i: int|
            0 <= i < v@.len() ==> argon2_verify_of(codes@[i]@, (#[trigger] v@[i])@),
{
    let mut hashes: Vec<String> = Vec::new();
    let mut n: usize = 0;
    while n < codes.len()
        invariant
            n <= codes@.len(),
            hashes@.len() == n,
            forall|i: int|
                0 <= i < hashes@.len() ==> argon2_verify_of(codes@[i]@, (#[trigger] hashes@[i])@),
        decreases codes@.len() - n,
    {
        match hash_password(codes[n].as_str()) {
            Ok(h) => hashes.push(h),
            Err(e) => {
                return Err(e);
            },
        }
        n = n + 1;
    }
    Ok(hashes)
}

/// The first stored entry the submitted code verifies against, used or
/// not; `None` when the code matches no entry.
pub open spec fn first_match(code: Seq<char>, hashes: Seq<RecoveryCodeFactor>) -> Option<int>
    decreases hashes.len(),
{
    if hashes.len() == 0 {
        None
    } else if argon2_verify_of(code, hashes.first().code_hash@) {
        Some(0)
    } else {
        match first_match(code, hashes.drop_first()) {
            None => None,
            Some(i) => Some(i + 1),
        }
    }
}

proof fn lemma_first_match_none(code: Seq<char>, hashes: Seq<RecoveryCodeFactor>)
    requires
        forall|j: int| 0 <= j < hashes.len() ==> !argon2_verify_of(
            code,
            (#[trigger] hashes[j]).code_hash@,
        ),
    ensures
        first_match(code, hashes) is None,
    decreases hashes.len(),
{
    if hashes.len() > 0 {
        assert(hashes[0] == hashes.first());
        lemma_first_match_none(code, hashes.drop_first());
    }
}

proof fn lemma_first_match_at(code: Seq<char>, hashes: Seq<RecoveryCodeFactor>, i: int)
    requires
        0 <= i < hashes.len(),
        forall|j: int| 0 <= j < i ==> !argon2_verify_of(
            code,
            (#[trigger] hashes[j]).code_hash@,
        ),
        argon2_verify_of(code, hashes[i].code_hash@),
    ensures
        first_match(code, hashes) == Some(i),
    decreases i,
{
    if i == 0 {
        assert(hashes[0] == hashes.first());
    } else {
        assert(hashes[0] == hashes.first());
        assert(!argon2_verify_of(code, hashes.first().code_hash@));
        assert(forall|j: int|
            0 <= j < i - 1 ==> hashes.drop_first()[j] == #[trigger] hashes[j + 1]);
        assert(hashes.drop_first()[i - 1] == hashes[i]);
        lemma_first_match_at(code, hashes.drop_first(), i - 1);
    }
}

/// Find the first stored entry the submitted code verifies against.
pub fn find_code_index(code: &str, hashes: &Vec<RecoveryCodeFactor>) -> (r: Option<usize>)
    ensures
        r matches Some(i) ==> i < hashes@.len() && first_match(code@, hashes@) == Some(i as int),
        r is None <==> first_match(code@, hashes@) is None,
{
    let mut n: usize = 0;
    while n < hashes.len()
        invariant
            n <= hashes@.len(),
            forall|j: int| 0 <= j < n ==> !argon2_verify_of(
                code@,
                (#[trigger] hashes@[j]).code_hash@,
            ),
        decreases hashes@.len() - n,
    {
        if crate::crypto::verify_password(code, hashes[n].code_hash.as_str()) {
            proof {
                lemma_first_match_at(code@, hashes@, n as int);
            }
            return Some(n);
        }
        n = n + 1;
    }
    proof {
        lemma_first_match_none(code@, hashes@);
    }
    None
}

/// What redeeming a submitted code against the stored set decides: the
/// first entry it verifies against must exist and be unspent. A code that
/// matches nothing and a code that was already used both answer
/// `Unauthorized`.
pub open spec fn verify_code_result(code: Seq<char>, hashes: Seq<RecoveryCodeFactor>) -> Result<
    int,
    FactorError,
> {
    match first_match(code, hashes) {
        None => Err(FactorError::Unauthorized),
        Some(i) => {
            if hashes[i].used {
                Err(FactorError::Unauthorized)
            } else {
                Ok(i)
            }
        },
    }
}

/// Verify a submitted code against the stored hashes and return the hash of
/// the entry to spend, or `Unauthorized` when the code matches nothing or
/// its entry is already used.
pub fn verify_recovery_code(code: &str, hashes: &Vec<RecoveryCodeFactor>) -> (r: Result<
    String,
    FactorError,
>)
    ensures
        r is Ok <==> verify_code_result(code@, hashes@) is Ok,
        r matches Ok(h) ==> verify_code_result(code@, hashes@) matches Ok(i) && h@
            == hashes@[i].code_hash@,
        r matches Err(e) ==> e == FactorError::Unauthorized,
{
    match find_code_index(code, hashes) {
        None => Err(FactorError::Unauthorized),
        Some(i) => {
            if hashes[i].used {
                Err(FactorError::Unauthorized)
            } else {
                Ok(hashes[i].code_hash.clone())
            }
        },
    }
}

/// Atomically spend the entry at `i`: succeeds and marks it used exactly
/// when it was still unspent. This is the compare-and-set the redemption
/// is keyed on; under concurrent attempts the store linearizes the two
/// calls, so the second sees `used` already true and fails.
pub fn redeem_code_at(codes: &mut Vec<RecoveryCodeFactor>, i: usize) -> (r: bool)
    requires
        i < old(codes)@.len(),
    ensures
        r == !old(codes)@[i as int].used,
        final(codes)@.len() == old(codes)@.len(),
        final(codes)@[i as int].used,
        final(codes)@[i as int].code_hash == old(codes)@[i as int].code_hash,
        forall|j: int|
            0 <= j < old(codes)@.len() && j != i ==> final(codes)@[j] == #[trigger] old(
                codes,
            )@[j],
{
    let was_unused = !codes[i].used;
    let hash = codes[i].code_hash.clone();
    codes.set(i, RecoveryCodeFactor { code_hash: hash, used: true });
    was_unused
}

/// Whether the compare-and-set at `i` succeeds: exactly on an unspent
/// entry.
pub open spec fn cas_succeeds(codes: Seq<RecoveryCodeFactor>, i: int) -> bool {
    !codes[i].used
}

/// The stored set after the compare-and-set at `i` spent the entry.
pub open spec fn cas_after(codes: Seq<RecoveryCodeFactor>, i: int) -> Seq<RecoveryCodeFactor> {
    codes.update(i, RecoveryCodeFactor { code_hash: codes[i].code_hash, used: true })
}

/// Law: redeeming the same entry twice succeeds exactly once. The first
/// compare-and-set spends the entry; the second finds it spent and fails.
/// Concurrent redemption of the same code linearizes to exactly this
/// sequence, so two concurrent callers get exactly one success between
/// them.
pub proof fn lemma_double_redeem_fails(codes: Seq<RecoveryCodeFactor>, i: int)
    requires
        0 <= i < codes.len(),
        cas_succeeds(codes, i),
    ensures
        !cas_succeeds(cas_after(codes, i), i),
{
}

/// Law: after a code's entry is spent, redeeming the same code again is
/// refused. The code still verifies against the same first entry, but that
/// entry is now used, so the decision is `Unauthorized`.
pub proof fn lemma_code_single_use(code: Seq<char>, hashes: Seq<RecoveryCodeFactor>, i: int)
    requires
        verify_code_result(code, hashes) == Ok::<int, FactorError>(i),
    ensures
        0 <= i < hashes.len(),
        verify_code_result(
            code,
            hashes.update(i, RecoveryCodeFactor { code_hash: hashes[i].code_hash, used: true }),
        ) == Err::<int, FactorError>(FactorError::Unauthorized),
    decreases hashes.len(),
{
    lemma_first_match_bounds(code, hashes);
    let updated = hashes.update(
        i,
        RecoveryCodeFactor { code_hash: hashes[i].code_hash, used: true },
    );
    assert(forall|j: int|
        0 <= j < hashes.len() ==> (#[trigger] updated[j]).code_hash@ == hashes[j].code_hash@);
    lemma_first_match_same_hashes(code, hashes, updated);
}

/// The index `first_match` answers is always in range.
proof fn lemma_first_match_bounds(code: Seq<char>, hashes: Seq<RecoveryCodeFactor>)
    ensures
        first_match(code, hashes) matches Some(i) ==> 0 <= i < hashes.len()
            && argon2_verify_of(code, hashes[i].code_hash@),
    decreases hashes.len(),
{
    if hashes.len() > 0 {
        assert(hashes[0] == hashes.first());
        lemma_first_match_bounds(code, hashes.drop_first());
        assert(forall|j: int|
            0 <= j < hashes.len() - 1 ==> hashes.drop_first()[j] == #[trigger] hashes[j + 1]);
    }
}

/// `first_match` only reads the hashes, so two sets that agree on every
/// hash agree on the match.
proof fn lemma_first_match_same_hashes(
    code: Seq<char>,
    a: Seq<RecoveryCodeFactor>,
    b: Seq<RecoveryCodeFactor>,
)
    requires
        a.len() == b.len(),
        forall|j: int| 0 <= j < a.len() ==> (#[trigger] a[j]).code_hash@ == b[j].code_hash@,
    ensures
        first_match(code, a) == first_match(code, b),
    decreases a.len(),
{
    if a.len() > 0 {
        assert(a[0] == a.first());
        assert(b[0] == b.first());
        assert(forall|j: int| 0 <= j < a.len() - 1 ==> a.drop_first()[j] == #[trigger] a[j + 1]);
        assert(forall|j: int| 0 <= j < b.len() - 1 ==> b.drop_first()[j] == #[trigger] b[j + 1]);
        lemma_first_match_same_hashes(code, a.drop_first(), b.drop_first());
    }
}

/// The response to enabling recovery codes: the plaintext codes, shown
/// exactly once.
#[derive(Debug, Clone, PartialEq, Eq)]
pub struct EnableRecoveryCodesResponse {
    /// The generated codes; they cannot be retrieved again.
    pub codes: Vec<String>,
}

/// Generate a fresh batch of recovery codes for a user and store their
/// hashes. **The previous set, spent or not, is replaced**: regeneration is
/// a documented destructive operation.
pub fn enable_recovery_codes(user: &mut User, count: usize, code_length: usize) -> (r: Result<
    EnableRecoveryCodesResponse,
    FactorError,
>)
    ensures
        r is Err ==> *final(user) == *old(user) && r == Err::<
            EnableRecoveryCodesResponse,
            FactorError,
        >(FactorError::Other),
        r matches Ok(resp) ==> ({
            &&& resp.codes@.len() == count
            &&& forall|i: int|
                0 <= i < resp.codes@.len() ==> (#[trigger] resp.codes@[i])@.len() == code_length
            &&& final(user).auth_factors.recovery_codes@.len() == count
            &&& forall|i: int|
                0 <= i < count ==> !(#[trigger] final(user).auth_factors.recovery_codes@[i]).used
                    && argon2_verify_of(
                    resp.codes@[i]@,
                    final(user).auth_factors.recovery_codes@[i].code_hash@,
                )
            &&& final(user).auth_factors.totp == old(user).auth_factors.totp
            &&& final(user).auth_factors.webauthn == old(user).auth_factors.webauthn
            &&& final(user).auth_factors.pgp == old(user).auth_factors.pgp
            &&& final(user).auth_factors.password == old(user).auth_factors.password
            &&& final(user).auth_factors.recent == old(user).auth_factors.recent
        }),
{
    let codes = generate_recovery_codes(count, code_length);
    let hashed = match hash_recovery_codes(&codes) {
        Ok(h) => h,
        Err(_) => {
            return Err(FactorError::Other);
        },
    };

    let mut db_codes: Vec<RecoveryCodeFactor> = Vec::new();
    let mut n: usize = 0;
    while n < hashed.len()
        invariant
            n <= hashed@.len(),
            hashed@.len() == codes@.len(),
            db_codes@.len() == n,
            forall|i: int|
                0 <= i < hashed@.len() ==> argon2_verify_of(
                    codes@[i]@,
                    (#[trigger] hashed@[i])@,
                ),
            forall|i: int|
                0 <= i < db_codes@.len() ==> !(#[trigger] db_codes@[i]).used
                    && db_codes@[i].code_hash@ == hashed@[i]@,
        decreases hashed@.len() - n,
    {
        db_codes.push(RecoveryCodeFactor { code_hash: hashed[n].clone(), used: false });
        n = n + 1;
    }

    user.auth_factors.recovery_codes = db_codes;
    Ok(EnableRecoveryCodesResponse { codes })
}

/// What a recovery-code login decides: the user must exist and the code
/// must verify against an unspent stored hash; every refusal answers
/// `Unauthorized`.
pub open spec fn recovery_login_result(user: Option<User>, code: Seq<char>) -> Result<
    int,
    FactorError,
> {
    match user {
        None => Err(FactorError::Unauthorized),
        Some(u) => verify_code_result(code, u.auth_factors.recovery_codes@),
    }
}

/// Log in with a recovery code as the second factor.
///
/// `user` is the lookup result for the session's user id. On success the
/// matched code is spent — atomically against concurrent redemption of the
/// same code — the session is fully authenticated and the recent second
/// factor is recorded.
pub fn login_with_recovery_code(
    session: &mut AuthSession,
    user: &mut Option<User>,
    code: &str,
) -> (r: Result<SuccessfulLoginResponse, FactorError>)
    ensures
        r is Ok <==> recovery_login_result(*old(user), code@) is Ok,
        r matches Err(e) ==> e == FactorError::Unauthorized,
        r is Err ==> *final(session) == *old(session) && *final(user) == *old(user),
        r matches Ok(resp) ==> (*old(user)) matches Some(u) && ({
            let codes = u.auth_factors.recovery_codes@;
            &&& !resp.two_factor_required && resp.second_factors is None && resp.recent_factor
                is None
            &&& final(session).auth_state == Some(AuthState::Authenticated)
            &&& final(session).user_id == old(session).user_id
            &&& final(session).webauthn_reg_state == old(session).webauthn_reg_state
            &&& final(session).webauthn_display_name == old(session).webauthn_display_name
            &&& final(session).webauthn_login_state == old(session).webauthn_login_state
            &&& final(session).pgp_challenge == old(session).pgp_challenge
            &&& recovery_login_result(*old(user), code@) matches Ok(i) && (*final(user)) matches Some(
                w,
            ) && ({
                &&& w.auth_factors.recovery_codes@.len() == codes.len()
                &&& w.auth_factors.recovery_codes@[i].used
                &&& w.auth_factors.recovery_codes@[i].code_hash == codes[i].code_hash
                &&& forall|j: int|
                    0 <= j < codes.len() && j != i ==> w.auth_factors.recovery_codes@[j]
                        == #[trigger] codes[j]
                &&& w.auth_factors.recent.second_factor == Some(SecondFactor::RecoveryCode)
                &&& w.auth_factors.recent.first_factor == u.auth_factors.recent.first_factor
                &&& w.auth_factors.totp == u.auth_factors.totp
                &&& w.auth_factors.webauthn == u.auth_factors.webauthn
                &&& w.auth_factors.pgp == u.auth_factors.pgp
                &&& w.auth_factors.password == u.auth_factors.password
            })
        }),
{
    let u = match user {
        Some(u) => u,
        None => {
            return Err(FactorError::Unauthorized);
        },
    };

    let idx = match find_code_index(code, &u.auth_factors.recovery_codes) {
        Some(i) => i,
        None => {
            return Err(FactorError::Unauthorized);
        },
    };

    if u.auth_factors.recovery_codes[idx].used {
        return Err(FactorError::Unauthorized);
    }

    let spent = redeem_code_at(&mut u.auth_factors.recovery_codes, idx);
    proof {
        // The entry was just seen unspent, so the compare-and-set succeeded.
        assert(spent);
    }

    set_recent_factor(&mut u.auth_factors, AnyFactor::from_second(SecondFactor::RecoveryCode));
    session.auth_state = Some(AuthState::Authenticated);

    Ok(
        SuccessfulLoginResponse {
            two_factor_required: false,
            second_factors: None,
            recent_factor: None,
        },
    )
}

} // verus!
