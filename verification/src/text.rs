//! Small text helpers: username validation and capitalization.

use vstd::prelude::*;

use crate::crypto::{char_uppercase, upper_of};
use crate::factor::FactorError;

verus! {

/// Characters a username may contain: ASCII lowercase letters, digits,
/// hyphen and underscore.
pub open spec fn valid_username_char(c: char) -> bool {
    ('a' <= c && c <= 'z') || ('0' <= c && c <= '9') || c == '-' || c == '_'
}

/// Every character of `s` is a valid username character.
pub open spec fn valid_username(s: Seq<char>) -> bool {
    forall|i: int| 0 <= i < s.len() ==> valid_username_char(#[trigger] s[i])
}

/// Whether `s` is an acceptable username: only ASCII lowercase letters,
/// digits, hyphens and underscores.
pub fn is_valid_username(s: &str) -> (r: bool)
    ensures
        r == valid_username(s@),
{
    let len = s.unicode_len();
    let mut i: usize = 0;
    while i < len
        invariant
            len == s@.len(),
            i <= len,
            forall|j: int| 0 <= j < i ==> valid_username_char(#[trigger] s@[j]),
        decreases len - i,
    {
        let c = s.get_char(i);
        let ok = ('a' <= c && c <= 'z') || ('0' <= c && c <= '9') || c == '-' || c == '_';
        if !ok {
            return false;
        }
        i = i + 1;
    }
    true
}

/// Accept a username or reject it as malformed.
pub fn username_validator(s: &str) -> (r: Result<(), FactorError>)
    ensures
        r is Ok <==> valid_username(s@),
        r is Err ==> r == Err::<(), FactorError>(FactorError::BadRequest),
{
    if !is_valid_username(s) {
        return Err(FactorError::BadRequest);
    }
    Ok(())
}

/// What capitalization produces: the uppercase mapping of the first
/// character followed by the rest unchanged; the empty string stays empty.
pub open spec fn capitalized(s: Seq<char>) -> Seq<char> {
    if s.len() == 0 {
        Seq::empty()
    } else {
        upper_of(s[0]) + s.subrange(1, s.len() as int)
    }
}

/// Uppercase the first character of `s`, leaving the rest unchanged.
pub fn capitalize_first(s: &str) -> (r: String)
    ensures
        r@ == capitalized(s@),
{
    let len = s.unicode_len();
    if len == 0 {
        return String::new();
    }
    let first = s.get_char(0);
    let rest = s.substring_char(1, len);
    let mut r = char_uppercase(first);
    r.append(rest);
    r
}

} // verus!
