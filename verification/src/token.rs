//! Random token generation and the shape of a well-formed token.

use vstd::prelude::*;

verus! {

/// Number of characters in a generated token.
pub const TOKEN_LEN: usize = 10;

/// An alphanumeric character: a lower-case letter, an upper-case letter or a
/// decimal digit.
pub open spec fn is_alnum(c: char) -> bool {
    (('a' as u32) <= (c as u32) && (c as u32) <= ('z' as u32))
        || (('A' as u32) <= (c as u32) && (c as u32) <= ('Z' as u32))
        || (('0' as u32) <= (c as u32) && (c as u32) <= ('9' as u32))
}

/// A token of exactly `n` characters, all of them alphanumeric.
pub open spec fn is_token_shaped(s: Seq<char>, n: nat) -> bool {
    s.len() == n && (forall|i: int| 0 <= i < s.len() ==> is_alnum(s[i]))
}

/// Relies on rand's `Alphanumeric` distribution with
/// `SampleString::sample_string`: the sampled string has exactly `n`
/// characters, each drawn uniformly from a-z, A-Z and 0-9. Each call draws
/// fresh randomness, so nothing relates one result to another.
#[verifier::external_body]
pub(crate) fn generate_token(n: usize) -> (r: String)
    ensures
        is_token_shaped(r@, n as nat),
{
    rand::distr::SampleString::sample_string(&rand::distr::Alphanumeric, &mut rand::rng(), n)
}

} // verus!
