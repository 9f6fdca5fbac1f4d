//! Draws of randomness, taken from the process-wide thread-local generator.
//! Every generator variant samples through these two functions; nothing is
//! promised of a draw beyond its range, so all callers are verified for every
//! outcome.
use vstd::prelude::*;

use rand::distr::SampleString;

verus! {

/// True of the characters that a generated field value may hold.
pub open spec fn is_alnum_char(c: char) -> bool {
    (48 <= c as u32 && c as u32 <= 57) || (65 <= c as u32 && c as u32 <= 90) || (97 <= c as u32
        && c as u32 <= 122)
}

/// Relies on rand's `random_range` over `0..n`: a value uniformly drawn from
/// that half-open range, from the thread-local generator.
#[verifier::external_body]
pub fn rand_index(n: u64) -> (r: u64)
    requires
        n > 0,
    ensures
        r < n,
{
    rand::random_range(0..n)
}

/// Relies on rand's `Alphanumeric` distribution and `SampleString`: a string
/// of exactly `len` characters, each drawn from a-z, A-Z and 0-9.
#[verifier::external_body]
pub fn rand_alphanumeric(len: usize) -> (r: String)
    ensures
        r@.len() == len,
        forall|i: int| 0 <= i < r@.len() ==> is_alnum_char(r@[i]),
{
    rand::distr::Alphanumeric.sample_string(&mut rand::rng(), len)
}

} // verus!
