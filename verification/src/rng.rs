//! Trusted wrappers around the process-wide random source. Each draw is
//! independent; nothing relates two calls on the same arguments.

use vstd::prelude::*;
use rand::Rng;
use crate::strutil::is_alnum_char;

verus! {

/// Relies on rand::Rng::gen_range over `0..bound`: a uniform draw from a
/// range that `bound > 0` keeps nonempty, so the call does not panic and
/// the result is below `bound`.
#[verifier::external_body]
pub(crate) fn rand_below(bound: u64) -> (r: u64)
    requires
        bound > 0,
    ensures
        r < bound,
{
    rand::thread_rng().gen_range(0..bound)
}

/// Relies on rand::distributions::Alphanumeric: a uniform draw from the
/// 62-character alphabet `A-Z`, `a-z`, `0-9`, returned as a one-character
/// string.
#[verifier::external_body]
pub(crate) fn rand_alnum_char() -> (r: String)
    ensures
        r@.len() == 1,
        is_alnum_char(r@[0]),
{
    let b: u8 = rand::thread_rng().sample(rand::distributions::Alphanumeric);
    char::from(b).to_string()
}

} // verus!
