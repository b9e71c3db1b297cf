//! Trusted bindings to the process environment: randomness and the clock.

use vstd::prelude::*;

verus! {

/// Relies on rand::random_range over `0..bound`: a uniformly chosen index
/// strictly below `bound`; the call panics only on an empty range, which the
/// precondition rules out.
#[verifier::external_body]
pub(crate) fn random_index(bound: usize) -> (r: usize)
    requires
        bound > 0,
    ensures
        r < bound,
{
    rand::random_range(0..bound)
}

/// Relies on String::push: appends exactly the one character.
#[verifier::external_body]
pub(crate) fn push_char(s: &mut String, c: char)
    ensures
        final(s)@ == old(s)@.push(c),
{
    s.push(c);
}

/// Relies on std::time::SystemTime: milliseconds since the Unix epoch, or 0
/// if the clock reads earlier than the epoch, clamped into `i64`.
#[verifier::external_body]
pub(crate) fn now_millis() -> (r: i64)
    ensures
        r >= 0,
{
    match std::time::SystemTime::now().duration_since(std::time::SystemTime::UNIX_EPOCH) {
        Ok(d) => i64::try_from(d.as_millis()).unwrap_or(i64::MAX),
        Err(_) => 0,
    }
}

} // verus!
