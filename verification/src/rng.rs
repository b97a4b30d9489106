//! The random source: uniformly distributed integers in an inclusive range.

use vstd::prelude::*;

verus! {

/// Relies on `rand::random_range`: returns an integer drawn uniformly from
/// `low..=high`, using the thread-local generator. The call panics only on
/// an empty range, which the precondition rules out. Nothing beyond the
/// bounds can be promised of a random draw.
#[verifier::external_body]
pub(crate) fn uniform_integer(low: i32, high: i32) -> (r: i32)
    requires
        low <= high,
    ensures
        low <= r <= high,
{
    rand::random_range(low..=high)
}

/// Generates and returns a random number between 1 and 10, inclusive.
pub fn get_random() -> (r: i32)
    ensures
        1 <= r <= 10,
{
    uniform_integer(1, 10)
}

} // verus!
