//! The one place where chance enters the crate.

use vstd::prelude::*;

verus! {

/// Flips a coin with `rand::random`, which draws a `bool` from the
/// thread-local generator.
///
/// Nothing is claimed of the outcome: either value may come back, and two
/// calls need not agree. Callers state what holds for both.
#[verifier::external_body]
pub(crate) fn coin_flip() -> (heads: bool) {
    rand::random()
}

} // verus!
