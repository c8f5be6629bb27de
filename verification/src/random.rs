use vstd::prelude::*;

verus! {

/// A fair coin from the thread-local generator of `fastrand` (`fastrand::bool`). Nothing is
/// stated of the result: it is random, and two calls may differ.
#[verifier::external_body]
pub(crate) fn random_bool() -> bool {
    fastrand::bool()
}

} // verus!
