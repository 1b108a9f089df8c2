//! The kernel's single source of randomness.
//!
//! Topology wiring, synaptic parameter draws and the Izhikevich thalamic
//! noise all reduce their needs to one primitive: a draw below a positive
//! bound. Everything built on top of it (Bernoulli trials, ranged draws) is
//! verified code in the modules that need it.

use vstd::prelude::*;
use rand::Rng;

verus! {

/// Relies on `rand::Rng::gen_range` over `0..n`: the draw lies in
/// `[0, n)`, and the call panics only on an empty range, which `n >= 1`
/// rules out. Nothing is assumed about the distribution of the result.
#[verifier::external_body]
pub(crate) fn random_below(n: u64) -> (r: u64)
    requires
        n >= 1,
    ensures
        r < n,
{
    rand::thread_rng().gen_range(0..n)
}

} // verus!
