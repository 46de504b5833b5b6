use vstd::prelude::*;
use rand::Rng;

verus! {

/// A number drawn from `lo..=hi` by `rand`'s thread-local generator
/// (`rand::rng().random_range(lo..=hi)`, which panics only on an empty
/// range). The contract claims that the number lies in the range and
/// nothing about which one comes: that is chance.
#[verifier::external_body]
pub(crate) fn random_in(lo: usize, hi: usize) -> (r: usize)
    requires
        lo <= hi,
    ensures
        lo <= r <= hi,
{
    rand::rng().random_range(lo..=hi)
}

} // verus!
