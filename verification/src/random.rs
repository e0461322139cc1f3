use vstd::prelude::*;

verus! {

/// Relies on `rand::Rng::gen_range` on the thread-local generator: for a
/// non-empty range `0..n` it returns a uniformly distributed value of that
/// range. Nothing beyond membership in the range can be promised of a
/// random draw.
#[verifier::external_body]
pub(crate) fn random_index(n: usize) -> (r: usize)
    requires
        n >= 1,
    ensures
        r < n,
{
    rand::Rng::gen_range(&mut rand::thread_rng(), 0..n)
}

} // verus!
