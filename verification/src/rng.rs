//! The one place where chance comes in.
use vstd::prelude::*;
use rand::Rng;

verus! {

/// Draws an index below `len` with `rand::Rng::gen_range` on the thread's generator,
/// which samples the half-open range `0..len` and panics on an empty one. All that is
/// claimed of the draw is that it lies in the range.
#[verifier::external_body]
pub(crate) fn random_index(len: usize) -> (idx: usize)
    requires
        len > 0,
    ensures
        idx < len,
{
    rand::thread_rng().gen_range(0..len)
}

} // verus!
