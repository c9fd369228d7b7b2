//! Random numbers.

use rand::Rng;
use vstd::prelude::*;

verus! {

/// `rand`'s `Rng::gen_range` over an inclusive range, on the thread's generator.
/// The contract claims that the number lies in the range; which one it is, is
/// left to chance.
#[verifier::external_body]
pub(crate) fn draw(lo: u32, hi: u32) -> (r: u32)
    requires
        lo <= hi,
    ensures
        lo <= r <= hi,
{
    rand::thread_rng().gen_range(lo..=hi)
}

} // verus!
