//! The game's one source of chance.

use rand::Rng;
use vstd::prelude::*;

verus! {

/// Draws one integer from `lo..=hi` with `rand`'s thread-local generator
/// (`Rng::gen_range` on an inclusive range). Trusted: the draw lies within the
/// bounds, and that is all a caller may rely on. An empty range makes
/// `gen_range` panic, so the bounds must be ordered.
#[verifier::external_body]
pub(crate) fn roll_between(lo: u32, hi: u32) -> (r: u32)
    requires
        lo <= hi,
    ensures
        lo <= r <= hi,
{
    rand::thread_rng().gen_range(lo..=hi)
}

} // verus!
