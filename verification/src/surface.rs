//! Sizing of the render surface.

use vstd::prelude::*;

verus! {

/// A window resize is applied to the surface only when both sides are
/// non-zero (a minimised window reports a zero size, which a surface cannot
/// take); otherwise the previous size is kept.
pub fn resize_applies(width: u32, height: u32) -> (r: bool)
    ensures
        r == (width != 0 && height != 0),
{
    width != 0 && height != 0
}

} // verus!
