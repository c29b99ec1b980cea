//! Scaling of lengths, as computed by the caller.
//!
//! Some positions are carried over in proportion from one area to another. The
//! proportion is computed outside, in floating point, by a function that is
//! handed in: `scale(part, whole, extent)` is `part / whole * extent`, rounded
//! to a whole number of pixels.

use vstd::prelude::*;

verus! {

/// Whether a scaling function accepts every argument and always gives the same
/// result for the same arguments.
pub open spec fn is_scaling<F: Fn(i64, i32, i32) -> i32>(f: F) -> bool {
    &&& forall|part: i64, whole: i32, extent: i32| #[trigger] f.requires((part, whole, extent))
    &&& forall|part: i64, whole: i32, extent: i32, r: i32, s: i32| #[trigger]
        f.ensures((part, whole, extent), r) && #[trigger] f.ensures((part, whole, extent), s) ==> r
            == s
}

/// What a scaling function computes.
pub open spec fn scaling<F: Fn(i64, i32, i32) -> i32>(f: F) -> spec_fn(i64, i32, i32) -> i32 {
    |part: i64, whole: i32, extent: i32| choose|r: i32| f.ensures((part, whole, extent), r)
}

/// Calls a scaling function.
pub fn scaled<F: Fn(i64, i32, i32) -> i32>(f: &F, part: i64, whole: i32, extent: i32) -> (r: i32)
    requires
        is_scaling(*f),
    ensures
        r == scaling(*f)(part, whole, extent),
{
    f(part, whole, extent)
}

} // verus!
