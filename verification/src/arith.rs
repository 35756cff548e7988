//! The entry point that only computes.

use vstd::prelude::*;

verus! {

/// Adds its two arguments. It asks nothing of the kernel.
///
/// The result is the mathematical sum, so equal arguments always give equal
/// results. The sum has to fit in an `i32`.
pub fn nk_rust_example(a: i32, b: i32) -> (sum: i32)
    requires
        i32::MIN <= a + b <= i32::MAX,
    ensures
        sum == a + b,
    no_unwind
{
    a + b
}

} // verus!
