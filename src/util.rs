//! Small helpers shared by the screens.

use vstd::prelude::*;

verus! {

/// `v1` when `a` holds, else `v2`.
pub fn ternary<T>(a: bool, v1: T, v2: T) -> (r: T)
    ensures
        r == (if a { v1 } else { v2 }),
{
    if a {
        v1
    } else {
        v2
    }
}

} // verus!
