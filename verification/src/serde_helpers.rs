//! Small helpers that the wire encoding of the protocol types relies on.

use vstd::prelude::*;

verus! {

/// Whether a flag is unset; flags that are unset are left out of the wire
/// form, where an absent flag reads as `false`.
pub fn is_false(value: &bool) -> (r: bool)
    ensures
        r == !*value,
{
    !*value
}

} // verus!
