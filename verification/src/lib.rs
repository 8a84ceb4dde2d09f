use vstd::prelude::*;

pub mod hex;
pub mod params;
pub mod evaluate;
pub mod search;

verus! {

/// 16 to the power `w`: the number of candidate strings of `w` hex digits.
pub open spec fn pow16(w: nat) -> nat
    decreases w,
{
    if w == 0 {
        1
    } else {
        16 * pow16((w - 1) as nat)
    }
}

} // verus!
