pub mod parse;
pub mod terms;

use vstd::prelude::*;

verus! {

/// The first 51 digits of pi, printed beside the computed approximations as a
/// baseline for manual comparison.
pub fn pi_reference() -> (s: &'static str)
    ensures
        s@ == "3.14159265358979323846264338327950288419716939937510"@,
{
    "3.14159265358979323846264338327950288419716939937510"
}

} // verus!
