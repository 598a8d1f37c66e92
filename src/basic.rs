use vstd::prelude::*;

verus! {

/// The greeting that the companion starter program logs.
pub fn greet() -> (r: &'static str)
    ensures
        r@ == "GM!"@,
{
    "GM!"
}

} // verus!
