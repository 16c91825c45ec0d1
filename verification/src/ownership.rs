//! Ownership hand-off: a value given away and handed back is the very
//! value the caller started with, and a value lent through a shared
//! borrow stays with the caller unchanged.

use vstd::prelude::*;

verus! {

use vstd::string::StrSliceExecFns;

/// Accept ownership of a text value: the caller parts with the value
/// for good and keeps only the observation made of it inside the
/// callee, the value's length in characters.
pub fn give(name: String) -> (observed: usize)
    ensures
        observed == name@.len(),
{
    name.as_str().unicode_len()
}

/// Accept ownership of a text value and hand the same value back: what
/// the callee observed is exactly what the caller gave and receives
/// again, so the caller's sight of the value is restored intact.
pub fn give_and_return(name: String) -> (returned: String)
    ensures
        returned == name,
        returned@ == name@,
{
    name
}

/// Observe a text value through a shared borrow: ownership stays with
/// the caller, the borrow cannot change the value, and what the callee
/// observes is exactly the caller's value.
pub fn borrow(name: &String) -> (observed: &str)
    ensures
        observed@ == name@,
{
    name.as_str()
}

} // verus!
