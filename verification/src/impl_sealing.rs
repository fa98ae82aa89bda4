use vstd::prelude::*;

verus! {

/// Closes the set of ABI revisions: only this crate can implement it.
pub trait Sealed {
}

} // verus!
