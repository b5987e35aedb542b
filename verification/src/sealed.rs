//! Keeps [`Integer`](crate::Integer) to the types of this crate and the primitives.
use vstd::prelude::*;

verus! {

pub trait Sealed {
}

} // verus!
