//! A bound for tuples of at least two elements.

use vstd::prelude::*;
use crate::tuple::take::TupleTake;

verus! {

/// A tuple with at least two elements: one element can be taken, and
/// another can be taken from what remains. Currying uses this bound to
/// tell the accumulating steps from the final call.
pub trait AtLeast2 where Self: TupleTake, <Self as TupleTake>::Rem: TupleTake {
}

impl<T> AtLeast2 for T where T: TupleTake, <T as TupleTake>::Rem: TupleTake {
}

} // verus!
