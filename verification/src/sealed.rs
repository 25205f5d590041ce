//! The [`Sealed`] marker trait, which keeps the tuple traits of this
//! crate from being implemented outside it.

use vstd::prelude::*;

verus! {

/// Marker trait implemented for the unit type, references, and tuples
/// of arity up to twelve. The tuple traits of this crate require it,
/// so no other crate can add implementations of them.
pub trait Sealed {}

impl Sealed for () {}

impl<S: Sealed> Sealed for &S {}

impl<S: Sealed> Sealed for &mut S {}

impl<A> Sealed for (A,) {}

impl<A, B> Sealed for (A, B) {}

impl<A, B, C> Sealed for (A, B, C) {}

impl<A, B, C, D> Sealed for (A, B, C, D) {}

impl<A, B, C, D, E> Sealed for (A, B, C, D, E) {}

impl<A, B, C, D, E, F> Sealed for (A, B, C, D, E, F) {}

impl<A, B, C, D, E, F, G> Sealed for (A, B, C, D, E, F, G) {}

impl<A, B, C, D, E, F, G, H> Sealed for (A, B, C, D, E, F, G, H) {}

impl<A, B, C, D, E, F, G, H, I> Sealed for (A, B, C, D, E, F, G, H, I) {}

impl<A, B, C, D, E, F, G, H, I, J> Sealed for (A, B, C, D, E, F, G, H, I, J) {}

impl<A, B, C, D, E, F, G, H, I, J, K> Sealed for (A, B, C, D, E, F, G, H, I, J, K) {}

impl<A, B, C, D, E, F, G, H, I, J, K, L> Sealed for (A, B, C, D, E, F, G, H, I, J, K, L) {}

} // verus!
