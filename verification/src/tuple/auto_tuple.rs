//! Converting a value into a tuple form.

use vstd::prelude::*;

verus! {

/// Converts a value to a tuple: a tuple of arity up to twelve converts
/// to itself, and any value converts to the one-element tuple holding
/// it. Combinators use this to treat a bare value and a one-element
/// argument list alike.
pub trait AutoTuple<T>: Sized {
    /// The converted value, as a specification value.
    spec fn spec_auto(self) -> T;

    fn auto_tuple(self) -> (r: T)
        ensures
            r == self.spec_auto(),
    ;
}

impl<T> AutoTuple<(T,)> for T {
    open spec fn spec_auto(self) -> (T,) {
        (self,)
    }

    fn auto_tuple(self) -> (r: (T,)) {
        (self,)
    }
}

impl AutoTuple<()> for () {
    open spec fn spec_auto(self) -> () {
        self
    }

    fn auto_tuple(self) -> (r: ()) {
        self
    }
}

impl<A> AutoTuple<(A,)> for (A,) {
    open spec fn spec_auto(self) -> (A,) {
        self
    }

    fn auto_tuple(self) -> (r: (A,)) {
        self
    }
}

impl<A, B> AutoTuple<(A, B)> for (A, B) {
    open spec fn spec_auto(self) -> (A, B) {
        self
    }

    fn auto_tuple(self) -> (r: (A, B)) {
        self
    }
}

impl<A, B, C> AutoTuple<(A, B, C)> for (A, B, C) {
    open spec fn spec_auto(self) -> (A, B, C) {
        self
    }

    fn auto_tuple(self) -> (r: (A, B, C)) {
        self
    }
}

impl<A, B, C, D> AutoTuple<(A, B, C, D)> for (A, B, C, D) {
    open spec fn spec_auto(self) -> (A, B, C, D) {
        self
    }

    fn auto_tuple(self) -> (r: (A, B, C, D)) {
        self
    }
}

impl<A, B, C, D, E> AutoTuple<(A, B, C, D, E)> for (A, B, C, D, E) {
    open spec fn spec_auto(self) -> (A, B, C, D, E) {
        self
    }

    fn auto_tuple(self) -> (r: (A, B, C, D, E)) {
        self
    }
}

impl<A, B, C, D, E, F> AutoTuple<(A, B, C, D, E, F)> for (A, B, C, D, E, F) {
    open spec fn spec_auto(self) -> (A, B, C, D, E, F) {
        self
    }

    fn auto_tuple(self) -> (r: (A, B, C, D, E, F)) {
        self
    }
}

impl<A, B, C, D, E, F, G> AutoTuple<(A, B, C, D, E, F, G)> for (A, B, C, D, E, F, G) {
    open spec fn spec_auto(self) -> (A, B, C, D, E, F, G) {
        self
    }

    fn auto_tuple(self) -> (r: (A, B, C, D, E, F, G)) {
        self
    }
}

impl<A, B, C, D, E, F, G, H> AutoTuple<(A, B, C, D, E, F, G, H)> for (A, B, C, D, E, F, G, H) {
    open spec fn spec_auto(self) -> (A, B, C, D, E, F, G, H) {
        self
    }

    fn auto_tuple(self) -> (r: (A, B, C, D, E, F, G, H)) {
        self
    }
}

impl<A, B, C, D, E, F, G, H, I> AutoTuple<(A, B, C, D, E, F, G, H, I)> for (A, B, C, D, E, F, G, H, I) {
    open spec fn spec_auto(self) -> (A, B, C, D, E, F, G, H, I) {
        self
    }

    fn auto_tuple(self) -> (r: (A, B, C, D, E, F, G, H, I)) {
        self
    }
}

impl<A, B, C, D, E, F, G, H, I, J> AutoTuple<(A, B, C, D, E, F, G, H, I, J)> for (A, B, C, D, E, F, G, H, I, J) {
    open spec fn spec_auto(self) -> (A, B, C, D, E, F, G, H, I, J) {
        self
    }

    fn auto_tuple(self) -> (r: (A, B, C, D, E, F, G, H, I, J)) {
        self
    }
}

impl<A, B, C, D, E, F, G, H, I, J, K> AutoTuple<(A, B, C, D, E, F, G, H, I, J, K)> for (A, B, C, D, E, F, G, H, I, J, K) {
    open spec fn spec_auto(self) -> (A, B, C, D, E, F, G, H, I, J, K) {
        self
    }

    fn auto_tuple(self) -> (r: (A, B, C, D, E, F, G, H, I, J, K)) {
        self
    }
}

impl<A, B, C, D, E, F, G, H, I, J, K, L> AutoTuple<(A, B, C, D, E, F, G, H, I, J, K, L)> for (A, B, C, D, E, F, G, H, I, J, K, L) {
    open spec fn spec_auto(self) -> (A, B, C, D, E, F, G, H, I, J, K, L) {
        self
    }

    fn auto_tuple(self) -> (r: (A, B, C, D, E, F, G, H, I, J, K, L)) {
        self
    }
}

} // verus!
