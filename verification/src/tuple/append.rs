//! Appending an element to the front of a tuple.

use vstd::prelude::*;
use crate::sealed::Sealed;

verus! {

/// Adds an element at the **start** of the tuple, producing a tuple
/// one longer.
///
/// Implemented for tuples of arity up to eleven, so that the result
/// stays within the supported arity of twelve.
pub trait TupleAppend<E>: Sized + Sealed {
    /// The tuple with `E` in front of `Self`.
    type Res;

    /// The extended tuple, as a specification value.
    spec fn spec_append(self, element: E) -> Self::Res;

    fn append(self, element: E) -> (r: Self::Res)
        ensures
            r == self.spec_append(element),
    ;
}

impl<T> TupleAppend<T> for () {
    type Res = (T,);

    open spec fn spec_append(self, element: T) -> (T,) {
        (element,)
    }

    fn append(self, element: T) -> (r: (T,)) {
        (element,)
    }
}

impl<T, A> TupleAppend<T> for (A,) {
    type Res = (T, A);

    open spec fn spec_append(self, element: T) -> (T, A) {
        (element, self.0)
    }

    fn append(self, element: T) -> (r: (T, A)) {
        (element, self.0)
    }
}

impl<T, A, B> TupleAppend<T> for (A, B) {
    type Res = (T, A, B);

    open spec fn spec_append(self, element: T) -> (T, A, B) {
        (element, self.0, self.1)
    }

    fn append(self, element: T) -> (r: (T, A, B)) {
        (element, self.0, self.1)
    }
}

impl<T, A, B, C> TupleAppend<T> for (A, B, C) {
    type Res = (T, A, B, C);

    open spec fn spec_append(self, element: T) -> (T, A, B, C) {
        (element, self.0, self.1, self.2)
    }

    fn append(self, element: T) -> (r: (T, A, B, C)) {
        (element, self.0, self.1, self.2)
    }
}

impl<T, A, B, C, D> TupleAppend<T> for (A, B, C, D) {
    type Res = (T, A, B, C, D);

    open spec fn spec_append(self, element: T) -> (T, A, B, C, D) {
        (element, self.0, self.1, self.2, self.3)
    }

    fn append(self, element: T) -> (r: (T, A, B, C, D)) {
        (element, self.0, self.1, self.2, self.3)
    }
}

impl<T, A, B, C, D, E> TupleAppend<T> for (A, B, C, D, E) {
    type Res = (T, A, B, C, D, E);

    open spec fn spec_append(self, element: T) -> (T, A, B, C, D, E) {
        (element, self.0, self.1, self.2, self.3, self.4)
    }

    fn append(self, element: T) -> (r: (T, A, B, C, D, E)) {
        (element, self.0, self.1, self.2, self.3, self.4)
    }
}

impl<T, A, B, C, D, E, F> TupleAppend<T> for (A, B, C, D, E, F) {
    type Res = (T, A, B, C, D, E, F);

    open spec fn spec_append(self, element: T) -> (T, A, B, C, D, E, F) {
        (element, self.0, self.1, self.2, self.3, self.4, self.5)
    }

    fn append(self, element: T) -> (r: (T, A, B, C, D, E, F)) {
        (element, self.0, self.1, self.2, self.3, self.4, self.5)
    }
}

impl<T, A, B, C, D, E, F, G> TupleAppend<T> for (A, B, C, D, E, F, G) {
    type Res = (T, A, B, C, D, E, F, G);

    open spec fn spec_append(self, element: T) -> (T, A, B, C, D, E, F, G) {
        (element, self.0, self.1, self.2, self.3, self.4, self.5, self.6)
    }

    fn append(self, element: T) -> (r: (T, A, B, C, D, E, F, G)) {
        (element, self.0, self.1, self.2, self.3, self.4, self.5, self.6)
    }
}

impl<T, A, B, C, D, E, F, G, H> TupleAppend<T> for (A, B, C, D, E, F, G, H) {
    type Res = (T, A, B, C, D, E, F, G, H);

    open spec fn spec_append(self, element: T) -> (T, A, B, C, D, E, F, G, H) {
        (element, self.0, self.1, self.2, self.3, self.4, self.5, self.6, self.7)
    }

    fn append(self, element: T) -> (r: (T, A, B, C, D, E, F, G, H)) {
        (element, self.0, self.1, self.2, self.3, self.4, self.5, self.6, self.7)
    }
}

impl<T, A, B, C, D, E, F, G, H, I> TupleAppend<T> for (A, B, C, D, E, F, G, H, I) {
    type Res = (T, A, B, C, D, E, F, G, H, I);

    open spec fn spec_append(self, element: T) -> (T, A, B, C, D, E, F, G, H, I) {
        (element, self.0, self.1, self.2, self.3, self.4, self.5, self.6, self.7, self.8)
    }

    fn append(self, element: T) -> (r: (T, A, B, C, D, E, F, G, H, I)) {
        (element, self.0, self.1, self.2, self.3, self.4, self.5, self.6, self.7, self.8)
    }
}

impl<T, A, B, C, D, E, F, G, H, I, J> TupleAppend<T> for (A, B, C, D, E, F, G, H, I, J) {
    type Res = (T, A, B, C, D, E, F, G, H, I, J);

    open spec fn spec_append(self, element: T) -> (T, A, B, C, D, E, F, G, H, I, J) {
        (element, self.0, self.1, self.2, self.3, self.4, self.5, self.6, self.7, self.8, self.9)
    }

    fn append(self, element: T) -> (r: (T, A, B, C, D, E, F, G, H, I, J)) {
        (element, self.0, self.1, self.2, self.3, self.4, self.5, self.6, self.7, self.8, self.9)
    }
}

impl<T, A, B, C, D, E, F, G, H, I, J, K> TupleAppend<T> for (A, B, C, D, E, F, G, H, I, J, K) {
    type Res = (T, A, B, C, D, E, F, G, H, I, J, K);

    open spec fn spec_append(self, element: T) -> (T, A, B, C, D, E, F, G, H, I, J, K) {
        (element, self.0, self.1, self.2, self.3, self.4, self.5, self.6, self.7, self.8, self.9, self.10)
    }

    fn append(self, element: T) -> (r: (T, A, B, C, D, E, F, G, H, I, J, K)) {
        (element, self.0, self.1, self.2, self.3, self.4, self.5, self.6, self.7, self.8, self.9, self.10)
    }
}

} // verus!
