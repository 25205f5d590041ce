//! Pushing an element onto the back of a tuple.

use vstd::prelude::*;
use crate::sealed::Sealed;

verus! {

/// Adds an element at the **end** of the tuple, producing a tuple one
/// longer.
///
/// Implemented for tuples of arity up to eleven, so that the result
/// stays within the supported arity of twelve.
pub trait TuplePush<T>: Sized + Sealed {
    /// The tuple `Self` with `T` behind it.
    type Res;

    /// The extended tuple, as a specification value.
    spec fn spec_push(self, element: T) -> Self::Res;

    fn push(self, element: T) -> (r: Self::Res)
        ensures
            r == self.spec_push(element),
    ;
}

impl<T> TuplePush<T> for () {
    type Res = (T,);

    open spec fn spec_push(self, element: T) -> (T,) {
        (element,)
    }

    fn push(self, element: T) -> (r: (T,)) {
        (element,)
    }
}

impl<A, T> TuplePush<T> for (A,) {
    type Res = (A, T);

    open spec fn spec_push(self, element: T) -> (A, T) {
        (self.0, element)
    }

    fn push(self, element: T) -> (r: (A, T)) {
        (self.0, element)
    }
}

impl<A, B, T> TuplePush<T> for (A, B) {
    type Res = (A, B, T);

    open spec fn spec_push(self, element: T) -> (A, B, T) {
        (self.0, self.1, element)
    }

    fn push(self, element: T) -> (r: (A, B, T)) {
        (self.0, self.1, element)
    }
}

impl<A, B, C, T> TuplePush<T> for (A, B, C) {
    type Res = (A, B, C, T);

    open spec fn spec_push(self, element: T) -> (A, B, C, T) {
        (self.0, self.1, self.2, element)
    }

    fn push(self, element: T) -> (r: (A, B, C, T)) {
        (self.0, self.1, self.2, element)
    }
}

impl<A, B, C, D, T> TuplePush<T> for (A, B, C, D) {
    type Res = (A, B, C, D, T);

    open spec fn spec_push(self, element: T) -> (A, B, C, D, T) {
        (self.0, self.1, self.2, self.3, element)
    }

    fn push(self, element: T) -> (r: (A, B, C, D, T)) {
        (self.0, self.1, self.2, self.3, element)
    }
}

impl<A, B, C, D, E, T> TuplePush<T> for (A, B, C, D, E) {
    type Res = (A, B, C, D, E, T);

    open spec fn spec_push(self, element: T) -> (A, B, C, D, E, T) {
        (self.0, self.1, self.2, self.3, self.4, element)
    }

    fn push(self, element: T) -> (r: (A, B, C, D, E, T)) {
        (self.0, self.1, self.2, self.3, self.4, element)
    }
}

impl<A, B, C, D, E, F, T> TuplePush<T> for (A, B, C, D, E, F) {
    type Res = (A, B, C, D, E, F, T);

    open spec fn spec_push(self, element: T) -> (A, B, C, D, E, F, T) {
        (self.0, self.1, self.2, self.3, self.4, self.5, element)
    }

    fn push(self, element: T) -> (r: (A, B, C, D, E, F, T)) {
        (self.0, self.1, self.2, self.3, self.4, self.5, element)
    }
}

impl<A, B, C, D, E, F, G, T> TuplePush<T> for (A, B, C, D, E, F, G) {
    type Res = (A, B, C, D, E, F, G, T);

    open spec fn spec_push(self, element: T) -> (A, B, C, D, E, F, G, T) {
        (self.0, self.1, self.2, self.3, self.4, self.5, self.6, element)
    }

    fn push(self, element: T) -> (r: (A, B, C, D, E, F, G, T)) {
        (self.0, self.1, self.2, self.3, self.4, self.5, self.6, element)
    }
}

impl<A, B, C, D, E, F, G, H, T> TuplePush<T> for (A, B, C, D, E, F, G, H) {
    type Res = (A, B, C, D, E, F, G, H, T);

    open spec fn spec_push(self, element: T) -> (A, B, C, D, E, F, G, H, T) {
        (self.0, self.1, self.2, self.3, self.4, self.5, self.6, self.7, element)
    }

    fn push(self, element: T) -> (r: (A, B, C, D, E, F, G, H, T)) {
        (self.0, self.1, self.2, self.3, self.4, self.5, self.6, self.7, element)
    }
}

impl<A, B, C, D, E, F, G, H, I, T> TuplePush<T> for (A, B, C, D, E, F, G, H, I) {
    type Res = (A, B, C, D, E, F, G, H, I, T);

    open spec fn spec_push(self, element: T) -> (A, B, C, D, E, F, G, H, I, T) {
        (self.0, self.1, self.2, self.3, self.4, self.5, self.6, self.7, self.8, element)
    }

    fn push(self, element: T) -> (r: (A, B, C, D, E, F, G, H, I, T)) {
        (self.0, self.1, self.2, self.3, self.4, self.5, self.6, self.7, self.8, element)
    }
}

impl<A, B, C, D, E, F, G, H, I, J, T> TuplePush<T> for (A, B, C, D, E, F, G, H, I, J) {
    type Res = (A, B, C, D, E, F, G, H, I, J, T);

    open spec fn spec_push(self, element: T) -> (A, B, C, D, E, F, G, H, I, J, T) {
        (self.0, self.1, self.2, self.3, self.4, self.5, self.6, self.7, self.8, self.9, element)
    }

    fn push(self, element: T) -> (r: (A, B, C, D, E, F, G, H, I, J, T)) {
        (self.0, self.1, self.2, self.3, self.4, self.5, self.6, self.7, self.8, self.9, element)
    }
}

impl<A, B, C, D, E, F, G, H, I, J, K, T> TuplePush<T> for (A, B, C, D, E, F, G, H, I, J, K) {
    type Res = (A, B, C, D, E, F, G, H, I, J, K, T);

    open spec fn spec_push(self, element: T) -> (A, B, C, D, E, F, G, H, I, J, K, T) {
        (self.0, self.1, self.2, self.3, self.4, self.5, self.6, self.7, self.8, self.9, self.10, element)
    }

    fn push(self, element: T) -> (r: (A, B, C, D, E, F, G, H, I, J, K, T)) {
        (self.0, self.1, self.2, self.3, self.4, self.5, self.6, self.7, self.8, self.9, self.10, element)
    }
}

} // verus!
