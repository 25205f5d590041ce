//! Viewing a reference to a tuple as a tuple of references.

use vstd::prelude::*;
use crate::sealed::Sealed;

verus! {

/// Converts a reference to a tuple into a tuple of references to its
/// elements: `&(A, B)` becomes `(&A, &B)`.
pub trait AsRefTuple<'l>: Sealed {
    /// The tuple of references.
    type Target;

    /// The tuple of references, as a specification value.
    spec fn spec_as_ref(&'l self) -> Self::Target;

    fn as_ref(&'l self) -> (r: Self::Target)
        ensures
            r == self.spec_as_ref(),
    ;
}

impl<'l> AsRefTuple<'l> for () {
    type Target = ();

    open spec fn spec_as_ref(&'l self) -> () {
        ()
    }

    fn as_ref(&'l self) -> (r: ()) {
        ()
    }
}

impl<'l, A: 'l> AsRefTuple<'l> for (A,) {
    type Target = (&'l A,);

    open spec fn spec_as_ref(&'l self) -> (&'l A,) {
        (&self.0,)
    }

    fn as_ref(&'l self) -> (r: (&'l A,)) {
        (&self.0,)
    }
}

impl<'l, A: 'l, B: 'l> AsRefTuple<'l> for (A, B) {
    type Target = (&'l A, &'l B);

    open spec fn spec_as_ref(&'l self) -> (&'l A, &'l B) {
        (&self.0, &self.1)
    }

    fn as_ref(&'l self) -> (r: (&'l A, &'l B)) {
        (&self.0, &self.1)
    }
}

impl<'l, A: 'l, B: 'l, C: 'l> AsRefTuple<'l> for (A, B, C) {
    type Target = (&'l A, &'l B, &'l C);

    open spec fn spec_as_ref(&'l self) -> (&'l A, &'l B, &'l C) {
        (&self.0, &self.1, &self.2)
    }

    fn as_ref(&'l self) -> (r: (&'l A, &'l B, &'l C)) {
        (&self.0, &self.1, &self.2)
    }
}

impl<'l, A: 'l, B: 'l, C: 'l, D: 'l> AsRefTuple<'l> for (A, B, C, D) {
    type Target = (&'l A, &'l B, &'l C, &'l D);

    open spec fn spec_as_ref(&'l self) -> (&'l A, &'l B, &'l C, &'l D) {
        (&self.0, &self.1, &self.2, &self.3)
    }

    fn as_ref(&'l self) -> (r: (&'l A, &'l B, &'l C, &'l D)) {
        (&self.0, &self.1, &self.2, &self.3)
    }
}

impl<'l, A: 'l, B: 'l, C: 'l, D: 'l, E: 'l> AsRefTuple<'l> for (A, B, C, D, E) {
    type Target = (&'l A, &'l B, &'l C, &'l D, &'l E);

    open spec fn spec_as_ref(&'l self) -> (&'l A, &'l B, &'l C, &'l D, &'l E) {
        (&self.0, &self.1, &self.2, &self.3, &self.4)
    }

    fn as_ref(&'l self) -> (r: (&'l A, &'l B, &'l C, &'l D, &'l E)) {
        (&self.0, &self.1, &self.2, &self.3, &self.4)
    }
}

impl<'l, A: 'l, B: 'l, C: 'l, D: 'l, E: 'l, F: 'l> AsRefTuple<'l> for (A, B, C, D, E, F) {
    type Target = (&'l A, &'l B, &'l C, &'l D, &'l E, &'l F);

    open spec fn spec_as_ref(&'l self) -> (&'l A, &'l B, &'l C, &'l D, &'l E, &'l F) {
        (&self.0, &self.1, &self.2, &self.3, &self.4, &self.5)
    }

    fn as_ref(&'l self) -> (r: (&'l A, &'l B, &'l C, &'l D, &'l E, &'l F)) {
        (&self.0, &self.1, &self.2, &self.3, &self.4, &self.5)
    }
}

impl<'l, A: 'l, B: 'l, C: 'l, D: 'l, E: 'l, F: 'l, G: 'l> AsRefTuple<'l> for (A, B, C, D, E, F, G) {
    type Target = (&'l A, &'l B, &'l C, &'l D, &'l E, &'l F, &'l G);

    open spec fn spec_as_ref(&'l self) -> (&'l A, &'l B, &'l C, &'l D, &'l E, &'l F, &'l G) {
        (&self.0, &self.1, &self.2, &self.3, &self.4, &self.5, &self.6)
    }

    fn as_ref(&'l self) -> (r: (&'l A, &'l B, &'l C, &'l D, &'l E, &'l F, &'l G)) {
        (&self.0, &self.1, &self.2, &self.3, &self.4, &self.5, &self.6)
    }
}

impl<'l, A: 'l, B: 'l, C: 'l, D: 'l, E: 'l, F: 'l, G: 'l, H: 'l> AsRefTuple<'l> for (A, B, C, D, E, F, G, H) {
    type Target = (&'l A, &'l B, &'l C, &'l D, &'l E, &'l F, &'l G, &'l H);

    open spec fn spec_as_ref(&'l self) -> (&'l A, &'l B, &'l C, &'l D, &'l E, &'l F, &'l G, &'l H) {
        (&self.0, &self.1, &self.2, &self.3, &self.4, &self.5, &self.6, &self.7)
    }

    fn as_ref(&'l self) -> (r: (&'l A, &'l B, &'l C, &'l D, &'l E, &'l F, &'l G, &'l H)) {
        (&self.0, &self.1, &self.2, &self.3, &self.4, &self.5, &self.6, &self.7)
    }
}

impl<'l, A: 'l, B: 'l, C: 'l, D: 'l, E: 'l, F: 'l, G: 'l, H: 'l, I: 'l> AsRefTuple<'l> for (A, B, C, D, E, F, G, H, I) {
    type Target = (&'l A, &'l B, &'l C, &'l D, &'l E, &'l F, &'l G, &'l H, &'l I);

    open spec fn spec_as_ref(&'l self) -> (&'l A, &'l B, &'l C, &'l D, &'l E, &'l F, &'l G, &'l H, &'l I) {
        (&self.0, &self.1, &self.2, &self.3, &self.4, &self.5, &self.6, &self.7, &self.8)
    }

    fn as_ref(&'l self) -> (r: (&'l A, &'l B, &'l C, &'l D, &'l E, &'l F, &'l G, &'l H, &'l I)) {
        (&self.0, &self.1, &self.2, &self.3, &self.4, &self.5, &self.6, &self.7, &self.8)
    }
}

impl<'l, A: 'l, B: 'l, C: 'l, D: 'l, E: 'l, F: 'l, G: 'l, H: 'l, I: 'l, J: 'l> AsRefTuple<'l> for (A, B, C, D, E, F, G, H, I, J) {
    type Target = (&'l A, &'l B, &'l C, &'l D, &'l E, &'l F, &'l G, &'l H, &'l I, &'l J);

    open spec fn spec_as_ref(&'l self) -> (&'l A, &'l B, &'l C, &'l D, &'l E, &'l F, &'l G, &'l H, &'l I, &'l J) {
        (&self.0, &self.1, &self.2, &self.3, &self.4, &self.5, &self.6, &self.7, &self.8, &self.9)
    }

    fn as_ref(&'l self) -> (r: (&'l A, &'l B, &'l C, &'l D, &'l E, &'l F, &'l G, &'l H, &'l I, &'l J)) {
        (&self.0, &self.1, &self.2, &self.3, &self.4, &self.5, &self.6, &self.7, &self.8, &self.9)
    }
}

impl<'l, A: 'l, B: 'l, C: 'l, D: 'l, E: 'l, F: 'l, G: 'l, H: 'l, I: 'l, J: 'l, K: 'l> AsRefTuple<'l> for (A, B, C, D, E, F, G, H, I, J, K) {
    type Target = (&'l A, &'l B, &'l C, &'l D, &'l E, &'l F, &'l G, &'l H, &'l I, &'l J, &'l K);

    open spec fn spec_as_ref(&'l self) -> (&'l A, &'l B, &'l C, &'l D, &'l E, &'l F, &'l G, &'l H, &'l I, &'l J, &'l K) {
        (&self.0, &self.1, &self.2, &self.3, &self.4, &self.5, &self.6, &self.7, &self.8, &self.9, &self.10)
    }

    fn as_ref(&'l self) -> (r: (&'l A, &'l B, &'l C, &'l D, &'l E, &'l F, &'l G, &'l H, &'l I, &'l J, &'l K)) {
        (&self.0, &self.1, &self.2, &self.3, &self.4, &self.5, &self.6, &self.7, &self.8, &self.9, &self.10)
    }
}

impl<'l, A: 'l, B: 'l, C: 'l, D: 'l, E: 'l, F: 'l, G: 'l, H: 'l, I: 'l, J: 'l, K: 'l, L: 'l> AsRefTuple<'l> for (A, B, C, D, E, F, G, H, I, J, K, L) {
    type Target = (&'l A, &'l B, &'l C, &'l D, &'l E, &'l F, &'l G, &'l H, &'l I, &'l J, &'l K, &'l L);

    open spec fn spec_as_ref(&'l self) -> (&'l A, &'l B, &'l C, &'l D, &'l E, &'l F, &'l G, &'l H, &'l I, &'l J, &'l K, &'l L) {
        (&self.0, &self.1, &self.2, &self.3, &self.4, &self.5, &self.6, &self.7, &self.8, &self.9, &self.10, &self.11)
    }

    fn as_ref(&'l self) -> (r: (&'l A, &'l B, &'l C, &'l D, &'l E, &'l F, &'l G, &'l H, &'l I, &'l J, &'l K, &'l L)) {
        (&self.0, &self.1, &self.2, &self.3, &self.4, &self.5, &self.6, &self.7, &self.8, &self.9, &self.10, &self.11)
    }
}

} // verus!
