//! Concatenating two tuples.

use vstd::prelude::*;
use crate::tuple::take::TupleTake;

verus! {

/// Concatenates two tuples: the result holds the elements of `Self`
/// followed by the elements of `T`.
///
/// Implemented exactly for the pairs of tuples whose combined arity is
/// at most twelve; concatenations that would exceed that bound are
/// rejected at compile time. The empty tuple is an identity on either
/// side.
pub trait TupleConcat<T>: Sized {
    /// The tuple holding the elements of `Self` followed by those of
    /// `T`.
    type Res;

    /// The concatenated tuple, as a specification value.
    spec fn spec_concat(self, other: T) -> Self::Res;

    fn concat(self, other: T) -> (r: Self::Res)
        ensures
            r == self.spec_concat(other),
    ;
}

impl TupleConcat<()> for () {
    type Res = ();

    open spec fn spec_concat(self, other: ()) -> () {
        self
    }

    fn concat(self, other: ()) -> (r: ()) {
        let () = other;
        self
    }
}

impl<T: TupleTake> TupleConcat<T> for () {
    type Res = T;

    open spec fn spec_concat(self, other: T) -> T {
        other
    }

    fn concat(self, other: T) -> (r: T) {
        other
    }
}

impl<T: TupleTake> TupleConcat<()> for T {
    type Res = T;

    open spec fn spec_concat(self, other: ()) -> T {
        self
    }

    fn concat(self, other: ()) -> (r: T) {
        let () = other;
        self
    }
}

impl<A1, B1> TupleConcat<(B1,)> for (A1,) {
    type Res = (A1, B1);

    open spec fn spec_concat(self, other: (B1,)) -> (A1, B1) {
        (self.0, other.0)
    }

    fn concat(self, other: (B1,)) -> (r: (A1, B1)) {
        (self.0, other.0)
    }
}

impl<A1, B1, B2> TupleConcat<(B1, B2)> for (A1,) {
    type Res = (A1, B1, B2);

    open spec fn spec_concat(self, other: (B1, B2)) -> (A1, B1, B2) {
        (self.0, other.0, other.1)
    }

    fn concat(self, other: (B1, B2)) -> (r: (A1, B1, B2)) {
        (self.0, other.0, other.1)
    }
}

impl<A1, B1, B2, B3> TupleConcat<(B1, B2, B3)> for (A1,) {
    type Res = (A1, B1, B2, B3);

    open spec fn spec_concat(self, other: (B1, B2, B3)) -> (A1, B1, B2, B3) {
        (self.0, other.0, other.1, other.2)
    }

    fn concat(self, other: (B1, B2, B3)) -> (r: (A1, B1, B2, B3)) {
        (self.0, other.0, other.1, other.2)
    }
}

impl<A1, B1, B2, B3, B4> TupleConcat<(B1, B2, B3, B4)> for (A1,) {
    type Res = (A1, B1, B2, B3, B4);

    open spec fn spec_concat(self, other: (B1, B2, B3, B4)) -> (A1, B1, B2, B3, B4) {
        (self.0, other.0, other.1, other.2, other.3)
    }

    fn concat(self, other: (B1, B2, B3, B4)) -> (r: (A1, B1, B2, B3, B4)) {
        (self.0, other.0, other.1, other.2, other.3)
    }
}

impl<A1, B1, B2, B3, B4, B5> TupleConcat<(B1, B2, B3, B4, B5)> for (A1,) {
    type Res = (A1, B1, B2, B3, B4, B5);

    open spec fn spec_concat(self, other: (B1, B2, B3, B4, B5)) -> (A1, B1, B2, B3, B4, B5) {
        (self.0, other.0, other.1, other.2, other.3, other.4)
    }

    fn concat(self, other: (B1, B2, B3, B4, B5)) -> (r: (A1, B1, B2, B3, B4, B5)) {
        (self.0, other.0, other.1, other.2, other.3, other.4)
    }
}

impl<A1, B1, B2, B3, B4, B5, B6> TupleConcat<(B1, B2, B3, B4, B5, B6)> for (A1,) {
    type Res = (A1, B1, B2, B3, B4, B5, B6);

    open spec fn spec_concat(self, other: (B1, B2, B3, B4, B5, B6)) -> (A1, B1, B2, B3, B4, B5, B6) {
        (self.0, other.0, other.1, other.2, other.3, other.4, other.5)
    }

    fn concat(self, other: (B1, B2, B3, B4, B5, B6)) -> (r: (A1, B1, B2, B3, B4, B5, B6)) {
        (self.0, other.0, other.1, other.2, other.3, other.4, other.5)
    }
}

impl<A1, B1, B2, B3, B4, B5, B6, B7> TupleConcat<(B1, B2, B3, B4, B5, B6, B7)> for (A1,) {
    type Res = (A1, B1, B2, B3, B4, B5, B6, B7);

    open spec fn spec_concat(self, other: (B1, B2, B3, B4, B5, B6, B7)) -> (A1, B1, B2, B3, B4, B5, B6, B7) {
        (self.0, other.0, other.1, other.2, other.3, other.4, other.5, other.6)
    }

    fn concat(self, other: (B1, B2, B3, B4, B5, B6, B7)) -> (r: (A1, B1, B2, B3, B4, B5, B6, B7)) {
        (self.0, other.0, other.1, other.2, other.3, other.4, other.5, other.6)
    }
}

impl<A1, B1, B2, B3, B4, B5, B6, B7, B8> TupleConcat<(B1, B2, B3, B4, B5, B6, B7, B8)> for (A1,) {
    type Res = (A1, B1, B2, B3, B4, B5, B6, B7, B8);

    open spec fn spec_concat(self, other: (B1, B2, B3, B4, B5, B6, B7, B8)) -> (A1, B1, B2, B3, B4, B5, B6, B7, B8) {
        (self.0, other.0, other.1, other.2, other.3, other.4, other.5, other.6, other.7)
    }

    fn concat(self, other: (B1, B2, B3, B4, B5, B6, B7, B8)) -> (r: (A1, B1, B2, B3, B4, B5, B6, B7, B8)) {
        (self.0, other.0, other.1, other.2, other.3, other.4, other.5, other.6, other.7)
    }
}

impl<A1, B1, B2, B3, B4, B5, B6, B7, B8, B9> TupleConcat<(B1, B2, B3, B4, B5, B6, B7, B8, B9)> for (A1,) {
    type Res = (A1, B1, B2, B3, B4, B5, B6, B7, B8, B9);

    open spec fn spec_concat(self, other: (B1, B2, B3, B4, B5, B6, B7, B8, B9)) -> (A1, B1, B2, B3, B4, B5, B6, B7, B8, B9) {
        (self.0, other.0, other.1, other.2, other.3, other.4, other.5, other.6, other.7, other.8)
    }

    fn concat(self, other: (B1, B2, B3, B4, B5, B6, B7, B8, B9)) -> (r: (A1, B1, B2, B3, B4, B5, B6, B7, B8, B9)) {
        (self.0, other.0, other.1, other.2, other.3, other.4, other.5, other.6, other.7, other.8)
    }
}

impl<A1, B1, B2, B3, B4, B5, B6, B7, B8, B9, B10> TupleConcat<(B1, B2, B3, B4, B5, B6, B7, B8, B9, B10)> for (A1,) {
    type Res = (A1, B1, B2, B3, B4, B5, B6, B7, B8, B9, B10);

    open spec fn spec_concat(self, other: (B1, B2, B3, B4, B5, B6, B7, B8, B9, B10)) -> (A1, B1, B2, B3, B4, B5, B6, B7, B8, B9, B10) {
        (self.0, other.0, other.1, other.2, other.3, other.4, other.5, other.6, other.7, other.8, other.9)
    }

    fn concat(self, other: (B1, B2, B3, B4, B5, B6, B7, B8, B9, B10)) -> (r: (A1, B1, B2, B3, B4, B5, B6, B7, B8, B9, B10)) {
        (self.0, other.0, other.1, other.2, other.3, other.4, other.5, other.6, other.7, other.8, other.9)
    }
}

impl<A1, B1, B2, B3, B4, B5, B6, B7, B8, B9, B10, B11> TupleConcat<(B1, B2, B3, B4, B5, B6, B7, B8, B9, B10, B11)> for (A1,) {
    type Res = (A1, B1, B2, B3, B4, B5, B6, B7, B8, B9, B10, B11);

    open spec fn spec_concat(self, other: (B1, B2, B3, B4, B5, B6, B7, B8, B9, B10, B11)) -> (A1, B1, B2, B3, B4, B5, B6, B7, B8, B9, B10, B11) {
        (self.0, other.0, other.1, other.2, other.3, other.4, other.5, other.6, other.7, other.8, other.9, other.10)
    }

    fn concat(self, other: (B1, B2, B3, B4, B5, B6, B7, B8, B9, B10, B11)) -> (r: (A1, B1, B2, B3, B4, B5, B6, B7, B8, B9, B10, B11)) {
        (self.0, other.0, other.1, other.2, other.3, other.4, other.5, other.6, other.7, other.8, other.9, other.10)
    }
}

impl<A1, A2, B1> TupleConcat<(B1,)> for (A1, A2) {
    type Res = (A1, A2, B1);

    open spec fn spec_concat(self, other: (B1,)) -> (A1, A2, B1) {
        (self.0, self.1, other.0)
    }

    fn concat(self, other: (B1,)) -> (r: (A1, A2, B1)) {
        (self.0, self.1, other.0)
    }
}

impl<A1, A2, B1, B2> TupleConcat<(B1, B2)> for (A1, A2) {
    type Res = (A1, A2, B1, B2);

    open spec fn spec_concat(self, other: (B1, B2)) -> (A1, A2, B1, B2) {
        (self.0, self.1, other.0, other.1)
    }

    fn concat(self, other: (B1, B2)) -> (r: (A1, A2, B1, B2)) {
        (self.0, self.1, other.0, other.1)
    }
}

impl<A1, A2, B1, B2, B3> TupleConcat<(B1, B2, B3)> for (A1, A2) {
    type Res = (A1, A2, B1, B2, B3);

    open spec fn spec_concat(self, other: (B1, B2, B3)) -> (A1, A2, B1, B2, B3) {
        (self.0, self.1, other.0, other.1, other.2)
    }

    fn concat(self, other: (B1, B2, B3)) -> (r: (A1, A2, B1, B2, B3)) {
        (self.0, self.1, other.0, other.1, other.2)
    }
}

impl<A1, A2, B1, B2, B3, B4> TupleConcat<(B1, B2, B3, B4)> for (A1, A2) {
    type Res = (A1, A2, B1, B2, B3, B4);

    open spec fn spec_concat(self, other: (B1, B2, B3, B4)) -> (A1, A2, B1, B2, B3, B4) {
        (self.0, self.1, other.0, other.1, other.2, other.3)
    }

    fn concat(self, other: (B1, B2, B3, B4)) -> (r: (A1, A2, B1, B2, B3, B4)) {
        (self.0, self.1, other.0, other.1, other.2, other.3)
    }
}

impl<A1, A2, B1, B2, B3, B4, B5> TupleConcat<(B1, B2, B3, B4, B5)> for (A1, A2) {
    type Res = (A1, A2, B1, B2, B3, B4, B5);

    open spec fn spec_concat(self, other: (B1, B2, B3, B4, B5)) -> (A1, A2, B1, B2, B3, B4, B5) {
        (self.0, self.1, other.0, other.1, other.2, other.3, other.4)
    }

    fn concat(self, other: (B1, B2, B3, B4, B5)) -> (r: (A1, A2, B1, B2, B3, B4, B5)) {
        (self.0, self.1, other.0, other.1, other.2, other.3, other.4)
    }
}

impl<A1, A2, B1, B2, B3, B4, B5, B6> TupleConcat<(B1, B2, B3, B4, B5, B6)> for (A1, A2) {
    type Res = (A1, A2, B1, B2, B3, B4, B5, B6);

    open spec fn spec_concat(self, other: (B1, B2, B3, B4, B5, B6)) -> (A1, A2, B1, B2, B3, B4, B5, B6) {
        (self.0, self.1, other.0, other.1, other.2, other.3, other.4, other.5)
    }

    fn concat(self, other: (B1, B2, B3, B4, B5, B6)) -> (r: (A1, A2, B1, B2, B3, B4, B5, B6)) {
        (self.0, self.1, other.0, other.1, other.2, other.3, other.4, other.5)
    }
}

impl<A1, A2, B1, B2, B3, B4, B5, B6, B7> TupleConcat<(B1, B2, B3, B4, B5, B6, B7)> for (A1, A2) {
    type Res = (A1, A2, B1, B2, B3, B4, B5, B6, B7);

    open spec fn spec_concat(self, other: (B1, B2, B3, B4, B5, B6, B7)) -> (A1, A2, B1, B2, B3, B4, B5, B6, B7) {
        (self.0, self.1, other.0, other.1, other.2, other.3, other.4, other.5, other.6)
    }

    fn concat(self, other: (B1, B2, B3, B4, B5, B6, B7)) -> (r: (A1, A2, B1, B2, B3, B4, B5, B6, B7)) {
        (self.0, self.1, other.0, other.1, other.2, other.3, other.4, other.5, other.6)
    }
}

impl<A1, A2, B1, B2, B3, B4, B5, B6, B7, B8> TupleConcat<(B1, B2, B3, B4, B5, B6, B7, B8)> for (A1, A2) {
    type Res = (A1, A2, B1, B2, B3, B4, B5, B6, B7, B8);

    open spec fn spec_concat(self, other: (B1, B2, B3, B4, B5, B6, B7, B8)) -> (A1, A2, B1, B2, B3, B4, B5, B6, B7, B8) {
        (self.0, self.1, other.0, other.1, other.2, other.3, other.4, other.5, other.6, other.7)
    }

    fn concat(self, other: (B1, B2, B3, B4, B5, B6, B7, B8)) -> (r: (A1, A2, B1, B2, B3, B4, B5, B6, B7, B8)) {
        (self.0, self.1, other.0, other.1, other.2, other.3, other.4, other.5, other.6, other.7)
    }
}

impl<A1, A2, B1, B2, B3, B4, B5, B6, B7, B8, B9> TupleConcat<(B1, B2, B3, B4, B5, B6, B7, B8, B9)> for (A1, A2) {
    type Res = (A1, A2, B1, B2, B3, B4, B5, B6, B7, B8, B9);

    open spec fn spec_concat(self, other: (B1, B2, B3, B4, B5, B6, B7, B8, B9)) -> (A1, A2, B1, B2, B3, B4, B5, B6, B7, B8, B9) {
        (self.0, self.1, other.0, other.1, other.2, other.3, other.4, other.5, other.6, other.7, other.8)
    }

    fn concat(self, other: (B1, B2, B3, B4, B5, B6, B7, B8, B9)) -> (r: (A1, A2, B1, B2, B3, B4, B5, B6, B7, B8, B9)) {
        (self.0, self.1, other.0, other.1, other.2, other.3, other.4, other.5, other.6, other.7, other.8)
    }
}

impl<A1, A2, B1, B2, B3, B4, B5, B6, B7, B8, B9, B10> TupleConcat<(B1, B2, B3, B4, B5, B6, B7, B8, B9, B10)> for (A1, A2) {
    type Res = (A1, A2, B1, B2, B3, B4, B5, B6, B7, B8, B9, B10);

    open spec fn spec_concat(self, other: (B1, B2, B3, B4, B5, B6, B7, B8, B9, B10)) -> (A1, A2, B1, B2, B3, B4, B5, B6, B7, B8, B9, B10) {
        (self.0, self.1, other.0, other.1, other.2, other.3, other.4, other.5, other.6, other.7, other.8, other.9)
    }

    fn concat(self, other: (B1, B2, B3, B4, B5, B6, B7, B8, B9, B10)) -> (r: (A1, A2, B1, B2, B3, B4, B5, B6, B7, B8, B9, B10)) {
        (self.0, self.1, other.0, other.1, other.2, other.3, other.4, other.5, other.6, other.7, other.8, other.9)
    }
}

impl<A1, A2, A3, B1> TupleConcat<(B1,)> for (A1, A2, A3) {
    type Res = (A1, A2, A3, B1);

    open spec fn spec_concat(self, other: (B1,)) -> (A1, A2, A3, B1) {
        (self.0, self.1, self.2, other.0)
    }

    fn concat(self, other: (B1,)) -> (r: (A1, A2, A3, B1)) {
        (self.0, self.1, self.2, other.0)
    }
}

impl<A1, A2, A3, B1, B2> TupleConcat<(B1, B2)> for (A1, A2, A3) {
    type Res = (A1, A2, A3, B1, B2);

    open spec fn spec_concat(self, other: (B1, B2)) -> (A1, A2, A3, B1, B2) {
        (self.0, self.1, self.2, other.0, other.1)
    }

    fn concat(self, other: (B1, B2)) -> (r: (A1, A2, A3, B1, B2)) {
        (self.0, self.1, self.2, other.0, other.1)
    }
}

impl<A1, A2, A3, B1, B2, B3> TupleConcat<(B1, B2, B3)> for (A1, A2, A3) {
    type Res = (A1, A2, A3, B1, B2, B3);

    open spec fn spec_concat(self, other: (B1, B2, B3)) -> (A1, A2, A3, B1, B2, B3) {
        (self.0, self.1, self.2, other.0, other.1, other.2)
    }

    fn concat(self, other: (B1, B2, B3)) -> (r: (A1, A2, A3, B1, B2, B3)) {
        (self.0, self.1, self.2, other.0, other.1, other.2)
    }
}

impl<A1, A2, A3, B1, B2, B3, B4> TupleConcat<(B1, B2, B3, B4)> for (A1, A2, A3) {
    type Res = (A1, A2, A3, B1, B2, B3, B4);

    open spec fn spec_concat(self, other: (B1, B2, B3, B4)) -> (A1, A2, A3, B1, B2, B3, B4) {
        (self.0, self.1, self.2, other.0, other.1, other.2, other.3)
    }

    fn concat(self, other: (B1, B2, B3, B4)) -> (r: (A1, A2, A3, B1, B2, B3, B4)) {
        (self.0, self.1, self.2, other.0, other.1, other.2, other.3)
    }
}

impl<A1, A2, A3, B1, B2, B3, B4, B5> TupleConcat<(B1, B2, B3, B4, B5)> for (A1, A2, A3) {
    type Res = (A1, A2, A3, B1, B2, B3, B4, B5);

    open spec fn spec_concat(self, other: (B1, B2, B3, B4, B5)) -> (A1, A2, A3, B1, B2, B3, B4, B5) {
        (self.0, self.1, self.2, other.0, other.1, other.2, other.3, other.4)
    }

    fn concat(self, other: (B1, B2, B3, B4, B5)) -> (r: (A1, A2, A3, B1, B2, B3, B4, B5)) {
        (self.0, self.1, self.2, other.0, other.1, other.2, other.3, other.4)
    }
}

impl<A1, A2, A3, B1, B2, B3, B4, B5, B6> TupleConcat<(B1, B2, B3, B4, B5, B6)> for (A1, A2, A3) {
    type Res = (A1, A2, A3, B1, B2, B3, B4, B5, B6);

    open spec fn spec_concat(self, other: (B1, B2, B3, B4, B5, B6)) -> (A1, A2, A3, B1, B2, B3, B4, B5, B6) {
        (self.0, self.1, self.2, other.0, other.1, other.2, other.3, other.4, other.5)
    }

    fn concat(self, other: (B1, B2, B3, B4, B5, B6)) -> (r: (A1, A2, A3, B1, B2, B3, B4, B5, B6)) {
        (self.0, self.1, self.2, other.0, other.1, other.2, other.3, other.4, other.5)
    }
}

impl<A1, A2, A3, B1, B2, B3, B4, B5, B6, B7> TupleConcat<(B1, B2, B3, B4, B5, B6, B7)> for (A1, A2, A3) {
    type Res = (A1, A2, A3, B1, B2, B3, B4, B5, B6, B7);

    open spec fn spec_concat(self, other: (B1, B2, B3, B4, B5, B6, B7)) -> (A1, A2, A3, B1, B2, B3, B4, B5, B6, B7) {
        (self.0, self.1, self.2, other.0, other.1, other.2, other.3, other.4, other.5, other.6)
    }

    fn concat(self, other: (B1, B2, B3, B4, B5, B6, B7)) -> (r: (A1, A2, A3, B1, B2, B3, B4, B5, B6, B7)) {
        (self.0, self.1, self.2, other.0, other.1, other.2, other.3, other.4, other.5, other.6)
    }
}

impl<A1, A2, A3, B1, B2, B3, B4, B5, B6, B7, B8> TupleConcat<(B1, B2, B3, B4, B5, B6, B7, B8)> for (A1, A2, A3) {
    type Res = (A1, A2, A3, B1, B2, B3, B4, B5, B6, B7, B8);

    open spec fn spec_concat(self, other: (B1, B2, B3, B4, B5, B6, B7, B8)) -> (A1, A2, A3, B1, B2, B3, B4, B5, B6, B7, B8) {
        (self.0, self.1, self.2, other.0, other.1, other.2, other.3, other.4, other.5, other.6, other.7)
    }

    fn concat(self, other: (B1, B2, B3, B4, B5, B6, B7, B8)) -> (r: (A1, A2, A3, B1, B2, B3, B4, B5, B6, B7, B8)) {
        (self.0, self.1, self.2, other.0, other.1, other.2, other.3, other.4, other.5, other.6, other.7)
    }
}

impl<A1, A2, A3, B1, B2, B3, B4, B5, B6, B7, B8, B9> TupleConcat<(B1, B2, B3, B4, B5, B6, B7, B8, B9)> for (A1, A2, A3) {
    type Res = (A1, A2, A3, B1, B2, B3, B4, B5, B6, B7, B8, B9);

    open spec fn spec_concat(self, other: (B1, B2, B3, B4, B5, B6, B7, B8, B9)) -> (A1, A2, A3, B1, B2, B3, B4, B5, B6, B7, B8, B9) {
        (self.0, self.1, self.2, other.0, other.1, other.2, other.3, other.4, other.5, other.6, other.7, other.8)
    }

    fn concat(self, other: (B1, B2, B3, B4, B5, B6, B7, B8, B9)) -> (r: (A1, A2, A3, B1, B2, B3, B4, B5, B6, B7, B8, B9)) {
        (self.0, self.1, self.2, other.0, other.1, other.2, other.3, other.4, other.5, other.6, other.7, other.8)
    }
}

impl<A1, A2, A3, A4, B1> TupleConcat<(B1,)> for (A1, A2, A3, A4) {
    type Res = (A1, A2, A3, A4, B1);

    open spec fn spec_concat(self, other: (B1,)) -> (A1, A2, A3, A4, B1) {
        (self.0, self.1, self.2, self.3, other.0)
    }

    fn concat(self, other: (B1,)) -> (r: (A1, A2, A3, A4, B1)) {
        (self.0, self.1, self.2, self.3, other.0)
    }
}

impl<A1, A2, A3, A4, B1, B2> TupleConcat<(B1, B2)> for (A1, A2, A3, A4) {
    type Res = (A1, A2, A3, A4, B1, B2);

    open spec fn spec_concat(self, other: (B1, B2)) -> (A1, A2, A3, A4, B1, B2) {
        (self.0, self.1, self.2, self.3, other.0, other.1)
    }

    fn concat(self, other: (B1, B2)) -> (r: (A1, A2, A3, A4, B1, B2)) {
        (self.0, self.1, self.2, self.3, other.0, other.1)
    }
}

impl<A1, A2, A3, A4, B1, B2, B3> TupleConcat<(B1, B2, B3)> for (A1, A2, A3, A4) {
    type Res = (A1, A2, A3, A4, B1, B2, B3);

    open spec fn spec_concat(self, other: (B1, B2, B3)) -> (A1, A2, A3, A4, B1, B2, B3) {
        (self.0, self.1, self.2, self.3, other.0, other.1, other.2)
    }

    fn concat(self, other: (B1, B2, B3)) -> (r: (A1, A2, A3, A4, B1, B2, B3)) {
        (self.0, self.1, self.2, self.3, other.0, other.1, other.2)
    }
}

impl<A1, A2, A3, A4, B1, B2, B3, B4> TupleConcat<(B1, B2, B3, B4)> for (A1, A2, A3, A4) {
    type Res = (A1, A2, A3, A4, B1, B2, B3, B4);

    open spec fn spec_concat(self, other: (B1, B2, B3, B4)) -> (A1, A2, A3, A4, B1, B2, B3, B4) {
        (self.0, self.1, self.2, self.3, other.0, other.1, other.2, other.3)
    }

    fn concat(self, other: (B1, B2, B3, B4)) -> (r: (A1, A2, A3, A4, B1, B2, B3, B4)) {
        (self.0, self.1, self.2, self.3, other.0, other.1, other.2, other.3)
    }
}

impl<A1, A2, A3, A4, B1, B2, B3, B4, B5> TupleConcat<(B1, B2, B3, B4, B5)> for (A1, A2, A3, A4) {
    type Res = (A1, A2, A3, A4, B1, B2, B3, B4, B5);

    open spec fn spec_concat(self, other: (B1, B2, B3, B4, B5)) -> (A1, A2, A3, A4, B1, B2, B3, B4, B5) {
        (self.0, self.1, self.2, self.3, other.0, other.1, other.2, other.3, other.4)
    }

    fn concat(self, other: (B1, B2, B3, B4, B5)) -> (r: (A1, A2, A3, A4, B1, B2, B3, B4, B5)) {
        (self.0, self.1, self.2, self.3, other.0, other.1, other.2, other.3, other.4)
    }
}

impl<A1, A2, A3, A4, B1, B2, B3, B4, B5, B6> TupleConcat<(B1, B2, B3, B4, B5, B6)> for (A1, A2, A3, A4) {
    type Res = (A1, A2, A3, A4, B1, B2, B3, B4, B5, B6);

    open spec fn spec_concat(self, other: (B1, B2, B3, B4, B5, B6)) -> (A1, A2, A3, A4, B1, B2, B3, B4, B5, B6) {
        (self.0, self.1, self.2, self.3, other.0, other.1, other.2, other.3, other.4, other.5)
    }

    fn concat(self, other: (B1, B2, B3, B4, B5, B6)) -> (r: (A1, A2, A3, A4, B1, B2, B3, B4, B5, B6)) {
        (self.0, self.1, self.2, self.3, other.0, other.1, other.2, other.3, other.4, other.5)
    }
}

impl<A1, A2, A3, A4, B1, B2, B3, B4, B5, B6, B7> TupleConcat<(B1, B2, B3, B4, B5, B6, B7)> for (A1, A2, A3, A4) {
    type Res = (A1, A2, A3, A4, B1, B2, B3, B4, B5, B6, B7);

    open spec fn spec_concat(self, other: (B1, B2, B3, B4, B5, B6, B7)) -> (A1, A2, A3, A4, B1, B2, B3, B4, B5, B6, B7) {
        (self.0, self.1, self.2, self.3, other.0, other.1, other.2, other.3, other.4, other.5, other.6)
    }

    fn concat(self, other: (B1, B2, B3, B4, B5, B6, B7)) -> (r: (A1, A2, A3, A4, B1, B2, B3, B4, B5, B6, B7)) {
        (self.0, self.1, self.2, self.3, other.0, other.1, other.2, other.3, other.4, other.5, other.6)
    }
}

impl<A1, A2, A3, A4, B1, B2, B3, B4, B5, B6, B7, B8> TupleConcat<(B1, B2, B3, B4, B5, B6, B7, B8)> for (A1, A2, A3, A4) {
    type Res = (A1, A2, A3, A4, B1, B2, B3, B4, B5, B6, B7, B8);

    open spec fn spec_concat(self, other: (B1, B2, B3, B4, B5, B6, B7, B8)) -> (A1, A2, A3, A4, B1, B2, B3, B4, B5, B6, B7, B8) {
        (self.0, self.1, self.2, self.3, other.0, other.1, other.2, other.3, other.4, other.5, other.6, other.7)
    }

    fn concat(self, other: (B1, B2, B3, B4, B5, B6, B7, B8)) -> (r: (A1, A2, A3, A4, B1, B2, B3, B4, B5, B6, B7, B8)) {
        (self.0, self.1, self.2, self.3, other.0, other.1, other.2, other.3, other.4, other.5, other.6, other.7)
    }
}

impl<A1, A2, A3, A4, A5, B1> TupleConcat<(B1,)> for (A1, A2, A3, A4, A5) {
    type Res = (A1, A2, A3, A4, A5, B1);

    open spec fn spec_concat(self, other: (B1,)) -> (A1, A2, A3, A4, A5, B1) {
        (self.0, self.1, self.2, self.3, self.4, other.0)
    }

    fn concat(self, other: (B1,)) -> (r: (A1, A2, A3, A4, A5, B1)) {
        (self.0, self.1, self.2, self.3, self.4, other.0)
    }
}

impl<A1, A2, A3, A4, A5, B1, B2> TupleConcat<(B1, B2)> for (A1, A2, A3, A4, A5) {
    type Res = (A1, A2, A3, A4, A5, B1, B2);

    open spec fn spec_concat(self, other: (B1, B2)) -> (A1, A2, A3, A4, A5, B1, B2) {
        (self.0, self.1, self.2, self.3, self.4, other.0, other.1)
    }

    fn concat(self, other: (B1, B2)) -> (r: (A1, A2, A3, A4, A5, B1, B2)) {
        (self.0, self.1, self.2, self.3, self.4, other.0, other.1)
    }
}

impl<A1, A2, A3, A4, A5, B1, B2, B3> TupleConcat<(B1, B2, B3)> for (A1, A2, A3, A4, A5) {
    type Res = (A1, A2, A3, A4, A5, B1, B2, B3);

    open spec fn spec_concat(self, other: (B1, B2, B3)) -> (A1, A2, A3, A4, A5, B1, B2, B3) {
        (self.0, self.1, self.2, self.3, self.4, other.0, other.1, other.2)
    }

    fn concat(self, other: (B1, B2, B3)) -> (r: (A1, A2, A3, A4, A5, B1, B2, B3)) {
        (self.0, self.1, self.2, self.3, self.4, other.0, other.1, other.2)
    }
}

impl<A1, A2, A3, A4, A5, B1, B2, B3, B4> TupleConcat<(B1, B2, B3, B4)> for (A1, A2, A3, A4, A5) {
    type Res = (A1, A2, A3, A4, A5, B1, B2, B3, B4);

    open spec fn spec_concat(self, other: (B1, B2, B3, B4)) -> (A1, A2, A3, A4, A5, B1, B2, B3, B4) {
        (self.0, self.1, self.2, self.3, self.4, other.0, other.1, other.2, other.3)
    }

    fn concat(self, other: (B1, B2, B3, B4)) -> (r: (A1, A2, A3, A4, A5, B1, B2, B3, B4)) {
        (self.0, self.1, self.2, self.3, self.4, other.0, other.1, other.2, other.3)
    }
}

impl<A1, A2, A3, A4, A5, B1, B2, B3, B4, B5> TupleConcat<(B1, B2, B3, B4, B5)> for (A1, A2, A3, A4, A5) {
    type Res = (A1, A2, A3, A4, A5, B1, B2, B3, B4, B5);

    open spec fn spec_concat(self, other: (B1, B2, B3, B4, B5)) -> (A1, A2, A3, A4, A5, B1, B2, B3, B4, B5) {
        (self.0, self.1, self.2, self.3, self.4, other.0, other.1, other.2, other.3, other.4)
    }

    fn concat(self, other: (B1, B2, B3, B4, B5)) -> (r: (A1, A2, A3, A4, A5, B1, B2, B3, B4, B5)) {
        (self.0, self.1, self.2, self.3, self.4, other.0, other.1, other.2, other.3, other.4)
    }
}

impl<A1, A2, A3, A4, A5, B1, B2, B3, B4, B5, B6> TupleConcat<(B1, B2, B3, B4, B5, B6)> for (A1, A2, A3, A4, A5) {
    type Res = (A1, A2, A3, A4, A5, B1, B2, B3, B4, B5, B6);

    open spec fn spec_concat(self, other: (B1, B2, B3, B4, B5, B6)) -> (A1, A2, A3, A4, A5, B1, B2, B3, B4, B5, B6) {
        (self.0, self.1, self.2, self.3, self.4, other.0, other.1, other.2, other.3, other.4, other.5)
    }

    fn concat(self, other: (B1, B2, B3, B4, B5, B6)) -> (r: (A1, A2, A3, A4, A5, B1, B2, B3, B4, B5, B6)) {
        (self.0, self.1, self.2, self.3, self.4, other.0, other.1, other.2, other.3, other.4, other.5)
    }
}

impl<A1, A2, A3, A4, A5, B1, B2, B3, B4, B5, B6, B7> TupleConcat<(B1, B2, B3, B4, B5, B6, B7)> for (A1, A2, A3, A4, A5) {
    type Res = (A1, A2, A3, A4, A5, B1, B2, B3, B4, B5, B6, B7);

    open spec fn spec_concat(self, other: (B1, B2, B3, B4, B5, B6, B7)) -> (A1, A2, A3, A4, A5, B1, B2, B3, B4, B5, B6, B7) {
        (self.0, self.1, self.2, self.3, self.4, other.0, other.1, other.2, other.3, other.4, other.5, other.6)
    }

    fn concat(self, other: (B1, B2, B3, B4, B5, B6, B7)) -> (r: (A1, A2, A3, A4, A5, B1, B2, B3, B4, B5, B6, B7)) {
        (self.0, self.1, self.2, self.3, self.4, other.0, other.1, other.2, other.3, other.4, other.5, other.6)
    }
}

impl<A1, A2, A3, A4, A5, A6, B1> TupleConcat<(B1,)> for (A1, A2, A3, A4, A5, A6) {
    type Res = (A1, A2, A3, A4, A5, A6, B1);

    open spec fn spec_concat(self, other: (B1,)) -> (A1, A2, A3, A4, A5, A6, B1) {
        (self.0, self.1, self.2, self.3, self.4, self.5, other.0)
    }

    fn concat(self, other: (B1,)) -> (r: (A1, A2, A3, A4, A5, A6, B1)) {
        (self.0, self.1, self.2, self.3, self.4, self.5, other.0)
    }
}

impl<A1, A2, A3, A4, A5, A6, B1, B2> TupleConcat<(B1, B2)> for (A1, A2, A3, A4, A5, A6) {
    type Res = (A1, A2, A3, A4, A5, A6, B1, B2);

    open spec fn spec_concat(self, other: (B1, B2)) -> (A1, A2, A3, A4, A5, A6, B1, B2) {
        (self.0, self.1, self.2, self.3, self.4, self.5, other.0, other.1)
    }

    fn concat(self, other: (B1, B2)) -> (r: (A1, A2, A3, A4, A5, A6, B1, B2)) {
        (self.0, self.1, self.2, self.3, self.4, self.5, other.0, other.1)
    }
}

impl<A1, A2, A3, A4, A5, A6, B1, B2, B3> TupleConcat<(B1, B2, B3)> for (A1, A2, A3, A4, A5, A6) {
    type Res = (A1, A2, A3, A4, A5, A6, B1, B2, B3);

    open spec fn spec_concat(self, other: (B1, B2, B3)) -> (A1, A2, A3, A4, A5, A6, B1, B2, B3) {
        (self.0, self.1, self.2, self.3, self.4, self.5, other.0, other.1, other.2)
    }

    fn concat(self, other: (B1, B2, B3)) -> (r: (A1, A2, A3, A4, A5, A6, B1, B2, B3)) {
        (self.0, self.1, self.2, self.3, self.4, self.5, other.0, other.1, other.2)
    }
}

impl<A1, A2, A3, A4, A5, A6, B1, B2, B3, B4> TupleConcat<(B1, B2, B3, B4)> for (A1, A2, A3, A4, A5, A6) {
    type Res = (A1, A2, A3, A4, A5, A6, B1, B2, B3, B4);

    open spec fn spec_concat(self, other: (B1, B2, B3, B4)) -> (A1, A2, A3, A4, A5, A6, B1, B2, B3, B4) {
        (self.0, self.1, self.2, self.3, self.4, self.5, other.0, other.1, other.2, other.3)
    }

    fn concat(self, other: (B1, B2, B3, B4)) -> (r: (A1, A2, A3, A4, A5, A6, B1, B2, B3, B4)) {
        (self.0, self.1, self.2, self.3, self.4, self.5, other.0, other.1, other.2, other.3)
    }
}

impl<A1, A2, A3, A4, A5, A6, B1, B2, B3, B4, B5> TupleConcat<(B1, B2, B3, B4, B5)> for (A1, A2, A3, A4, A5, A6) {
    type Res = (A1, A2, A3, A4, A5, A6, B1, B2, B3, B4, B5);

    open spec fn spec_concat(self, other: (B1, B2, B3, B4, B5)) -> (A1, A2, A3, A4, A5, A6, B1, B2, B3, B4, B5) {
        (self.0, self.1, self.2, self.3, self.4, self.5, other.0, other.1, other.2, other.3, other.4)
    }

    fn concat(self, other: (B1, B2, B3, B4, B5)) -> (r: (A1, A2, A3, A4, A5, A6, B1, B2, B3, B4, B5)) {
        (self.0, self.1, self.2, self.3, self.4, self.5, other.0, other.1, other.2, other.3, other.4)
    }
}

impl<A1, A2, A3, A4, A5, A6, B1, B2, B3, B4, B5, B6> TupleConcat<(B1, B2, B3, B4, B5, B6)> for (A1, A2, A3, A4, A5, A6) {
    type Res = (A1, A2, A3, A4, A5, A6, B1, B2, B3, B4, B5, B6);

    open spec fn spec_concat(self, other: (B1, B2, B3, B4, B5, B6)) -> (A1, A2, A3, A4, A5, A6, B1, B2, B3, B4, B5, B6) {
        (self.0, self.1, self.2, self.3, self.4, self.5, other.0, other.1, other.2, other.3, other.4, other.5)
    }

    fn concat(self, other: (B1, B2, B3, B4, B5, B6)) -> (r: (A1, A2, A3, A4, A5, A6, B1, B2, B3, B4, B5, B6)) {
        (self.0, self.1, self.2, self.3, self.4, self.5, other.0, other.1, other.2, other.3, other.4, other.5)
    }
}

impl<A1, A2, A3, A4, A5, A6, A7, B1> TupleConcat<(B1,)> for (A1, A2, A3, A4, A5, A6, A7) {
    type Res = (A1, A2, A3, A4, A5, A6, A7, B1);

    open spec fn spec_concat(self, other: (B1,)) -> (A1, A2, A3, A4, A5, A6, A7, B1) {
        (self.0, self.1, self.2, self.3, self.4, self.5, self.6, other.0)
    }

    fn concat(self, other: (B1,)) -> (r: (A1, A2, A3, A4, A5, A6, A7, B1)) {
        (self.0, self.1, self.2, self.3, self.4, self.5, self.6, other.0)
    }
}

impl<A1, A2, A3, A4, A5, A6, A7, B1, B2> TupleConcat<(B1, B2)> for (A1, A2, A3, A4, A5, A6, A7) {
    type Res = (A1, A2, A3, A4, A5, A6, A7, B1, B2);

    open spec fn spec_concat(self, other: (B1, B2)) -> (A1, A2, A3, A4, A5, A6, A7, B1, B2) {
        (self.0, self.1, self.2, self.3, self.4, self.5, self.6, other.0, other.1)
    }

    fn concat(self, other: (B1, B2)) -> (r: (A1, A2, A3, A4, A5, A6, A7, B1, B2)) {
        (self.0, self.1, self.2, self.3, self.4, self.5, self.6, other.0, other.1)
    }
}

impl<A1, A2, A3, A4, A5, A6, A7, B1, B2, B3> TupleConcat<(B1, B2, B3)> for (A1, A2, A3, A4, A5, A6, A7) {
    type Res = (A1, A2, A3, A4, A5, A6, A7, B1, B2, B3);

    open spec fn spec_concat(self, other: (B1, B2, B3)) -> (A1, A2, A3, A4, A5, A6, A7, B1, B2, B3) {
        (self.0, self.1, self.2, self.3, self.4, self.5, self.6, other.0, other.1, other.2)
    }

    fn concat(self, other: (B1, B2, B3)) -> (r: (A1, A2, A3, A4, A5, A6, A7, B1, B2, B3)) {
        (self.0, self.1, self.2, self.3, self.4, self.5, self.6, other.0, other.1, other.2)
    }
}

impl<A1, A2, A3, A4, A5, A6, A7, B1, B2, B3, B4> TupleConcat<(B1, B2, B3, B4)> for (A1, A2, A3, A4, A5, A6, A7) {
    type Res = (A1, A2, A3, A4, A5, A6, A7, B1, B2, B3, B4);

    open spec fn spec_concat(self, other: (B1, B2, B3, B4)) -> (A1, A2, A3, A4, A5, A6, A7, B1, B2, B3, B4) {
        (self.0, self.1, self.2, self.3, self.4, self.5, self.6, other.0, other.1, other.2, other.3)
    }

    fn concat(self, other: (B1, B2, B3, B4)) -> (r: (A1, A2, A3, A4, A5, A6, A7, B1, B2, B3, B4)) {
        (self.0, self.1, self.2, self.3, self.4, self.5, self.6, other.0, other.1, other.2, other.3)
    }
}

impl<A1, A2, A3, A4, A5, A6, A7, B1, B2, B3, B4, B5> TupleConcat<(B1, B2, B3, B4, B5)> for (A1, A2, A3, A4, A5, A6, A7) {
    type Res = (A1, A2, A3, A4, A5, A6, A7, B1, B2, B3, B4, B5);

    open spec fn spec_concat(self, other: (B1, B2, B3, B4, B5)) -> (A1, A2, A3, A4, A5, A6, A7, B1, B2, B3, B4, B5) {
        (self.0, self.1, self.2, self.3, self.4, self.5, self.6, other.0, other.1, other.2, other.3, other.4)
    }

    fn concat(self, other: (B1, B2, B3, B4, B5)) -> (r: (A1, A2, A3, A4, A5, A6, A7, B1, B2, B3, B4, B5)) {
        (self.0, self.1, self.2, self.3, self.4, self.5, self.6, other.0, other.1, other.2, other.3, other.4)
    }
}

impl<A1, A2, A3, A4, A5, A6, A7, A8, B1> TupleConcat<(B1,)> for (A1, A2, A3, A4, A5, A6, A7, A8) {
    type Res = (A1, A2, A3, A4, A5, A6, A7, A8, B1);

    open spec fn spec_concat(self, other: (B1,)) -> (A1, A2, A3, A4, A5, A6, A7, A8, B1) {
        (self.0, self.1, self.2, self.3, self.4, self.5, self.6, self.7, other.0)
    }

    fn concat(self, other: (B1,)) -> (r: (A1, A2, A3, A4, A5, A6, A7, A8, B1)) {
        (self.0, self.1, self.2, self.3, self.4, self.5, self.6, self.7, other.0)
    }
}

impl<A1, A2, A3, A4, A5, A6, A7, A8, B1, B2> TupleConcat<(B1, B2)> for (A1, A2, A3, A4, A5, A6, A7, A8) {
    type Res = (A1, A2, A3, A4, A5, A6, A7, A8, B1, B2);

    open spec fn spec_concat(self, other: (B1, B2)) -> (A1, A2, A3, A4, A5, A6, A7, A8, B1, B2) {
        (self.0, self.1, self.2, self.3, self.4, self.5, self.6, self.7, other.0, other.1)
    }

    fn concat(self, other: (B1, B2)) -> (r: (A1, A2, A3, A4, A5, A6, A7, A8, B1, B2)) {
        (self.0, self.1, self.2, self.3, self.4, self.5, self.6, self.7, other.0, other.1)
    }
}

impl<A1, A2, A3, A4, A5, A6, A7, A8, B1, B2, B3> TupleConcat<(B1, B2, B3)> for (A1, A2, A3, A4, A5, A6, A7, A8) {
    type Res = (A1, A2, A3, A4, A5, A6, A7, A8, B1, B2, B3);

    open spec fn spec_concat(self, other: (B1, B2, B3)) -> (A1, A2, A3, A4, A5, A6, A7, A8, B1, B2, B3) {
        (self.0, self.1, self.2, self.3, self.4, self.5, self.6, self.7, other.0, other.1, other.2)
    }

    fn concat(self, other: (B1, B2, B3)) -> (r: (A1, A2, A3, A4, A5, A6, A7, A8, B1, B2, B3)) {
        (self.0, self.1, self.2, self.3, self.4, self.5, self.6, self.7, other.0, other.1, other.2)
    }
}

impl<A1, A2, A3, A4, A5, A6, A7, A8, B1, B2, B3, B4> TupleConcat<(B1, B2, B3, B4)> for (A1, A2, A3, A4, A5, A6, A7, A8) {
    type Res = (A1, A2, A3, A4, A5, A6, A7, A8, B1, B2, B3, B4);

    open spec fn spec_concat(self, other: (B1, B2, B3, B4)) -> (A1, A2, A3, A4, A5, A6, A7, A8, B1, B2, B3, B4) {
        (self.0, self.1, self.2, self.3, self.4, self.5, self.6, self.7, other.0, other.1, other.2, other.3)
    }

    fn concat(self, other: (B1, B2, B3, B4)) -> (r: (A1, A2, A3, A4, A5, A6, A7, A8, B1, B2, B3, B4)) {
        (self.0, self.1, self.2, self.3, self.4, self.5, self.6, self.7, other.0, other.1, other.2, other.3)
    }
}

impl<A1, A2, A3, A4, A5, A6, A7, A8, A9, B1> TupleConcat<(B1,)> for (A1, A2, A3, A4, A5, A6, A7, A8, A9) {
    type Res = (A1, A2, A3, A4, A5, A6, A7, A8, A9, B1);

    open spec fn spec_concat(self, other: (B1,)) -> (A1, A2, A3, A4, A5, A6, A7, A8, A9, B1) {
        (self.0, self.1, self.2, self.3, self.4, self.5, self.6, self.7, self.8, other.0)
    }

    fn concat(self, other: (B1,)) -> (r: (A1, A2, A3, A4, A5, A6, A7, A8, A9, B1)) {
        (self.0, self.1, self.2, self.3, self.4, self.5, self.6, self.7, self.8, other.0)
    }
}

impl<A1, A2, A3, A4, A5, A6, A7, A8, A9, B1, B2> TupleConcat<(B1, B2)> for (A1, A2, A3, A4, A5, A6, A7, A8, A9) {
    type Res = (A1, A2, A3, A4, A5, A6, A7, A8, A9, B1, B2);

    open spec fn spec_concat(self, other: (B1, B2)) -> (A1, A2, A3, A4, A5, A6, A7, A8, A9, B1, B2) {
        (self.0, self.1, self.2, self.3, self.4, self.5, self.6, self.7, self.8, other.0, other.1)
    }

    fn concat(self, other: (B1, B2)) -> (r: (A1, A2, A3, A4, A5, A6, A7, A8, A9, B1, B2)) {
        (self.0, self.1, self.2, self.3, self.4, self.5, self.6, self.7, self.8, other.0, other.1)
    }
}

impl<A1, A2, A3, A4, A5, A6, A7, A8, A9, B1, B2, B3> TupleConcat<(B1, B2, B3)> for (A1, A2, A3, A4, A5, A6, A7, A8, A9) {
    type Res = (A1, A2, A3, A4, A5, A6, A7, A8, A9, B1, B2, B3);

    open spec fn spec_concat(self, other: (B1, B2, B3)) -> (A1, A2, A3, A4, A5, A6, A7, A8, A9, B1, B2, B3) {
        (self.0, self.1, self.2, self.3, self.4, self.5, self.6, self.7, self.8, other.0, other.1, other.2)
    }

    fn concat(self, other: (B1, B2, B3)) -> (r: (A1, A2, A3, A4, A5, A6, A7, A8, A9, B1, B2, B3)) {
        (self.0, self.1, self.2, self.3, self.4, self.5, self.6, self.7, self.8, other.0, other.1, other.2)
    }
}

impl<A1, A2, A3, A4, A5, A6, A7, A8, A9, A10, B1> TupleConcat<(B1,)> for (A1, A2, A3, A4, A5, A6, A7, A8, A9, A10) {
    type Res = (A1, A2, A3, A4, A5, A6, A7, A8, A9, A10, B1);

    open spec fn spec_concat(self, other: (B1,)) -> (A1, A2, A3, A4, A5, A6, A7, A8, A9, A10, B1) {
        (self.0, self.1, self.2, self.3, self.4, self.5, self.6, self.7, self.8, self.9, other.0)
    }

    fn concat(self, other: (B1,)) -> (r: (A1, A2, A3, A4, A5, A6, A7, A8, A9, A10, B1)) {
        (self.0, self.1, self.2, self.3, self.4, self.5, self.6, self.7, self.8, self.9, other.0)
    }
}

impl<A1, A2, A3, A4, A5, A6, A7, A8, A9, A10, B1, B2> TupleConcat<(B1, B2)> for (A1, A2, A3, A4, A5, A6, A7, A8, A9, A10) {
    type Res = (A1, A2, A3, A4, A5, A6, A7, A8, A9, A10, B1, B2);

    open spec fn spec_concat(self, other: (B1, B2)) -> (A1, A2, A3, A4, A5, A6, A7, A8, A9, A10, B1, B2) {
        (self.0, self.1, self.2, self.3, self.4, self.5, self.6, self.7, self.8, self.9, other.0, other.1)
    }

    fn concat(self, other: (B1, B2)) -> (r: (A1, A2, A3, A4, A5, A6, A7, A8, A9, A10, B1, B2)) {
        (self.0, self.1, self.2, self.3, self.4, self.5, self.6, self.7, self.8, self.9, other.0, other.1)
    }
}

impl<A1, A2, A3, A4, A5, A6, A7, A8, A9, A10, A11, B1> TupleConcat<(B1,)> for (A1, A2, A3, A4, A5, A6, A7, A8, A9, A10, A11) {
    type Res = (A1, A2, A3, A4, A5, A6, A7, A8, A9, A10, A11, B1);

    open spec fn spec_concat(self, other: (B1,)) -> (A1, A2, A3, A4, A5, A6, A7, A8, A9, A10, A11, B1) {
        (self.0, self.1, self.2, self.3, self.4, self.5, self.6, self.7, self.8, self.9, self.10, other.0)
    }

    fn concat(self, other: (B1,)) -> (r: (A1, A2, A3, A4, A5, A6, A7, A8, A9, A10, A11, B1)) {
        (self.0, self.1, self.2, self.3, self.4, self.5, self.6, self.7, self.8, self.9, self.10, other.0)
    }
}

/// The empty tuple is a right identity of concatenation: any tuple
/// concatenated with it is unchanged.
pub proof fn concat_empty_right<T: TupleTake>(t: T)
    ensures
        t.spec_concat(()) == t,
{
}

/// The empty tuple is a left identity of concatenation: concatenating
/// it with any tuple gives that tuple.
pub proof fn concat_empty_left<T: TupleTake>(t: T)
    ensures
        ().spec_concat(t) == t,
{
}

/// Concatenating the empty tuple with itself gives the empty tuple, so
/// the identity laws also cover the one tuple that [`TupleTake`] does
/// not.
pub proof fn concat_empty_unit()
    ensures
        ().spec_concat(()) == (),
{
}

} // verus!
