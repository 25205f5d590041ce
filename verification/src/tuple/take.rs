//! Taking the first element from a tuple.

use vstd::prelude::*;
use crate::sealed::Sealed;
use crate::tuple::append::TupleAppend;

verus! {

/// Removes the element at the **start** of the tuple, giving the
/// element and the remaining tuple.
///
/// There is no implementation for the empty tuple: taking from it is
/// rejected at compile time rather than at run time.
pub trait TupleTake: Sized + Sealed {
    /// The taken element.
    type Take;

    /// What remains of the tuple once the first element is gone.
    type Rem;

    /// The taken element and the remaining tuple, as specification
    /// values.
    spec fn spec_take(self) -> (Self::Take, Self::Rem);

    fn take(self) -> (r: (Self::Take, Self::Rem))
        ensures
            r == self.spec_take(),
    ;
}

impl<T> TupleTake for (T,) {
    type Take = T;

    type Rem = ();

    open spec fn spec_take(self) -> (T, ()) {
        (self.0, ())
    }

    fn take(self) -> (r: (T, ())) {
        (self.0, ())
    }
}

impl<T, A> TupleTake for (T, A) {
    type Take = T;

    type Rem = (A,);

    open spec fn spec_take(self) -> (T, (A,)) {
        (self.0, (self.1,))
    }

    fn take(self) -> (r: (T, (A,))) {
        (self.0, (self.1,))
    }
}

impl<T, A, B> TupleTake for (T, A, B) {
    type Take = T;

    type Rem = (A, B);

    open spec fn spec_take(self) -> (T, (A, B)) {
        (self.0, (self.1, self.2))
    }

    fn take(self) -> (r: (T, (A, B))) {
        (self.0, (self.1, self.2))
    }
}

impl<T, A, B, C> TupleTake for (T, A, B, C) {
    type Take = T;

    type Rem = (A, B, C);

    open spec fn spec_take(self) -> (T, (A, B, C)) {
        (self.0, (self.1, self.2, self.3))
    }

    fn take(self) -> (r: (T, (A, B, C))) {
        (self.0, (self.1, self.2, self.3))
    }
}

impl<T, A, B, C, D> TupleTake for (T, A, B, C, D) {
    type Take = T;

    type Rem = (A, B, C, D);

    open spec fn spec_take(self) -> (T, (A, B, C, D)) {
        (self.0, (self.1, self.2, self.3, self.4))
    }

    fn take(self) -> (r: (T, (A, B, C, D))) {
        (self.0, (self.1, self.2, self.3, self.4))
    }
}

impl<T, A, B, C, D, E> TupleTake for (T, A, B, C, D, E) {
    type Take = T;

    type Rem = (A, B, C, D, E);

    open spec fn spec_take(self) -> (T, (A, B, C, D, E)) {
        (self.0, (self.1, self.2, self.3, self.4, self.5))
    }

    fn take(self) -> (r: (T, (A, B, C, D, E))) {
        (self.0, (self.1, self.2, self.3, self.4, self.5))
    }
}

impl<T, A, B, C, D, E, F> TupleTake for (T, A, B, C, D, E, F) {
    type Take = T;

    type Rem = (A, B, C, D, E, F);

    open spec fn spec_take(self) -> (T, (A, B, C, D, E, F)) {
        (self.0, (self.1, self.2, self.3, self.4, self.5, self.6))
    }

    fn take(self) -> (r: (T, (A, B, C, D, E, F))) {
        (self.0, (self.1, self.2, self.3, self.4, self.5, self.6))
    }
}

impl<T, A, B, C, D, E, F, G> TupleTake for (T, A, B, C, D, E, F, G) {
    type Take = T;

    type Rem = (A, B, C, D, E, F, G);

    open spec fn spec_take(self) -> (T, (A, B, C, D, E, F, G)) {
        (self.0, (self.1, self.2, self.3, self.4, self.5, self.6, self.7))
    }

    fn take(self) -> (r: (T, (A, B, C, D, E, F, G))) {
        (self.0, (self.1, self.2, self.3, self.4, self.5, self.6, self.7))
    }
}

impl<T, A, B, C, D, E, F, G, H> TupleTake for (T, A, B, C, D, E, F, G, H) {
    type Take = T;

    type Rem = (A, B, C, D, E, F, G, H);

    open spec fn spec_take(self) -> (T, (A, B, C, D, E, F, G, H)) {
        (self.0, (self.1, self.2, self.3, self.4, self.5, self.6, self.7, self.8))
    }

    fn take(self) -> (r: (T, (A, B, C, D, E, F, G, H))) {
        (self.0, (self.1, self.2, self.3, self.4, self.5, self.6, self.7, self.8))
    }
}

impl<T, A, B, C, D, E, F, G, H, I> TupleTake for (T, A, B, C, D, E, F, G, H, I) {
    type Take = T;

    type Rem = (A, B, C, D, E, F, G, H, I);

    open spec fn spec_take(self) -> (T, (A, B, C, D, E, F, G, H, I)) {
        (self.0, (self.1, self.2, self.3, self.4, self.5, self.6, self.7, self.8, self.9))
    }

    fn take(self) -> (r: (T, (A, B, C, D, E, F, G, H, I))) {
        (self.0, (self.1, self.2, self.3, self.4, self.5, self.6, self.7, self.8, self.9))
    }
}

impl<T, A, B, C, D, E, F, G, H, I, J> TupleTake for (T, A, B, C, D, E, F, G, H, I, J) {
    type Take = T;

    type Rem = (A, B, C, D, E, F, G, H, I, J);

    open spec fn spec_take(self) -> (T, (A, B, C, D, E, F, G, H, I, J)) {
        (self.0, (self.1, self.2, self.3, self.4, self.5, self.6, self.7, self.8, self.9, self.10))
    }

    fn take(self) -> (r: (T, (A, B, C, D, E, F, G, H, I, J))) {
        (self.0, (self.1, self.2, self.3, self.4, self.5, self.6, self.7, self.8, self.9, self.10))
    }
}

impl<T, A, B, C, D, E, F, G, H, I, J, K> TupleTake for (T, A, B, C, D, E, F, G, H, I, J, K) {
    type Take = T;

    type Rem = (A, B, C, D, E, F, G, H, I, J, K);

    open spec fn spec_take(self) -> (T, (A, B, C, D, E, F, G, H, I, J, K)) {
        (self.0, (self.1, self.2, self.3, self.4, self.5, self.6, self.7, self.8, self.9, self.10, self.11))
    }

    fn take(self) -> (r: (T, (A, B, C, D, E, F, G, H, I, J, K))) {
        (self.0, (self.1, self.2, self.3, self.4, self.5, self.6, self.7, self.8, self.9, self.10, self.11))
    }
}

/// Appending an element to the front and then taking the first
/// element gives the element and the original tuple back.
pub proof fn append_take_inverse_0<T>(t: (), e: T)
    ensures
        t.spec_append(e).spec_take() == (e, t),
{
}

/// Appending an element to the front and then taking the first
/// element gives the element and the original tuple back.
pub proof fn append_take_inverse_1<A, T>(t: (A,), e: T)
    ensures
        t.spec_append(e).spec_take() == (e, t),
{
}

/// Appending an element to the front and then taking the first
/// element gives the element and the original tuple back.
pub proof fn append_take_inverse_2<A, B, T>(t: (A, B), e: T)
    ensures
        t.spec_append(e).spec_take() == (e, t),
{
}

/// Appending an element to the front and then taking the first
/// element gives the element and the original tuple back.
pub proof fn append_take_inverse_3<A, B, C, T>(t: (A, B, C), e: T)
    ensures
        t.spec_append(e).spec_take() == (e, t),
{
}

/// Appending an element to the front and then taking the first
/// element gives the element and the original tuple back.
pub proof fn append_take_inverse_4<A, B, C, D, T>(t: (A, B, C, D), e: T)
    ensures
        t.spec_append(e).spec_take() == (e, t),
{
}

/// Appending an element to the front and then taking the first
/// element gives the element and the original tuple back.
pub proof fn append_take_inverse_5<A, B, C, D, E, T>(t: (A, B, C, D, E), e: T)
    ensures
        t.spec_append(e).spec_take() == (e, t),
{
}

/// Appending an element to the front and then taking the first
/// element gives the element and the original tuple back.
pub proof fn append_take_inverse_6<A, B, C, D, E, F, T>(t: (A, B, C, D, E, F), e: T)
    ensures
        t.spec_append(e).spec_take() == (e, t),
{
}

/// Appending an element to the front and then taking the first
/// element gives the element and the original tuple back.
pub proof fn append_take_inverse_7<A, B, C, D, E, F, G, T>(t: (A, B, C, D, E, F, G), e: T)
    ensures
        t.spec_append(e).spec_take() == (e, t),
{
}

/// Appending an element to the front and then taking the first
/// element gives the element and the original tuple back.
pub proof fn append_take_inverse_8<A, B, C, D, E, F, G, H, T>(t: (A, B, C, D, E, F, G, H), e: T)
    ensures
        t.spec_append(e).spec_take() == (e, t),
{
}

/// Appending an element to the front and then taking the first
/// element gives the element and the original tuple back.
pub proof fn append_take_inverse_9<A, B, C, D, E, F, G, H, I, T>(t: (A, B, C, D, E, F, G, H, I), e: T)
    ensures
        t.spec_append(e).spec_take() == (e, t),
{
}

/// Appending an element to the front and then taking the first
/// element gives the element and the original tuple back.
pub proof fn append_take_inverse_10<A, B, C, D, E, F, G, H, I, J, T>(t: (A, B, C, D, E, F, G, H, I, J), e: T)
    ensures
        t.spec_append(e).spec_take() == (e, t),
{
}

/// Appending an element to the front and then taking the first
/// element gives the element and the original tuple back.
pub proof fn append_take_inverse_11<A, B, C, D, E, F, G, H, I, J, K, T>(t: (A, B, C, D, E, F, G, H, I, J, K), e: T)
    ensures
        t.spec_append(e).spec_take() == (e, t),
{
}

} // verus!
