//! Popping the last element off a tuple.

use vstd::prelude::*;
use crate::sealed::Sealed;
use crate::tuple::push::TuplePush;

verus! {

/// Removes the element at the **end** of the tuple, giving the
/// remaining tuple and the element.
///
/// There is no implementation for the empty tuple: popping from it is
/// rejected at compile time rather than at run time.
pub trait TuplePop: Sized + Sealed {
    /// What remains of the tuple once the last element is gone.
    type Rem;

    /// The popped element.
    type Pop;

    /// The remaining tuple and the popped element, as specification
    /// values.
    spec fn spec_pop(self) -> (Self::Rem, Self::Pop);

    fn pop(self) -> (r: (Self::Rem, Self::Pop))
        ensures
            r == self.spec_pop(),
    ;
}

impl<T> TuplePop for (T,) {
    type Rem = ();

    type Pop = T;

    open spec fn spec_pop(self) -> ((), T) {
        ((), self.0)
    }

    fn pop(self) -> (r: ((), T)) {
        ((), self.0)
    }
}

impl<T, A> TuplePop for (A, T) {
    type Rem = (A,);

    type Pop = T;

    open spec fn spec_pop(self) -> ((A,), T) {
        ((self.0,), self.1)
    }

    fn pop(self) -> (r: ((A,), T)) {
        ((self.0,), self.1)
    }
}

impl<T, A, B> TuplePop for (A, B, T) {
    type Rem = (A, B);

    type Pop = T;

    open spec fn spec_pop(self) -> ((A, B), T) {
        ((self.0, self.1), self.2)
    }

    fn pop(self) -> (r: ((A, B), T)) {
        ((self.0, self.1), self.2)
    }
}

impl<T, A, B, C> TuplePop for (A, B, C, T) {
    type Rem = (A, B, C);

    type Pop = T;

    open spec fn spec_pop(self) -> ((A, B, C), T) {
        ((self.0, self.1, self.2), self.3)
    }

    fn pop(self) -> (r: ((A, B, C), T)) {
        ((self.0, self.1, self.2), self.3)
    }
}

impl<T, A, B, C, D> TuplePop for (A, B, C, D, T) {
    type Rem = (A, B, C, D);

    type Pop = T;

    open spec fn spec_pop(self) -> ((A, B, C, D), T) {
        ((self.0, self.1, self.2, self.3), self.4)
    }

    fn pop(self) -> (r: ((A, B, C, D), T)) {
        ((self.0, self.1, self.2, self.3), self.4)
    }
}

impl<T, A, B, C, D, E> TuplePop for (A, B, C, D, E, T) {
    type Rem = (A, B, C, D, E);

    type Pop = T;

    open spec fn spec_pop(self) -> ((A, B, C, D, E), T) {
        ((self.0, self.1, self.2, self.3, self.4), self.5)
    }

    fn pop(self) -> (r: ((A, B, C, D, E), T)) {
        ((self.0, self.1, self.2, self.3, self.4), self.5)
    }
}

impl<T, A, B, C, D, E, F> TuplePop for (A, B, C, D, E, F, T) {
    type Rem = (A, B, C, D, E, F);

    type Pop = T;

    open spec fn spec_pop(self) -> ((A, B, C, D, E, F), T) {
        ((self.0, self.1, self.2, self.3, self.4, self.5), self.6)
    }

    fn pop(self) -> (r: ((A, B, C, D, E, F), T)) {
        ((self.0, self.1, self.2, self.3, self.4, self.5), self.6)
    }
}

impl<T, A, B, C, D, E, F, G> TuplePop for (A, B, C, D, E, F, G, T) {
    type Rem = (A, B, C, D, E, F, G);

    type Pop = T;

    open spec fn spec_pop(self) -> ((A, B, C, D, E, F, G), T) {
        ((self.0, self.1, self.2, self.3, self.4, self.5, self.6), self.7)
    }

    fn pop(self) -> (r: ((A, B, C, D, E, F, G), T)) {
        ((self.0, self.1, self.2, self.3, self.4, self.5, self.6), self.7)
    }
}

impl<T, A, B, C, D, E, F, G, H> TuplePop for (A, B, C, D, E, F, G, H, T) {
    type Rem = (A, B, C, D, E, F, G, H);

    type Pop = T;

    open spec fn spec_pop(self) -> ((A, B, C, D, E, F, G, H), T) {
        ((self.0, self.1, self.2, self.3, self.4, self.5, self.6, self.7), self.8)
    }

    fn pop(self) -> (r: ((A, B, C, D, E, F, G, H), T)) {
        ((self.0, self.1, self.2, self.3, self.4, self.5, self.6, self.7), self.8)
    }
}

impl<T, A, B, C, D, E, F, G, H, I> TuplePop for (A, B, C, D, E, F, G, H, I, T) {
    type Rem = (A, B, C, D, E, F, G, H, I);

    type Pop = T;

    open spec fn spec_pop(self) -> ((A, B, C, D, E, F, G, H, I), T) {
        ((self.0, self.1, self.2, self.3, self.4, self.5, self.6, self.7, self.8), self.9)
    }

    fn pop(self) -> (r: ((A, B, C, D, E, F, G, H, I), T)) {
        ((self.0, self.1, self.2, self.3, self.4, self.5, self.6, self.7, self.8), self.9)
    }
}

impl<T, A, B, C, D, E, F, G, H, I, J> TuplePop for (A, B, C, D, E, F, G, H, I, J, T) {
    type Rem = (A, B, C, D, E, F, G, H, I, J);

    type Pop = T;

    open spec fn spec_pop(self) -> ((A, B, C, D, E, F, G, H, I, J), T) {
        ((self.0, self.1, self.2, self.3, self.4, self.5, self.6, self.7, self.8, self.9), self.10)
    }

    fn pop(self) -> (r: ((A, B, C, D, E, F, G, H, I, J), T)) {
        ((self.0, self.1, self.2, self.3, self.4, self.5, self.6, self.7, self.8, self.9), self.10)
    }
}

impl<T, A, B, C, D, E, F, G, H, I, J, K> TuplePop for (A, B, C, D, E, F, G, H, I, J, K, T) {
    type Rem = (A, B, C, D, E, F, G, H, I, J, K);

    type Pop = T;

    open spec fn spec_pop(self) -> ((A, B, C, D, E, F, G, H, I, J, K), T) {
        ((self.0, self.1, self.2, self.3, self.4, self.5, self.6, self.7, self.8, self.9, self.10), self.11)
    }

    fn pop(self) -> (r: ((A, B, C, D, E, F, G, H, I, J, K), T)) {
        ((self.0, self.1, self.2, self.3, self.4, self.5, self.6, self.7, self.8, self.9, self.10), self.11)
    }
}

/// Pushing an element onto the back and then popping gives the
/// original tuple and the element back.
pub proof fn push_pop_inverse_0<T>(t: (), e: T)
    ensures
        t.spec_push(e).spec_pop() == (t, e),
{
}

/// Pushing an element onto the back and then popping gives the
/// original tuple and the element back.
pub proof fn push_pop_inverse_1<A, T>(t: (A,), e: T)
    ensures
        t.spec_push(e).spec_pop() == (t, e),
{
}

/// Pushing an element onto the back and then popping gives the
/// original tuple and the element back.
pub proof fn push_pop_inverse_2<A, B, T>(t: (A, B), e: T)
    ensures
        t.spec_push(e).spec_pop() == (t, e),
{
}

/// Pushing an element onto the back and then popping gives the
/// original tuple and the element back.
pub proof fn push_pop_inverse_3<A, B, C, T>(t: (A, B, C), e: T)
    ensures
        t.spec_push(e).spec_pop() == (t, e),
{
}

/// Pushing an element onto the back and then popping gives the
/// original tuple and the element back.
pub proof fn push_pop_inverse_4<A, B, C, D, T>(t: (A, B, C, D), e: T)
    ensures
        t.spec_push(e).spec_pop() == (t, e),
{
}

/// Pushing an element onto the back and then popping gives the
/// original tuple and the element back.
pub proof fn push_pop_inverse_5<A, B, C, D, E, T>(t: (A, B, C, D, E), e: T)
    ensures
        t.spec_push(e).spec_pop() == (t, e),
{
}

/// Pushing an element onto the back and then popping gives the
/// original tuple and the element back.
pub proof fn push_pop_inverse_6<A, B, C, D, E, F, T>(t: (A, B, C, D, E, F), e: T)
    ensures
        t.spec_push(e).spec_pop() == (t, e),
{
}

/// Pushing an element onto the back and then popping gives the
/// original tuple and the element back.
pub proof fn push_pop_inverse_7<A, B, C, D, E, F, G, T>(t: (A, B, C, D, E, F, G), e: T)
    ensures
        t.spec_push(e).spec_pop() == (t, e),
{
}

/// Pushing an element onto the back and then popping gives the
/// original tuple and the element back.
pub proof fn push_pop_inverse_8<A, B, C, D, E, F, G, H, T>(t: (A, B, C, D, E, F, G, H), e: T)
    ensures
        t.spec_push(e).spec_pop() == (t, e),
{
}

/// Pushing an element onto the back and then popping gives the
/// original tuple and the element back.
pub proof fn push_pop_inverse_9<A, B, C, D, E, F, G, H, I, T>(t: (A, B, C, D, E, F, G, H, I), e: T)
    ensures
        t.spec_push(e).spec_pop() == (t, e),
{
}

/// Pushing an element onto the back and then popping gives the
/// original tuple and the element back.
pub proof fn push_pop_inverse_10<A, B, C, D, E, F, G, H, I, J, T>(t: (A, B, C, D, E, F, G, H, I, J), e: T)
    ensures
        t.spec_push(e).spec_pop() == (t, e),
{
}

/// Pushing an element onto the back and then popping gives the
/// original tuple and the element back.
pub proof fn push_pop_inverse_11<A, B, C, D, E, F, G, H, I, J, K, T>(t: (A, B, C, D, E, F, G, H, I, J, K), e: T)
    ensures
        t.spec_push(e).spec_pop() == (t, e),
{
}

} // verus!
