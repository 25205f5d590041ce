//! Reversing the order of a tuple's elements.

use vstd::prelude::*;
use crate::sealed::Sealed;

verus! {

/// Reverses a tuple: the first element becomes the last, the last
/// becomes the first, the second becomes the second from the end, and
/// so on. Defined for every arity up to twelve.
pub trait FlipTuple: Sized + Sealed {
    /// The tuple type with the element types in reverse order.
    type Res;

    /// The reversed tuple, as a specification value.
    spec fn spec_flip(self) -> Self::Res;

    fn flip(self) -> (r: Self::Res)
        ensures
            r == self.spec_flip(),
    ;
}

impl FlipTuple for () {
    type Res = ();

    open spec fn spec_flip(self) -> () {
        ()
    }

    fn flip(self) -> (r: ()) {
        ()
    }
}

impl<A> FlipTuple for (A,) {
    type Res = (A,);

    open spec fn spec_flip(self) -> (A,) {
        (self.0,)
    }

    fn flip(self) -> (r: (A,)) {
        (self.0,)
    }
}

impl<A, B> FlipTuple for (A, B) {
    type Res = (B, A);

    open spec fn spec_flip(self) -> (B, A) {
        (self.1, self.0)
    }

    fn flip(self) -> (r: (B, A)) {
        (self.1, self.0)
    }
}

impl<A, B, C> FlipTuple for (A, B, C) {
    type Res = (C, B, A);

    open spec fn spec_flip(self) -> (C, B, A) {
        (self.2, self.1, self.0)
    }

    fn flip(self) -> (r: (C, B, A)) {
        (self.2, self.1, self.0)
    }
}

impl<A, B, C, D> FlipTuple for (A, B, C, D) {
    type Res = (D, C, B, A);

    open spec fn spec_flip(self) -> (D, C, B, A) {
        (self.3, self.2, self.1, self.0)
    }

    fn flip(self) -> (r: (D, C, B, A)) {
        (self.3, self.2, self.1, self.0)
    }
}

impl<A, B, C, D, E> FlipTuple for (A, B, C, D, E) {
    type Res = (E, D, C, B, A);

    open spec fn spec_flip(self) -> (E, D, C, B, A) {
        (self.4, self.3, self.2, self.1, self.0)
    }

    fn flip(self) -> (r: (E, D, C, B, A)) {
        (self.4, self.3, self.2, self.1, self.0)
    }
}

impl<A, B, C, D, E, F> FlipTuple for (A, B, C, D, E, F) {
    type Res = (F, E, D, C, B, A);

    open spec fn spec_flip(self) -> (F, E, D, C, B, A) {
        (self.5, self.4, self.3, self.2, self.1, self.0)
    }

    fn flip(self) -> (r: (F, E, D, C, B, A)) {
        (self.5, self.4, self.3, self.2, self.1, self.0)
    }
}

impl<A, B, C, D, E, F, G> FlipTuple for (A, B, C, D, E, F, G) {
    type Res = (G, F, E, D, C, B, A);

    open spec fn spec_flip(self) -> (G, F, E, D, C, B, A) {
        (self.6, self.5, self.4, self.3, self.2, self.1, self.0)
    }

    fn flip(self) -> (r: (G, F, E, D, C, B, A)) {
        (self.6, self.5, self.4, self.3, self.2, self.1, self.0)
    }
}

impl<A, B, C, D, E, F, G, H> FlipTuple for (A, B, C, D, E, F, G, H) {
    type Res = (H, G, F, E, D, C, B, A);

    open spec fn spec_flip(self) -> (H, G, F, E, D, C, B, A) {
        (self.7, self.6, self.5, self.4, self.3, self.2, self.1, self.0)
    }

    fn flip(self) -> (r: (H, G, F, E, D, C, B, A)) {
        (self.7, self.6, self.5, self.4, self.3, self.2, self.1, self.0)
    }
}

impl<A, B, C, D, E, F, G, H, I> FlipTuple for (A, B, C, D, E, F, G, H, I) {
    type Res = (I, H, G, F, E, D, C, B, A);

    open spec fn spec_flip(self) -> (I, H, G, F, E, D, C, B, A) {
        (self.8, self.7, self.6, self.5, self.4, self.3, self.2, self.1, self.0)
    }

    fn flip(self) -> (r: (I, H, G, F, E, D, C, B, A)) {
        (self.8, self.7, self.6, self.5, self.4, self.3, self.2, self.1, self.0)
    }
}

impl<A, B, C, D, E, F, G, H, I, J> FlipTuple for (A, B, C, D, E, F, G, H, I, J) {
    type Res = (J, I, H, G, F, E, D, C, B, A);

    open spec fn spec_flip(self) -> (J, I, H, G, F, E, D, C, B, A) {
        (self.9, self.8, self.7, self.6, self.5, self.4, self.3, self.2, self.1, self.0)
    }

    fn flip(self) -> (r: (J, I, H, G, F, E, D, C, B, A)) {
        (self.9, self.8, self.7, self.6, self.5, self.4, self.3, self.2, self.1, self.0)
    }
}

impl<A, B, C, D, E, F, G, H, I, J, K> FlipTuple for (A, B, C, D, E, F, G, H, I, J, K) {
    type Res = (K, J, I, H, G, F, E, D, C, B, A);

    open spec fn spec_flip(self) -> (K, J, I, H, G, F, E, D, C, B, A) {
        (self.10, self.9, self.8, self.7, self.6, self.5, self.4, self.3, self.2, self.1, self.0)
    }

    fn flip(self) -> (r: (K, J, I, H, G, F, E, D, C, B, A)) {
        (self.10, self.9, self.8, self.7, self.6, self.5, self.4, self.3, self.2, self.1, self.0)
    }
}

impl<A, B, C, D, E, F, G, H, I, J, K, L> FlipTuple for (A, B, C, D, E, F, G, H, I, J, K, L) {
    type Res = (L, K, J, I, H, G, F, E, D, C, B, A);

    open spec fn spec_flip(self) -> (L, K, J, I, H, G, F, E, D, C, B, A) {
        (self.11, self.10, self.9, self.8, self.7, self.6, self.5, self.4, self.3, self.2, self.1, self.0)
    }

    fn flip(self) -> (r: (L, K, J, I, H, G, F, E, D, C, B, A)) {
        (self.11, self.10, self.9, self.8, self.7, self.6, self.5, self.4, self.3, self.2, self.1, self.0)
    }
}

/// Flipping a tuple twice gives the original tuple back.
pub proof fn flip_involution_0(t: ())
    ensures
        t.spec_flip().spec_flip() == t,
{
}

/// Flipping a tuple twice gives the original tuple back.
pub proof fn flip_involution_1<A>(t: (A,))
    ensures
        t.spec_flip().spec_flip() == t,
{
}

/// Flipping a tuple twice gives the original tuple back.
pub proof fn flip_involution_2<A, B>(t: (A, B))
    ensures
        t.spec_flip().spec_flip() == t,
{
}

/// Flipping a tuple twice gives the original tuple back.
pub proof fn flip_involution_3<A, B, C>(t: (A, B, C))
    ensures
        t.spec_flip().spec_flip() == t,
{
}

/// Flipping a tuple twice gives the original tuple back.
pub proof fn flip_involution_4<A, B, C, D>(t: (A, B, C, D))
    ensures
        t.spec_flip().spec_flip() == t,
{
}

/// Flipping a tuple twice gives the original tuple back.
pub proof fn flip_involution_5<A, B, C, D, E>(t: (A, B, C, D, E))
    ensures
        t.spec_flip().spec_flip() == t,
{
}

/// Flipping a tuple twice gives the original tuple back.
pub proof fn flip_involution_6<A, B, C, D, E, F>(t: (A, B, C, D, E, F))
    ensures
        t.spec_flip().spec_flip() == t,
{
}

/// Flipping a tuple twice gives the original tuple back.
pub proof fn flip_involution_7<A, B, C, D, E, F, G>(t: (A, B, C, D, E, F, G))
    ensures
        t.spec_flip().spec_flip() == t,
{
}

/// Flipping a tuple twice gives the original tuple back.
pub proof fn flip_involution_8<A, B, C, D, E, F, G, H>(t: (A, B, C, D, E, F, G, H))
    ensures
        t.spec_flip().spec_flip() == t,
{
}

/// Flipping a tuple twice gives the original tuple back.
pub proof fn flip_involution_9<A, B, C, D, E, F, G, H, I>(t: (A, B, C, D, E, F, G, H, I))
    ensures
        t.spec_flip().spec_flip() == t,
{
}

/// Flipping a tuple twice gives the original tuple back.
pub proof fn flip_involution_10<A, B, C, D, E, F, G, H, I, J>(t: (A, B, C, D, E, F, G, H, I, J))
    ensures
        t.spec_flip().spec_flip() == t,
{
}

/// Flipping a tuple twice gives the original tuple back.
pub proof fn flip_involution_11<A, B, C, D, E, F, G, H, I, J, K>(t: (A, B, C, D, E, F, G, H, I, J, K))
    ensures
        t.spec_flip().spec_flip() == t,
{
}

/// Flipping a tuple twice gives the original tuple back.
pub proof fn flip_involution_12<A, B, C, D, E, F, G, H, I, J, K, L>(t: (A, B, C, D, E, F, G, H, I, J, K, L))
    ensures
        t.spec_flip().spec_flip() == t,
{
}

} // verus!
