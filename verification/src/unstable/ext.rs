//! The [`FnExt`] extension trait: building combinators with method
//! syntax.

use vstd::prelude::*;
use crate::unstable::chain::Chain;
use crate::unstable::compose::Compose;
use crate::unstable::curry::{curry, Curry};
use crate::unstable::flip::Flip;
use crate::unstable::supply::{supply, Supply};

verus! {

/// Method-syntax shortcuts for building the combinators of
/// [`crate::unstable`]: `f.chain(g)`, `f.compose(g)`, `f.supply(x)`,
/// `f.flip()` and `f.curry()`. Available on every type; building a
/// combinator does no work until it is called.
pub trait FnExt: Sized {
    /// Chains `g` after `self`: the result, when called on `a`,
    /// computes `g(self(a))`.
    fn chain<G>(self, g: G) -> (r: Chain<Self, G>)
        ensures
            r == (Chain { f: self, g }),
    {
        Chain { f: self, g }
    }

    /// Composes `self` with `g`: the result, when called on `a`,
    /// computes `self(g(a))`.
    fn compose<G>(self, g: G) -> (r: Compose<Self, G>)
        ensures
            r == (Compose { f: self, g }),
    {
        Compose { f: self, g }
    }

    /// Supplies the first argument of `self`.
    fn supply<T, A>(self, argument: T) -> (r: Supply<T, Self, A>)
        ensures
            r.argument == argument,
            r.f == self,
    {
        supply(argument, self)
    }

    /// Flips the argument order of `self`.
    fn flip<A>(self) -> (r: Flip<Self, A>)
        ensures
            r.f == self,
    {
        Flip::new(self)
    }

    /// Curries `self`, so that it takes its arguments one at a time.
    fn curry<Rem>(self) -> (r: Curry<(), Self, Rem>)
        ensures
            r.supplied == (),
            r.f == self,
    {
        curry(self)
    }
}

impl<F> FnExt for F {
}

} // verus!
