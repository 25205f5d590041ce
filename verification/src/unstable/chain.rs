//! The [`Chain`] combinator: run one function, then another on its
//! result.

use vstd::prelude::*;

verus! {

/// Chains two functions: `chain(f, g)` returns the combinator that,
/// when called on `a`, computes `g(f(a))`.
///
/// Building the combinator does no work; `f` and `g` run only when one
/// of the call methods of [`Chain`] is invoked.
pub fn chain<F, G>(f: F, g: G) -> (r: Chain<F, G>)
    ensures
        r == (Chain { f, g }),
{
    Chain { f, g }
}

/// A composition of two functions that runs `f` first and `g` on its
/// result.
///
/// `Chain` and [`crate::unstable::compose::Compose`] differ only in
/// the order of their arguments. The call methods take one argument:
/// `f` runs on a single value, and `g` on `f`'s result. For functions
/// of several arguments use the combinators whose call methods are
/// implemented per arity, such as [`crate::unstable::curry::Curry`]
/// and [`crate::unstable::untuple::Untuple`].
#[must_use]
#[derive(Debug, Clone, Copy)]
pub struct Chain<F, G> {
    /// The function that runs first.
    pub f: F,
    /// The function that runs on `f`'s result.
    pub g: G,
}

impl<F, G> Chain<F, G> {
    /// Builds the chain of `f` and `g`. The free function [`chain`] is
    /// the usual way to write this.
    pub fn new(f: F, g: G) -> (r: Self)
        ensures
            r == (Chain { f, g }),
    {
        Chain { f, g }
    }

    /// Returns the two functions inside the combinator.
    pub fn into_inner(self) -> (r: (F, G))
        ensures
            r == (self.f, self.g),
    {
        let Chain { f, g } = self;
        (f, g)
    }

    /// Returns references to the two functions inside the combinator.
    pub fn as_inner(&self) -> (r: (&F, &G))
        ensures
            *r.0 == self.f && *r.1 == self.g,
    {
        let Chain { f, g } = self;
        (f, g)
    }

    /// Runs the chain once, consuming it: `f` on `a`, then `g` on the
    /// result.
    pub fn call_once<A, B, C>(self, a: A) -> (c: C)
        where
            F: FnOnce(A) -> B,
            G: FnOnce(B) -> C,
        requires
            call_requires(self.f, (a,)),
            forall|b: B| call_ensures(self.f, (a,), b) ==> call_requires(self.g, (b,)),
        ensures
            exists|b: B| call_ensures(self.f, (a,), b) && call_ensures(self.g, (b,), c),
    {
        let Chain { f, g } = self;
        let b = f(a);
        g(b)
    }

    /// Runs the chain through a unique reference, so the two functions
    /// may mutate their captured state.
    pub fn call_mut<A, B, C>(&mut self, a: A) -> (c: C)
        where
            F: FnMut(A) -> B,
            G: FnMut(B) -> C,
        requires
            call_requires(old(self).f, (a,)),
            forall|b: B| call_ensures(old(self).f, (a,), b) ==> call_requires(old(self).g, (b,)),
        ensures
            exists|b: B|
                call_ensures(old(self).f, (a,), b) && call_ensures(old(self).g, (b,), c),
    {
        let b = (self.f)(a);
        (self.g)(b)
    }

    /// Runs the chain through a shared reference.
    pub fn call<A, B, C>(&self, a: A) -> (c: C)
        where
            F: Fn(A) -> B,
            G: Fn(B) -> C,
        requires
            call_requires(self.f, (a,)),
            forall|b: B| call_ensures(self.f, (a,), b) ==> call_requires(self.g, (b,)),
        ensures
            exists|b: B| call_ensures(self.f, (a,), b) && call_ensures(self.g, (b,), c),
    {
        let b = (self.f)(a);
        (self.g)(b)
    }
}

/// The `.chain` extension: `f.chain(g)` builds [`Chain`] of `f` and
/// `g`, available on every type.
pub trait FnExtChain: Sized {
    /// Chains `g` after `self`: the result, when called on `a`,
    /// computes `g(self(a))`.
    fn chain<G>(self, g: G) -> (r: Chain<Self, G>)
        ensures
            r == (Chain { f: self, g }),
    {
        Chain { f: self, g }
    }
}

impl<F> FnExtChain for F {
}

} // verus!
