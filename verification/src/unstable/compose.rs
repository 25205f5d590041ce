//! The [`Compose`] combinator: run one function on the result of
//! another.

use vstd::prelude::*;

verus! {

/// Composes two functions: `compose(f, g)` returns the combinator
/// that, when called on `a`, computes `f(g(a))`.
///
/// Building the combinator does no work; `f` and `g` run only when one
/// of the call methods of [`Compose`] is invoked.
pub fn compose<F, G>(f: F, g: G) -> (r: Compose<F, G>)
    ensures
        r == (Compose { f, g }),
{
    Compose { f, g }
}

/// A composition of two functions that runs `g` first and `f` on its
/// result.
///
/// `Compose` and [`crate::unstable::chain::Chain`] differ only in the
/// order of their arguments. The call methods take one argument: `g`
/// runs on a single value, and `f` on `g`'s result. For functions of
/// several arguments use the combinators whose call methods are
/// implemented per arity, such as [`crate::unstable::curry::Curry`]
/// and [`crate::unstable::untuple::Untuple`].
#[must_use]
#[derive(Debug, Clone, Copy)]
pub struct Compose<F, G> {
    /// The function that runs on `g`'s result.
    pub f: F,
    /// The function that runs first.
    pub g: G,
}

impl<F, G> Compose<F, G> {
    /// Builds the composition of `f` and `g`. The free function
    /// [`compose`] is the usual way to write this.
    pub fn new(f: F, g: G) -> (r: Self)
        ensures
            r == (Compose { f, g }),
    {
        Compose { f, g }
    }

    /// Returns the two functions inside the combinator.
    pub fn into_inner(self) -> (r: (F, G))
        ensures
            r == (self.f, self.g),
    {
        let Compose { f, g } = self;
        (f, g)
    }

    /// Returns references to the two functions inside the combinator.
    pub fn as_inner(&self) -> (r: (&F, &G))
        ensures
            *r.0 == self.f && *r.1 == self.g,
    {
        let Compose { f, g } = self;
        (f, g)
    }

    /// Runs the composition once, consuming it: `g` on `a`, then `f`
    /// on the result.
    pub fn call_once<A, B, C>(self, a: A) -> (c: C)
        where
            G: FnOnce(A) -> B,
            F: FnOnce(B) -> C,
        requires
            call_requires(self.g, (a,)),
            forall|b: B| call_ensures(self.g, (a,), b) ==> call_requires(self.f, (b,)),
        ensures
            exists|b: B| call_ensures(self.g, (a,), b) && call_ensures(self.f, (b,), c),
    {
        let Compose { f, g } = self;
        let b = g(a);
        f(b)
    }

    /// Runs the composition through a unique reference, so the two
    /// functions may mutate their captured state.
    pub fn call_mut<A, B, C>(&mut self, a: A) -> (c: C)
        where
            G: FnMut(A) -> B,
            F: FnMut(B) -> C,
        requires
            call_requires(old(self).g, (a,)),
            forall|b: B| call_ensures(old(self).g, (a,), b) ==> call_requires(old(self).f, (b,)),
        ensures
            exists|b: B|
                call_ensures(old(self).g, (a,), b) && call_ensures(old(self).f, (b,), c),
    {
        let b = (self.g)(a);
        (self.f)(b)
    }

    /// Runs the composition through a shared reference.
    pub fn call<A, B, C>(&self, a: A) -> (c: C)
        where
            G: Fn(A) -> B,
            F: Fn(B) -> C,
        requires
            call_requires(self.g, (a,)),
            forall|b: B| call_ensures(self.g, (a,), b) ==> call_requires(self.f, (b,)),
        ensures
            exists|b: B| call_ensures(self.g, (a,), b) && call_ensures(self.f, (b,), c),
    {
        let b = (self.g)(a);
        (self.f)(b)
    }
}

/// The `.compose` extension: `f.compose(g)` builds [`Compose`] of `f`
/// and `g`, available on every type.
pub trait FnExtCompose: Sized {
    /// Composes `self` with `g`: the result, when called on `a`,
    /// computes `self(g(a))`.
    fn compose<G>(self, g: G) -> (r: Compose<Self, G>)
        ensures
            r == (Compose { f: self, g }),
    {
        Compose { f: self, g }
    }
}

impl<F> FnExtCompose for F {
}

} // verus!
