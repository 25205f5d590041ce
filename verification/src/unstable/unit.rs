//! The [`Unit`] combinator: a function with its output discarded.

use vstd::prelude::*;
use core::marker::PhantomData;
use vstd::pervasive::cloned;

verus! {

/// Discards the output of `f`: the combinator runs `f` and returns
/// `()` instead of its result. The marker type `A` is the argument
/// tuple that `f` accepts.
pub fn unit<A, F>(f: F) -> (r: Unit<F, A>)
    ensures
        r.f == f,
{
    Unit { f, marker: PhantomData }
}

/// A function `F` whose output is discarded. The call methods are
/// implemented for every arity of `A`, the argument tuple of `F`, up
/// to twelve.
#[must_use]
#[derive(Debug)]
pub struct Unit<F, A> {
    /// The function whose output is discarded.
    pub f: F,
    /// Marker for the argument tuple type; carries no data.
    pub marker: PhantomData<A>,
}

impl<F, A> Unit<F, A> {
    /// Wraps `f`. The free function [`unit`] is the usual way to write
    /// this.
    pub fn new(f: F) -> (r: Self)
        ensures
            r.f == f,
    {
        Unit { f, marker: PhantomData }
    }

    /// Returns the function inside the combinator.
    pub fn into_inner(self) -> (r: F)
        ensures
            r == self.f,
    {
        let Unit { f, marker: _ } = self;
        f
    }

    /// Returns a reference to the function inside the combinator.
    pub fn as_inner(&self) -> (r: &F)
        ensures
            *r == self.f,
    {
        &self.f
    }
}

impl<R, F: FnOnce() -> R> Unit<F, ()> {
    /// Runs the wrapped function once and discards its result,
    /// consuming the combinator.
    pub fn call_once(self) -> (u: ())
        requires
            call_requires(self.f, ()),
        ensures
            exists|b: R| call_ensures(self.f, (), b),
    {
        let _b = (self.f)();
    }
}

impl<R, F: FnMut() -> R> Unit<F, ()> {
    /// Runs the wrapped function through a unique reference and
    /// discards its result.
    pub fn call_mut(&mut self) -> (u: ())
        requires
            call_requires(old(self).f, ()),
        ensures
            exists|b: R| call_ensures(old(self).f, (), b),
    {
        let _b = (self.f)();
    }
}

impl<R, F: Fn() -> R> Unit<F, ()> {
    /// Runs the wrapped function through a shared reference and
    /// discards its result.
    pub fn call(&self) -> (u: ())
        requires
            call_requires(self.f, ()),
        ensures
            exists|b: R| call_ensures(self.f, (), b),
    {
        let _b = (self.f)();
    }
}

impl<A1, R, F: FnOnce(A1) -> R> Unit<F, (A1,)> {
    /// Runs the wrapped function once and discards its result,
    /// consuming the combinator.
    pub fn call_once(self, a1: A1) -> (u: ())
        requires
            call_requires(self.f, (a1,)),
        ensures
            exists|b: R| call_ensures(self.f, (a1,), b),
    {
        let _b = (self.f)(a1);
    }
}

impl<A1, R, F: FnMut(A1) -> R> Unit<F, (A1,)> {
    /// Runs the wrapped function through a unique reference and
    /// discards its result.
    pub fn call_mut(&mut self, a1: A1) -> (u: ())
        requires
            call_requires(old(self).f, (a1,)),
        ensures
            exists|b: R| call_ensures(old(self).f, (a1,), b),
    {
        let _b = (self.f)(a1);
    }
}

impl<A1, R, F: Fn(A1) -> R> Unit<F, (A1,)> {
    /// Runs the wrapped function through a shared reference and
    /// discards its result.
    pub fn call(&self, a1: A1) -> (u: ())
        requires
            call_requires(self.f, (a1,)),
        ensures
            exists|b: R| call_ensures(self.f, (a1,), b),
    {
        let _b = (self.f)(a1);
    }
}

impl<A1, A2, R, F: FnOnce(A1, A2) -> R> Unit<F, (A1, A2)> {
    /// Runs the wrapped function once and discards its result,
    /// consuming the combinator.
    pub fn call_once(self, a1: A1, a2: A2) -> (u: ())
        requires
            call_requires(self.f, (a1, a2)),
        ensures
            exists|b: R| call_ensures(self.f, (a1, a2), b),
    {
        let _b = (self.f)(a1, a2);
    }
}

impl<A1, A2, R, F: FnMut(A1, A2) -> R> Unit<F, (A1, A2)> {
    /// Runs the wrapped function through a unique reference and
    /// discards its result.
    pub fn call_mut(&mut self, a1: A1, a2: A2) -> (u: ())
        requires
            call_requires(old(self).f, (a1, a2)),
        ensures
            exists|b: R| call_ensures(old(self).f, (a1, a2), b),
    {
        let _b = (self.f)(a1, a2);
    }
}

impl<A1, A2, R, F: Fn(A1, A2) -> R> Unit<F, (A1, A2)> {
    /// Runs the wrapped function through a shared reference and
    /// discards its result.
    pub fn call(&self, a1: A1, a2: A2) -> (u: ())
        requires
            call_requires(self.f, (a1, a2)),
        ensures
            exists|b: R| call_ensures(self.f, (a1, a2), b),
    {
        let _b = (self.f)(a1, a2);
    }
}

impl<A1, A2, A3, R, F: FnOnce(A1, A2, A3) -> R> Unit<F, (A1, A2, A3)> {
    /// Runs the wrapped function once and discards its result,
    /// consuming the combinator.
    pub fn call_once(self, a1: A1, a2: A2, a3: A3) -> (u: ())
        requires
            call_requires(self.f, (a1, a2, a3)),
        ensures
            exists|b: R| call_ensures(self.f, (a1, a2, a3), b),
    {
        let _b = (self.f)(a1, a2, a3);
    }
}

impl<A1, A2, A3, R, F: FnMut(A1, A2, A3) -> R> Unit<F, (A1, A2, A3)> {
    /// Runs the wrapped function through a unique reference and
    /// discards its result.
    pub fn call_mut(&mut self, a1: A1, a2: A2, a3: A3) -> (u: ())
        requires
            call_requires(old(self).f, (a1, a2, a3)),
        ensures
            exists|b: R| call_ensures(old(self).f, (a1, a2, a3), b),
    {
        let _b = (self.f)(a1, a2, a3);
    }
}

impl<A1, A2, A3, R, F: Fn(A1, A2, A3) -> R> Unit<F, (A1, A2, A3)> {
    /// Runs the wrapped function through a shared reference and
    /// discards its result.
    pub fn call(&self, a1: A1, a2: A2, a3: A3) -> (u: ())
        requires
            call_requires(self.f, (a1, a2, a3)),
        ensures
            exists|b: R| call_ensures(self.f, (a1, a2, a3), b),
    {
        let _b = (self.f)(a1, a2, a3);
    }
}

impl<A1, A2, A3, A4, R, F: FnOnce(A1, A2, A3, A4) -> R> Unit<F, (A1, A2, A3, A4)> {
    /// Runs the wrapped function once and discards its result,
    /// consuming the combinator.
    pub fn call_once(self, a1: A1, a2: A2, a3: A3, a4: A4) -> (u: ())
        requires
            call_requires(self.f, (a1, a2, a3, a4)),
        ensures
            exists|b: R| call_ensures(self.f, (a1, a2, a3, a4), b),
    {
        let _b = (self.f)(a1, a2, a3, a4);
    }
}

impl<A1, A2, A3, A4, R, F: FnMut(A1, A2, A3, A4) -> R> Unit<F, (A1, A2, A3, A4)> {
    /// Runs the wrapped function through a unique reference and
    /// discards its result.
    pub fn call_mut(&mut self, a1: A1, a2: A2, a3: A3, a4: A4) -> (u: ())
        requires
            call_requires(old(self).f, (a1, a2, a3, a4)),
        ensures
            exists|b: R| call_ensures(old(self).f, (a1, a2, a3, a4), b),
    {
        let _b = (self.f)(a1, a2, a3, a4);
    }
}

impl<A1, A2, A3, A4, R, F: Fn(A1, A2, A3, A4) -> R> Unit<F, (A1, A2, A3, A4)> {
    /// Runs the wrapped function through a shared reference and
    /// discards its result.
    pub fn call(&self, a1: A1, a2: A2, a3: A3, a4: A4) -> (u: ())
        requires
            call_requires(self.f, (a1, a2, a3, a4)),
        ensures
            exists|b: R| call_ensures(self.f, (a1, a2, a3, a4), b),
    {
        let _b = (self.f)(a1, a2, a3, a4);
    }
}

impl<A1, A2, A3, A4, A5, R, F: FnOnce(A1, A2, A3, A4, A5) -> R> Unit<F, (A1, A2, A3, A4, A5)> {
    /// Runs the wrapped function once and discards its result,
    /// consuming the combinator.
    pub fn call_once(self, a1: A1, a2: A2, a3: A3, a4: A4, a5: A5) -> (u: ())
        requires
            call_requires(self.f, (a1, a2, a3, a4, a5)),
        ensures
            exists|b: R| call_ensures(self.f, (a1, a2, a3, a4, a5), b),
    {
        let _b = (self.f)(a1, a2, a3, a4, a5);
    }
}

impl<A1, A2, A3, A4, A5, R, F: FnMut(A1, A2, A3, A4, A5) -> R> Unit<F, (A1, A2, A3, A4, A5)> {
    /// Runs the wrapped function through a unique reference and
    /// discards its result.
    pub fn call_mut(&mut self, a1: A1, a2: A2, a3: A3, a4: A4, a5: A5) -> (u: ())
        requires
            call_requires(old(self).f, (a1, a2, a3, a4, a5)),
        ensures
            exists|b: R| call_ensures(old(self).f, (a1, a2, a3, a4, a5), b),
    {
        let _b = (self.f)(a1, a2, a3, a4, a5);
    }
}

impl<A1, A2, A3, A4, A5, R, F: Fn(A1, A2, A3, A4, A5) -> R> Unit<F, (A1, A2, A3, A4, A5)> {
    /// Runs the wrapped function through a shared reference and
    /// discards its result.
    pub fn call(&self, a1: A1, a2: A2, a3: A3, a4: A4, a5: A5) -> (u: ())
        requires
            call_requires(self.f, (a1, a2, a3, a4, a5)),
        ensures
            exists|b: R| call_ensures(self.f, (a1, a2, a3, a4, a5), b),
    {
        let _b = (self.f)(a1, a2, a3, a4, a5);
    }
}

impl<A1, A2, A3, A4, A5, A6, R, F: FnOnce(A1, A2, A3, A4, A5, A6) -> R> Unit<F, (A1, A2, A3, A4, A5, A6)> {
    /// Runs the wrapped function once and discards its result,
    /// consuming the combinator.
    pub fn call_once(self, a1: A1, a2: A2, a3: A3, a4: A4, a5: A5, a6: A6) -> (u: ())
        requires
            call_requires(self.f, (a1, a2, a3, a4, a5, a6)),
        ensures
            exists|b: R| call_ensures(self.f, (a1, a2, a3, a4, a5, a6), b),
    {
        let _b = (self.f)(a1, a2, a3, a4, a5, a6);
    }
}

impl<A1, A2, A3, A4, A5, A6, R, F: FnMut(A1, A2, A3, A4, A5, A6) -> R> Unit<F, (A1, A2, A3, A4, A5, A6)> {
    /// Runs the wrapped function through a unique reference and
    /// discards its result.
    pub fn call_mut(&mut self, a1: A1, a2: A2, a3: A3, a4: A4, a5: A5, a6: A6) -> (u: ())
        requires
            call_requires(old(self).f, (a1, a2, a3, a4, a5, a6)),
        ensures
            exists|b: R| call_ensures(old(self).f, (a1, a2, a3, a4, a5, a6), b),
    {
        let _b = (self.f)(a1, a2, a3, a4, a5, a6);
    }
}

impl<A1, A2, A3, A4, A5, A6, R, F: Fn(A1, A2, A3, A4, A5, A6) -> R> Unit<F, (A1, A2, A3, A4, A5, A6)> {
    /// Runs the wrapped function through a shared reference and
    /// discards its result.
    pub fn call(&self, a1: A1, a2: A2, a3: A3, a4: A4, a5: A5, a6: A6) -> (u: ())
        requires
            call_requires(self.f, (a1, a2, a3, a4, a5, a6)),
        ensures
            exists|b: R| call_ensures(self.f, (a1, a2, a3, a4, a5, a6), b),
    {
        let _b = (self.f)(a1, a2, a3, a4, a5, a6);
    }
}

impl<A1, A2, A3, A4, A5, A6, A7, R, F: FnOnce(A1, A2, A3, A4, A5, A6, A7) -> R> Unit<F, (A1, A2, A3, A4, A5, A6, A7)> {
    /// Runs the wrapped function once and discards its result,
    /// consuming the combinator.
    pub fn call_once(self, a1: A1, a2: A2, a3: A3, a4: A4, a5: A5, a6: A6, a7: A7) -> (u: ())
        requires
            call_requires(self.f, (a1, a2, a3, a4, a5, a6, a7)),
        ensures
            exists|b: R| call_ensures(self.f, (a1, a2, a3, a4, a5, a6, a7), b),
    {
        let _b = (self.f)(a1, a2, a3, a4, a5, a6, a7);
    }
}

impl<A1, A2, A3, A4, A5, A6, A7, R, F: FnMut(A1, A2, A3, A4, A5, A6, A7) -> R> Unit<F, (A1, A2, A3, A4, A5, A6, A7)> {
    /// Runs the wrapped function through a unique reference and
    /// discards its result.
    pub fn call_mut(&mut self, a1: A1, a2: A2, a3: A3, a4: A4, a5: A5, a6: A6, a7: A7) -> (u: ())
        requires
            call_requires(old(self).f, (a1, a2, a3, a4, a5, a6, a7)),
        ensures
            exists|b: R| call_ensures(old(self).f, (a1, a2, a3, a4, a5, a6, a7), b),
    {
        let _b = (self.f)(a1, a2, a3, a4, a5, a6, a7);
    }
}

impl<A1, A2, A3, A4, A5, A6, A7, R, F: Fn(A1, A2, A3, A4, A5, A6, A7) -> R> Unit<F, (A1, A2, A3, A4, A5, A6, A7)> {
    /// Runs the wrapped function through a shared reference and
    /// discards its result.
    pub fn call(&self, a1: A1, a2: A2, a3: A3, a4: A4, a5: A5, a6: A6, a7: A7) -> (u: ())
        requires
            call_requires(self.f, (a1, a2, a3, a4, a5, a6, a7)),
        ensures
            exists|b: R| call_ensures(self.f, (a1, a2, a3, a4, a5, a6, a7), b),
    {
        let _b = (self.f)(a1, a2, a3, a4, a5, a6, a7);
    }
}

impl<A1, A2, A3, A4, A5, A6, A7, A8, R, F: FnOnce(A1, A2, A3, A4, A5, A6, A7, A8) -> R> Unit<F, (A1, A2, A3, A4, A5, A6, A7, A8)> {
    /// Runs the wrapped function once and discards its result,
    /// consuming the combinator.
    pub fn call_once(self, a1: A1, a2: A2, a3: A3, a4: A4, a5: A5, a6: A6, a7: A7, a8: A8) -> (u: ())
        requires
            call_requires(self.f, (a1, a2, a3, a4, a5, a6, a7, a8)),
        ensures
            exists|b: R| call_ensures(self.f, (a1, a2, a3, a4, a5, a6, a7, a8), b),
    {
        let _b = (self.f)(a1, a2, a3, a4, a5, a6, a7, a8);
    }
}

impl<A1, A2, A3, A4, A5, A6, A7, A8, R, F: FnMut(A1, A2, A3, A4, A5, A6, A7, A8) -> R> Unit<F, (A1, A2, A3, A4, A5, A6, A7, A8)> {
    /// Runs the wrapped function through a unique reference and
    /// discards its result.
    pub fn call_mut(&mut self, a1: A1, a2: A2, a3: A3, a4: A4, a5: A5, a6: A6, a7: A7, a8: A8) -> (u: ())
        requires
            call_requires(old(self).f, (a1, a2, a3, a4, a5, a6, a7, a8)),
        ensures
            exists|b: R| call_ensures(old(self).f, (a1, a2, a3, a4, a5, a6, a7, a8), b),
    {
        let _b = (self.f)(a1, a2, a3, a4, a5, a6, a7, a8);
    }
}

impl<A1, A2, A3, A4, A5, A6, A7, A8, R, F: Fn(A1, A2, A3, A4, A5, A6, A7, A8) -> R> Unit<F, (A1, A2, A3, A4, A5, A6, A7, A8)> {
    /// Runs the wrapped function through a shared reference and
    /// discards its result.
    pub fn call(&self, a1: A1, a2: A2, a3: A3, a4: A4, a5: A5, a6: A6, a7: A7, a8: A8) -> (u: ())
        requires
            call_requires(self.f, (a1, a2, a3, a4, a5, a6, a7, a8)),
        ensures
            exists|b: R| call_ensures(self.f, (a1, a2, a3, a4, a5, a6, a7, a8), b),
    {
        let _b = (self.f)(a1, a2, a3, a4, a5, a6, a7, a8);
    }
}

impl<A1, A2, A3, A4, A5, A6, A7, A8, A9, R, F: FnOnce(A1, A2, A3, A4, A5, A6, A7, A8, A9) -> R> Unit<F, (A1, A2, A3, A4, A5, A6, A7, A8, A9)> {
    /// Runs the wrapped function once and discards its result,
    /// consuming the combinator.
    pub fn call_once(self, a1: A1, a2: A2, a3: A3, a4: A4, a5: A5, a6: A6, a7: A7, a8: A8, a9: A9) -> (u: ())
        requires
            call_requires(self.f, (a1, a2, a3, a4, a5, a6, a7, a8, a9)),
        ensures
            exists|b: R| call_ensures(self.f, (a1, a2, a3, a4, a5, a6, a7, a8, a9), b),
    {
        let _b = (self.f)(a1, a2, a3, a4, a5, a6, a7, a8, a9);
    }
}

impl<A1, A2, A3, A4, A5, A6, A7, A8, A9, R, F: FnMut(A1, A2, A3, A4, A5, A6, A7, A8, A9) -> R> Unit<F, (A1, A2, A3, A4, A5, A6, A7, A8, A9)> {
    /// Runs the wrapped function through a unique reference and
    /// discards its result.
    pub fn call_mut(&mut self, a1: A1, a2: A2, a3: A3, a4: A4, a5: A5, a6: A6, a7: A7, a8: A8, a9: A9) -> (u: ())
        requires
            call_requires(old(self).f, (a1, a2, a3, a4, a5, a6, a7, a8, a9)),
        ensures
            exists|b: R| call_ensures(old(self).f, (a1, a2, a3, a4, a5, a6, a7, a8, a9), b),
    {
        let _b = (self.f)(a1, a2, a3, a4, a5, a6, a7, a8, a9);
    }
}

impl<A1, A2, A3, A4, A5, A6, A7, A8, A9, R, F: Fn(A1, A2, A3, A4, A5, A6, A7, A8, A9) -> R> Unit<F, (A1, A2, A3, A4, A5, A6, A7, A8, A9)> {
    /// Runs the wrapped function through a shared reference and
    /// discards its result.
    pub fn call(&self, a1: A1, a2: A2, a3: A3, a4: A4, a5: A5, a6: A6, a7: A7, a8: A8, a9: A9) -> (u: ())
        requires
            call_requires(self.f, (a1, a2, a3, a4, a5, a6, a7, a8, a9)),
        ensures
            exists|b: R| call_ensures(self.f, (a1, a2, a3, a4, a5, a6, a7, a8, a9), b),
    {
        let _b = (self.f)(a1, a2, a3, a4, a5, a6, a7, a8, a9);
    }
}

impl<A1, A2, A3, A4, A5, A6, A7, A8, A9, A10, R, F: FnOnce(A1, A2, A3, A4, A5, A6, A7, A8, A9, A10) -> R> Unit<F, (A1, A2, A3, A4, A5, A6, A7, A8, A9, A10)> {
    /// Runs the wrapped function once and discards its result,
    /// consuming the combinator.
    pub fn call_once(self, a1: A1, a2: A2, a3: A3, a4: A4, a5: A5, a6: A6, a7: A7, a8: A8, a9: A9, a10: A10) -> (u: ())
        requires
            call_requires(self.f, (a1, a2, a3, a4, a5, a6, a7, a8, a9, a10)),
        ensures
            exists|b: R| call_ensures(self.f, (a1, a2, a3, a4, a5, a6, a7, a8, a9, a10), b),
    {
        let _b = (self.f)(a1, a2, a3, a4, a5, a6, a7, a8, a9, a10);
    }
}

impl<A1, A2, A3, A4, A5, A6, A7, A8, A9, A10, R, F: FnMut(A1, A2, A3, A4, A5, A6, A7, A8, A9, A10) -> R> Unit<F, (A1, A2, A3, A4, A5, A6, A7, A8, A9, A10)> {
    /// Runs the wrapped function through a unique reference and
    /// discards its result.
    pub fn call_mut(&mut self, a1: A1, a2: A2, a3: A3, a4: A4, a5: A5, a6: A6, a7: A7, a8: A8, a9: A9, a10: A10) -> (u: ())
        requires
            call_requires(old(self).f, (a1, a2, a3, a4, a5, a6, a7, a8, a9, a10)),
        ensures
            exists|b: R| call_ensures(old(self).f, (a1, a2, a3, a4, a5, a6, a7, a8, a9, a10), b),
    {
        let _b = (self.f)(a1, a2, a3, a4, a5, a6, a7, a8, a9, a10);
    }
}

impl<A1, A2, A3, A4, A5, A6, A7, A8, A9, A10, R, F: Fn(A1, A2, A3, A4, A5, A6, A7, A8, A9, A10) -> R> Unit<F, (A1, A2, A3, A4, A5, A6, A7, A8, A9, A10)> {
    /// Runs the wrapped function through a shared reference and
    /// discards its result.
    pub fn call(&self, a1: A1, a2: A2, a3: A3, a4: A4, a5: A5, a6: A6, a7: A7, a8: A8, a9: A9, a10: A10) -> (u: ())
        requires
            call_requires(self.f, (a1, a2, a3, a4, a5, a6, a7, a8, a9, a10)),
        ensures
            exists|b: R| call_ensures(self.f, (a1, a2, a3, a4, a5, a6, a7, a8, a9, a10), b),
    {
        let _b = (self.f)(a1, a2, a3, a4, a5, a6, a7, a8, a9, a10);
    }
}

impl<A1, A2, A3, A4, A5, A6, A7, A8, A9, A10, A11, R, F: FnOnce(A1, A2, A3, A4, A5, A6, A7, A8, A9, A10, A11) -> R> Unit<F, (A1, A2, A3, A4, A5, A6, A7, A8, A9, A10, A11)> {
    /// Runs the wrapped function once and discards its result,
    /// consuming the combinator.
    pub fn call_once(self, a1: A1, a2: A2, a3: A3, a4: A4, a5: A5, a6: A6, a7: A7, a8: A8, a9: A9, a10: A10, a11: A11) -> (u: ())
        requires
            call_requires(self.f, (a1, a2, a3, a4, a5, a6, a7, a8, a9, a10, a11)),
        ensures
            exists|b: R| call_ensures(self.f, (a1, a2, a3, a4, a5, a6, a7, a8, a9, a10, a11), b),
    {
        let _b = (self.f)(a1, a2, a3, a4, a5, a6, a7, a8, a9, a10, a11);
    }
}

impl<A1, A2, A3, A4, A5, A6, A7, A8, A9, A10, A11, R, F: FnMut(A1, A2, A3, A4, A5, A6, A7, A8, A9, A10, A11) -> R> Unit<F, (A1, A2, A3, A4, A5, A6, A7, A8, A9, A10, A11)> {
    /// Runs the wrapped function through a unique reference and
    /// discards its result.
    pub fn call_mut(&mut self, a1: A1, a2: A2, a3: A3, a4: A4, a5: A5, a6: A6, a7: A7, a8: A8, a9: A9, a10: A10, a11: A11) -> (u: ())
        requires
            call_requires(old(self).f, (a1, a2, a3, a4, a5, a6, a7, a8, a9, a10, a11)),
        ensures
            exists|b: R| call_ensures(old(self).f, (a1, a2, a3, a4, a5, a6, a7, a8, a9, a10, a11), b),
    {
        let _b = (self.f)(a1, a2, a3, a4, a5, a6, a7, a8, a9, a10, a11);
    }
}

impl<A1, A2, A3, A4, A5, A6, A7, A8, A9, A10, A11, R, F: Fn(A1, A2, A3, A4, A5, A6, A7, A8, A9, A10, A11) -> R> Unit<F, (A1, A2, A3, A4, A5, A6, A7, A8, A9, A10, A11)> {
    /// Runs the wrapped function through a shared reference and
    /// discards its result.
    pub fn call(&self, a1: A1, a2: A2, a3: A3, a4: A4, a5: A5, a6: A6, a7: A7, a8: A8, a9: A9, a10: A10, a11: A11) -> (u: ())
        requires
            call_requires(self.f, (a1, a2, a3, a4, a5, a6, a7, a8, a9, a10, a11)),
        ensures
            exists|b: R| call_ensures(self.f, (a1, a2, a3, a4, a5, a6, a7, a8, a9, a10, a11), b),
    {
        let _b = (self.f)(a1, a2, a3, a4, a5, a6, a7, a8, a9, a10, a11);
    }
}

impl<A1, A2, A3, A4, A5, A6, A7, A8, A9, A10, A11, A12, R, F: FnOnce(A1, A2, A3, A4, A5, A6, A7, A8, A9, A10, A11, A12) -> R> Unit<F, (A1, A2, A3, A4, A5, A6, A7, A8, A9, A10, A11, A12)> {
    /// Runs the wrapped function once and discards its result,
    /// consuming the combinator.
    pub fn call_once(self, a1: A1, a2: A2, a3: A3, a4: A4, a5: A5, a6: A6, a7: A7, a8: A8, a9: A9, a10: A10, a11: A11, a12: A12) -> (u: ())
        requires
            call_requires(self.f, (a1, a2, a3, a4, a5, a6, a7, a8, a9, a10, a11, a12)),
        ensures
            exists|b: R| call_ensures(self.f, (a1, a2, a3, a4, a5, a6, a7, a8, a9, a10, a11, a12), b),
    {
        let _b = (self.f)(a1, a2, a3, a4, a5, a6, a7, a8, a9, a10, a11, a12);
    }
}

impl<A1, A2, A3, A4, A5, A6, A7, A8, A9, A10, A11, A12, R, F: FnMut(A1, A2, A3, A4, A5, A6, A7, A8, A9, A10, A11, A12) -> R> Unit<F, (A1, A2, A3, A4, A5, A6, A7, A8, A9, A10, A11, A12)> {
    /// Runs the wrapped function through a unique reference and
    /// discards its result.
    pub fn call_mut(&mut self, a1: A1, a2: A2, a3: A3, a4: A4, a5: A5, a6: A6, a7: A7, a8: A8, a9: A9, a10: A10, a11: A11, a12: A12) -> (u: ())
        requires
            call_requires(old(self).f, (a1, a2, a3, a4, a5, a6, a7, a8, a9, a10, a11, a12)),
        ensures
            exists|b: R| call_ensures(old(self).f, (a1, a2, a3, a4, a5, a6, a7, a8, a9, a10, a11, a12), b),
    {
        let _b = (self.f)(a1, a2, a3, a4, a5, a6, a7, a8, a9, a10, a11, a12);
    }
}

impl<A1, A2, A3, A4, A5, A6, A7, A8, A9, A10, A11, A12, R, F: Fn(A1, A2, A3, A4, A5, A6, A7, A8, A9, A10, A11, A12) -> R> Unit<F, (A1, A2, A3, A4, A5, A6, A7, A8, A9, A10, A11, A12)> {
    /// Runs the wrapped function through a shared reference and
    /// discards its result.
    pub fn call(&self, a1: A1, a2: A2, a3: A3, a4: A4, a5: A5, a6: A6, a7: A7, a8: A8, a9: A9, a10: A10, a11: A11, a12: A12) -> (u: ())
        requires
            call_requires(self.f, (a1, a2, a3, a4, a5, a6, a7, a8, a9, a10, a11, a12)),
        ensures
            exists|b: R| call_ensures(self.f, (a1, a2, a3, a4, a5, a6, a7, a8, a9, a10, a11, a12), b),
    {
        let _b = (self.f)(a1, a2, a3, a4, a5, a6, a7, a8, a9, a10, a11, a12);
    }
}

impl<F: Clone, A> Clone for Unit<F, A> {
    /// Clones the wrapped function; the clone relates to it as `F`'s
    /// own `clone` does.
    fn clone(&self) -> (r: Self)
        ensures
            cloned::<F>(self.f, r.f),
    {
        let f = self.f.clone();
        Unit { f, marker: PhantomData }
    }
}

} // verus!
