//! The [`Flip`] combinator: a function with its argument order
//! reversed.

use vstd::prelude::*;
use core::marker::PhantomData;
use vstd::pervasive::cloned;

verus! {

/// Flips the argument order of `f`: the combinator, called on
/// arguments in reverse order, passes them to `f` in its own order.
/// The marker type `A` is the argument tuple that `f` itself accepts.
pub fn flip<A, F>(f: F) -> (r: Flip<F, A>)
    ensures
        r.f == f,
{
    Flip { f, marker: PhantomData }
}

/// A function `F` with its argument order reversed. The call methods
/// are implemented for every arity of `A`, the argument tuple of `F`,
/// up to twelve.
#[must_use]
#[derive(Debug)]
pub struct Flip<F, A> {
    /// The function whose arguments are reversed.
    pub f: F,
    /// Marker for the argument tuple type; carries no data.
    pub marker: PhantomData<A>,
}

impl<F, A> Flip<F, A> {
    /// Wraps `f`. The free function [`flip`] is the usual way to write
    /// this.
    pub fn new(f: F) -> (r: Self)
        ensures
            r.f == f,
    {
        Flip { f, marker: PhantomData }
    }

    /// Returns the function inside the combinator.
    pub fn into_inner(self) -> (r: F)
        ensures
            r == self.f,
    {
        let Flip { f, marker } = self;
        f
    }

    /// Returns a reference to the function inside the combinator.
    pub fn as_inner(&self) -> (r: &F)
        ensures
            *r == self.f,
    {
        &self.f
    }
}

impl<R, F: FnOnce() -> R> Flip<F, ()> {
    /// Runs the wrapped function once, consuming the combinator; the
    /// arguments are given in reverse order.
    pub fn call_once(self) -> (r: R)
        requires
            call_requires(self.f, ()),
        ensures
            call_ensures(self.f, (), r),
    {
        (self.f)()
    }
}

impl<R, F: FnMut() -> R> Flip<F, ()> {
    /// Runs the wrapped function through a unique reference, so it may
    /// mutate its captured state; the arguments are given in reverse
    /// order.
    pub fn call_mut(&mut self) -> (r: R)
        requires
            call_requires(old(self).f, ()),
        ensures
            call_ensures(old(self).f, (), r),
    {
        (self.f)()
    }
}

impl<R, F: Fn() -> R> Flip<F, ()> {
    /// Runs the wrapped function through a shared reference; the
    /// arguments are given in reverse order.
    pub fn call(&self) -> (r: R)
        requires
            call_requires(self.f, ()),
        ensures
            call_ensures(self.f, (), r),
    {
        (self.f)()
    }
}

impl<A1, R, F: FnOnce(A1) -> R> Flip<F, (A1,)> {
    /// Runs the wrapped function once, consuming the combinator; the
    /// arguments are given in reverse order.
    pub fn call_once(self, a1: A1) -> (r: R)
        requires
            call_requires(self.f, (a1,)),
        ensures
            call_ensures(self.f, (a1,), r),
    {
        (self.f)(a1)
    }
}

impl<A1, R, F: FnMut(A1) -> R> Flip<F, (A1,)> {
    /// Runs the wrapped function through a unique reference, so it may
    /// mutate its captured state; the arguments are given in reverse
    /// order.
    pub fn call_mut(&mut self, a1: A1) -> (r: R)
        requires
            call_requires(old(self).f, (a1,)),
        ensures
            call_ensures(old(self).f, (a1,), r),
    {
        (self.f)(a1)
    }
}

impl<A1, R, F: Fn(A1) -> R> Flip<F, (A1,)> {
    /// Runs the wrapped function through a shared reference; the
    /// arguments are given in reverse order.
    pub fn call(&self, a1: A1) -> (r: R)
        requires
            call_requires(self.f, (a1,)),
        ensures
            call_ensures(self.f, (a1,), r),
    {
        (self.f)(a1)
    }
}

impl<A1, A2, R, F: FnOnce(A1, A2) -> R> Flip<F, (A1, A2)> {
    /// Runs the wrapped function once, consuming the combinator; the
    /// arguments are given in reverse order.
    pub fn call_once(self, a2: A2, a1: A1) -> (r: R)
        requires
            call_requires(self.f, (a1, a2)),
        ensures
            call_ensures(self.f, (a1, a2), r),
    {
        (self.f)(a1, a2)
    }
}

impl<A1, A2, R, F: FnMut(A1, A2) -> R> Flip<F, (A1, A2)> {
    /// Runs the wrapped function through a unique reference, so it may
    /// mutate its captured state; the arguments are given in reverse
    /// order.
    pub fn call_mut(&mut self, a2: A2, a1: A1) -> (r: R)
        requires
            call_requires(old(self).f, (a1, a2)),
        ensures
            call_ensures(old(self).f, (a1, a2), r),
    {
        (self.f)(a1, a2)
    }
}

impl<A1, A2, R, F: Fn(A1, A2) -> R> Flip<F, (A1, A2)> {
    /// Runs the wrapped function through a shared reference; the
    /// arguments are given in reverse order.
    pub fn call(&self, a2: A2, a1: A1) -> (r: R)
        requires
            call_requires(self.f, (a1, a2)),
        ensures
            call_ensures(self.f, (a1, a2), r),
    {
        (self.f)(a1, a2)
    }
}

impl<A1, A2, A3, R, F: FnOnce(A1, A2, A3) -> R> Flip<F, (A1, A2, A3)> {
    /// Runs the wrapped function once, consuming the combinator; the
    /// arguments are given in reverse order.
    pub fn call_once(self, a3: A3, a2: A2, a1: A1) -> (r: R)
        requires
            call_requires(self.f, (a1, a2, a3)),
        ensures
            call_ensures(self.f, (a1, a2, a3), r),
    {
        (self.f)(a1, a2, a3)
    }
}

impl<A1, A2, A3, R, F: FnMut(A1, A2, A3) -> R> Flip<F, (A1, A2, A3)> {
    /// Runs the wrapped function through a unique reference, so it may
    /// mutate its captured state; the arguments are given in reverse
    /// order.
    pub fn call_mut(&mut self, a3: A3, a2: A2, a1: A1) -> (r: R)
        requires
            call_requires(old(self).f, (a1, a2, a3)),
        ensures
            call_ensures(old(self).f, (a1, a2, a3), r),
    {
        (self.f)(a1, a2, a3)
    }
}

impl<A1, A2, A3, R, F: Fn(A1, A2, A3) -> R> Flip<F, (A1, A2, A3)> {
    /// Runs the wrapped function through a shared reference; the
    /// arguments are given in reverse order.
    pub fn call(&self, a3: A3, a2: A2, a1: A1) -> (r: R)
        requires
            call_requires(self.f, (a1, a2, a3)),
        ensures
            call_ensures(self.f, (a1, a2, a3), r),
    {
        (self.f)(a1, a2, a3)
    }
}

impl<A1, A2, A3, A4, R, F: FnOnce(A1, A2, A3, A4) -> R> Flip<F, (A1, A2, A3, A4)> {
    /// Runs the wrapped function once, consuming the combinator; the
    /// arguments are given in reverse order.
    pub fn call_once(self, a4: A4, a3: A3, a2: A2, a1: A1) -> (r: R)
        requires
            call_requires(self.f, (a1, a2, a3, a4)),
        ensures
            call_ensures(self.f, (a1, a2, a3, a4), r),
    {
        (self.f)(a1, a2, a3, a4)
    }
}

impl<A1, A2, A3, A4, R, F: FnMut(A1, A2, A3, A4) -> R> Flip<F, (A1, A2, A3, A4)> {
    /// Runs the wrapped function through a unique reference, so it may
    /// mutate its captured state; the arguments are given in reverse
    /// order.
    pub fn call_mut(&mut self, a4: A4, a3: A3, a2: A2, a1: A1) -> (r: R)
        requires
            call_requires(old(self).f, (a1, a2, a3, a4)),
        ensures
            call_ensures(old(self).f, (a1, a2, a3, a4), r),
    {
        (self.f)(a1, a2, a3, a4)
    }
}

impl<A1, A2, A3, A4, R, F: Fn(A1, A2, A3, A4) -> R> Flip<F, (A1, A2, A3, A4)> {
    /// Runs the wrapped function through a shared reference; the
    /// arguments are given in reverse order.
    pub fn call(&self, a4: A4, a3: A3, a2: A2, a1: A1) -> (r: R)
        requires
            call_requires(self.f, (a1, a2, a3, a4)),
        ensures
            call_ensures(self.f, (a1, a2, a3, a4), r),
    {
        (self.f)(a1, a2, a3, a4)
    }
}

impl<A1, A2, A3, A4, A5, R, F: FnOnce(A1, A2, A3, A4, A5) -> R> Flip<F, (A1, A2, A3, A4, A5)> {
    /// Runs the wrapped function once, consuming the combinator; the
    /// arguments are given in reverse order.
    pub fn call_once(self, a5: A5, a4: A4, a3: A3, a2: A2, a1: A1) -> (r: R)
        requires
            call_requires(self.f, (a1, a2, a3, a4, a5)),
        ensures
            call_ensures(self.f, (a1, a2, a3, a4, a5), r),
    {
        (self.f)(a1, a2, a3, a4, a5)
    }
}

impl<A1, A2, A3, A4, A5, R, F: FnMut(A1, A2, A3, A4, A5) -> R> Flip<F, (A1, A2, A3, A4, A5)> {
    /// Runs the wrapped function through a unique reference, so it may
    /// mutate its captured state; the arguments are given in reverse
    /// order.
    pub fn call_mut(&mut self, a5: A5, a4: A4, a3: A3, a2: A2, a1: A1) -> (r: R)
        requires
            call_requires(old(self).f, (a1, a2, a3, a4, a5)),
        ensures
            call_ensures(old(self).f, (a1, a2, a3, a4, a5), r),
    {
        (self.f)(a1, a2, a3, a4, a5)
    }
}

impl<A1, A2, A3, A4, A5, R, F: Fn(A1, A2, A3, A4, A5) -> R> Flip<F, (A1, A2, A3, A4, A5)> {
    /// Runs the wrapped function through a shared reference; the
    /// arguments are given in reverse order.
    pub fn call(&self, a5: A5, a4: A4, a3: A3, a2: A2, a1: A1) -> (r: R)
        requires
            call_requires(self.f, (a1, a2, a3, a4, a5)),
        ensures
            call_ensures(self.f, (a1, a2, a3, a4, a5), r),
    {
        (self.f)(a1, a2, a3, a4, a5)
    }
}

impl<A1, A2, A3, A4, A5, A6, R, F: FnOnce(A1, A2, A3, A4, A5, A6) -> R> Flip<F, (A1, A2, A3, A4, A5, A6)> {
    /// Runs the wrapped function once, consuming the combinator; the
    /// arguments are given in reverse order.
    pub fn call_once(self, a6: A6, a5: A5, a4: A4, a3: A3, a2: A2, a1: A1) -> (r: R)
        requires
            call_requires(self.f, (a1, a2, a3, a4, a5, a6)),
        ensures
            call_ensures(self.f, (a1, a2, a3, a4, a5, a6), r),
    {
        (self.f)(a1, a2, a3, a4, a5, a6)
    }
}

impl<A1, A2, A3, A4, A5, A6, R, F: FnMut(A1, A2, A3, A4, A5, A6) -> R> Flip<F, (A1, A2, A3, A4, A5, A6)> {
    /// Runs the wrapped function through a unique reference, so it may
    /// mutate its captured state; the arguments are given in reverse
    /// order.
    pub fn call_mut(&mut self, a6: A6, a5: A5, a4: A4, a3: A3, a2: A2, a1: A1) -> (r: R)
        requires
            call_requires(old(self).f, (a1, a2, a3, a4, a5, a6)),
        ensures
            call_ensures(old(self).f, (a1, a2, a3, a4, a5, a6), r),
    {
        (self.f)(a1, a2, a3, a4, a5, a6)
    }
}

impl<A1, A2, A3, A4, A5, A6, R, F: Fn(A1, A2, A3, A4, A5, A6) -> R> Flip<F, (A1, A2, A3, A4, A5, A6)> {
    /// Runs the wrapped function through a shared reference; the
    /// arguments are given in reverse order.
    pub fn call(&self, a6: A6, a5: A5, a4: A4, a3: A3, a2: A2, a1: A1) -> (r: R)
        requires
            call_requires(self.f, (a1, a2, a3, a4, a5, a6)),
        ensures
            call_ensures(self.f, (a1, a2, a3, a4, a5, a6), r),
    {
        (self.f)(a1, a2, a3, a4, a5, a6)
    }
}

impl<A1, A2, A3, A4, A5, A6, A7, R, F: FnOnce(A1, A2, A3, A4, A5, A6, A7) -> R> Flip<F, (A1, A2, A3, A4, A5, A6, A7)> {
    /// Runs the wrapped function once, consuming the combinator; the
    /// arguments are given in reverse order.
    pub fn call_once(self, a7: A7, a6: A6, a5: A5, a4: A4, a3: A3, a2: A2, a1: A1) -> (r: R)
        requires
            call_requires(self.f, (a1, a2, a3, a4, a5, a6, a7)),
        ensures
            call_ensures(self.f, (a1, a2, a3, a4, a5, a6, a7), r),
    {
        (self.f)(a1, a2, a3, a4, a5, a6, a7)
    }
}

impl<A1, A2, A3, A4, A5, A6, A7, R, F: FnMut(A1, A2, A3, A4, A5, A6, A7) -> R> Flip<F, (A1, A2, A3, A4, A5, A6, A7)> {
    /// Runs the wrapped function through a unique reference, so it may
    /// mutate its captured state; the arguments are given in reverse
    /// order.
    pub fn call_mut(&mut self, a7: A7, a6: A6, a5: A5, a4: A4, a3: A3, a2: A2, a1: A1) -> (r: R)
        requires
            call_requires(old(self).f, (a1, a2, a3, a4, a5, a6, a7)),
        ensures
            call_ensures(old(self).f, (a1, a2, a3, a4, a5, a6, a7), r),
    {
        (self.f)(a1, a2, a3, a4, a5, a6, a7)
    }
}

impl<A1, A2, A3, A4, A5, A6, A7, R, F: Fn(A1, A2, A3, A4, A5, A6, A7) -> R> Flip<F, (A1, A2, A3, A4, A5, A6, A7)> {
    /// Runs the wrapped function through a shared reference; the
    /// arguments are given in reverse order.
    pub fn call(&self, a7: A7, a6: A6, a5: A5, a4: A4, a3: A3, a2: A2, a1: A1) -> (r: R)
        requires
            call_requires(self.f, (a1, a2, a3, a4, a5, a6, a7)),
        ensures
            call_ensures(self.f, (a1, a2, a3, a4, a5, a6, a7), r),
    {
        (self.f)(a1, a2, a3, a4, a5, a6, a7)
    }
}

impl<A1, A2, A3, A4, A5, A6, A7, A8, R, F: FnOnce(A1, A2, A3, A4, A5, A6, A7, A8) -> R> Flip<F, (A1, A2, A3, A4, A5, A6, A7, A8)> {
    /// Runs the wrapped function once, consuming the combinator; the
    /// arguments are given in reverse order.
    pub fn call_once(self, a8: A8, a7: A7, a6: A6, a5: A5, a4: A4, a3: A3, a2: A2, a1: A1) -> (r: R)
        requires
            call_requires(self.f, (a1, a2, a3, a4, a5, a6, a7, a8)),
        ensures
            call_ensures(self.f, (a1, a2, a3, a4, a5, a6, a7, a8), r),
    {
        (self.f)(a1, a2, a3, a4, a5, a6, a7, a8)
    }
}

impl<A1, A2, A3, A4, A5, A6, A7, A8, R, F: FnMut(A1, A2, A3, A4, A5, A6, A7, A8) -> R> Flip<F, (A1, A2, A3, A4, A5, A6, A7, A8)> {
    /// Runs the wrapped function through a unique reference, so it may
    /// mutate its captured state; the arguments are given in reverse
    /// order.
    pub fn call_mut(&mut self, a8: A8, a7: A7, a6: A6, a5: A5, a4: A4, a3: A3, a2: A2, a1: A1) -> (r: R)
        requires
            call_requires(old(self).f, (a1, a2, a3, a4, a5, a6, a7, a8)),
        ensures
            call_ensures(old(self).f, (a1, a2, a3, a4, a5, a6, a7, a8), r),
    {
        (self.f)(a1, a2, a3, a4, a5, a6, a7, a8)
    }
}

impl<A1, A2, A3, A4, A5, A6, A7, A8, R, F: Fn(A1, A2, A3, A4, A5, A6, A7, A8) -> R> Flip<F, (A1, A2, A3, A4, A5, A6, A7, A8)> {
    /// Runs the wrapped function through a shared reference; the
    /// arguments are given in reverse order.
    pub fn call(&self, a8: A8, a7: A7, a6: A6, a5: A5, a4: A4, a3: A3, a2: A2, a1: A1) -> (r: R)
        requires
            call_requires(self.f, (a1, a2, a3, a4, a5, a6, a7, a8)),
        ensures
            call_ensures(self.f, (a1, a2, a3, a4, a5, a6, a7, a8), r),
    {
        (self.f)(a1, a2, a3, a4, a5, a6, a7, a8)
    }
}

impl<A1, A2, A3, A4, A5, A6, A7, A8, A9, R, F: FnOnce(A1, A2, A3, A4, A5, A6, A7, A8, A9) -> R> Flip<F, (A1, A2, A3, A4, A5, A6, A7, A8, A9)> {
    /// Runs the wrapped function once, consuming the combinator; the
    /// arguments are given in reverse order.
    pub fn call_once(self, a9: A9, a8: A8, a7: A7, a6: A6, a5: A5, a4: A4, a3: A3, a2: A2, a1: A1) -> (r: R)
        requires
            call_requires(self.f, (a1, a2, a3, a4, a5, a6, a7, a8, a9)),
        ensures
            call_ensures(self.f, (a1, a2, a3, a4, a5, a6, a7, a8, a9), r),
    {
        (self.f)(a1, a2, a3, a4, a5, a6, a7, a8, a9)
    }
}

impl<A1, A2, A3, A4, A5, A6, A7, A8, A9, R, F: FnMut(A1, A2, A3, A4, A5, A6, A7, A8, A9) -> R> Flip<F, (A1, A2, A3, A4, A5, A6, A7, A8, A9)> {
    /// Runs the wrapped function through a unique reference, so it may
    /// mutate its captured state; the arguments are given in reverse
    /// order.
    pub fn call_mut(&mut self, a9: A9, a8: A8, a7: A7, a6: A6, a5: A5, a4: A4, a3: A3, a2: A2, a1: A1) -> (r: R)
        requires
            call_requires(old(self).f, (a1, a2, a3, a4, a5, a6, a7, a8, a9)),
        ensures
            call_ensures(old(self).f, (a1, a2, a3, a4, a5, a6, a7, a8, a9), r),
    {
        (self.f)(a1, a2, a3, a4, a5, a6, a7, a8, a9)
    }
}

impl<A1, A2, A3, A4, A5, A6, A7, A8, A9, R, F: Fn(A1, A2, A3, A4, A5, A6, A7, A8, A9) -> R> Flip<F, (A1, A2, A3, A4, A5, A6, A7, A8, A9)> {
    /// Runs the wrapped function through a shared reference; the
    /// arguments are given in reverse order.
    pub fn call(&self, a9: A9, a8: A8, a7: A7, a6: A6, a5: A5, a4: A4, a3: A3, a2: A2, a1: A1) -> (r: R)
        requires
            call_requires(self.f, (a1, a2, a3, a4, a5, a6, a7, a8, a9)),
        ensures
            call_ensures(self.f, (a1, a2, a3, a4, a5, a6, a7, a8, a9), r),
    {
        (self.f)(a1, a2, a3, a4, a5, a6, a7, a8, a9)
    }
}

impl<A1, A2, A3, A4, A5, A6, A7, A8, A9, A10, R, F: FnOnce(A1, A2, A3, A4, A5, A6, A7, A8, A9, A10) -> R> Flip<F, (A1, A2, A3, A4, A5, A6, A7, A8, A9, A10)> {
    /// Runs the wrapped function once, consuming the combinator; the
    /// arguments are given in reverse order.
    pub fn call_once(self, a10: A10, a9: A9, a8: A8, a7: A7, a6: A6, a5: A5, a4: A4, a3: A3, a2: A2, a1: A1) -> (r: R)
        requires
            call_requires(self.f, (a1, a2, a3, a4, a5, a6, a7, a8, a9, a10)),
        ensures
            call_ensures(self.f, (a1, a2, a3, a4, a5, a6, a7, a8, a9, a10), r),
    {
        (self.f)(a1, a2, a3, a4, a5, a6, a7, a8, a9, a10)
    }
}

impl<A1, A2, A3, A4, A5, A6, A7, A8, A9, A10, R, F: FnMut(A1, A2, A3, A4, A5, A6, A7, A8, A9, A10) -> R> Flip<F, (A1, A2, A3, A4, A5, A6, A7, A8, A9, A10)> {
    /// Runs the wrapped function through a unique reference, so it may
    /// mutate its captured state; the arguments are given in reverse
    /// order.
    pub fn call_mut(&mut self, a10: A10, a9: A9, a8: A8, a7: A7, a6: A6, a5: A5, a4: A4, a3: A3, a2: A2, a1: A1) -> (r: R)
        requires
            call_requires(old(self).f, (a1, a2, a3, a4, a5, a6, a7, a8, a9, a10)),
        ensures
            call_ensures(old(self).f, (a1, a2, a3, a4, a5, a6, a7, a8, a9, a10), r),
    {
        (self.f)(a1, a2, a3, a4, a5, a6, a7, a8, a9, a10)
    }
}

impl<A1, A2, A3, A4, A5, A6, A7, A8, A9, A10, R, F: Fn(A1, A2, A3, A4, A5, A6, A7, A8, A9, A10) -> R> Flip<F, (A1, A2, A3, A4, A5, A6, A7, A8, A9, A10)> {
    /// Runs the wrapped function through a shared reference; the
    /// arguments are given in reverse order.
    pub fn call(&self, a10: A10, a9: A9, a8: A8, a7: A7, a6: A6, a5: A5, a4: A4, a3: A3, a2: A2, a1: A1) -> (r: R)
        requires
            call_requires(self.f, (a1, a2, a3, a4, a5, a6, a7, a8, a9, a10)),
        ensures
            call_ensures(self.f, (a1, a2, a3, a4, a5, a6, a7, a8, a9, a10), r),
    {
        (self.f)(a1, a2, a3, a4, a5, a6, a7, a8, a9, a10)
    }
}

impl<A1, A2, A3, A4, A5, A6, A7, A8, A9, A10, A11, R, F: FnOnce(A1, A2, A3, A4, A5, A6, A7, A8, A9, A10, A11) -> R> Flip<F, (A1, A2, A3, A4, A5, A6, A7, A8, A9, A10, A11)> {
    /// Runs the wrapped function once, consuming the combinator; the
    /// arguments are given in reverse order.
    pub fn call_once(self, a11: A11, a10: A10, a9: A9, a8: A8, a7: A7, a6: A6, a5: A5, a4: A4, a3: A3, a2: A2, a1: A1) -> (r: R)
        requires
            call_requires(self.f, (a1, a2, a3, a4, a5, a6, a7, a8, a9, a10, a11)),
        ensures
            call_ensures(self.f, (a1, a2, a3, a4, a5, a6, a7, a8, a9, a10, a11), r),
    {
        (self.f)(a1, a2, a3, a4, a5, a6, a7, a8, a9, a10, a11)
    }
}

impl<A1, A2, A3, A4, A5, A6, A7, A8, A9, A10, A11, R, F: FnMut(A1, A2, A3, A4, A5, A6, A7, A8, A9, A10, A11) -> R> Flip<F, (A1, A2, A3, A4, A5, A6, A7, A8, A9, A10, A11)> {
    /// Runs the wrapped function through a unique reference, so it may
    /// mutate its captured state; the arguments are given in reverse
    /// order.
    pub fn call_mut(&mut self, a11: A11, a10: A10, a9: A9, a8: A8, a7: A7, a6: A6, a5: A5, a4: A4, a3: A3, a2: A2, a1: A1) -> (r: R)
        requires
            call_requires(old(self).f, (a1, a2, a3, a4, a5, a6, a7, a8, a9, a10, a11)),
        ensures
            call_ensures(old(self).f, (a1, a2, a3, a4, a5, a6, a7, a8, a9, a10, a11), r),
    {
        (self.f)(a1, a2, a3, a4, a5, a6, a7, a8, a9, a10, a11)
    }
}

impl<A1, A2, A3, A4, A5, A6, A7, A8, A9, A10, A11, R, F: Fn(A1, A2, A3, A4, A5, A6, A7, A8, A9, A10, A11) -> R> Flip<F, (A1, A2, A3, A4, A5, A6, A7, A8, A9, A10, A11)> {
    /// Runs the wrapped function through a shared reference; the
    /// arguments are given in reverse order.
    pub fn call(&self, a11: A11, a10: A10, a9: A9, a8: A8, a7: A7, a6: A6, a5: A5, a4: A4, a3: A3, a2: A2, a1: A1) -> (r: R)
        requires
            call_requires(self.f, (a1, a2, a3, a4, a5, a6, a7, a8, a9, a10, a11)),
        ensures
            call_ensures(self.f, (a1, a2, a3, a4, a5, a6, a7, a8, a9, a10, a11), r),
    {
        (self.f)(a1, a2, a3, a4, a5, a6, a7, a8, a9, a10, a11)
    }
}

impl<A1, A2, A3, A4, A5, A6, A7, A8, A9, A10, A11, A12, R, F: FnOnce(A1, A2, A3, A4, A5, A6, A7, A8, A9, A10, A11, A12) -> R> Flip<F, (A1, A2, A3, A4, A5, A6, A7, A8, A9, A10, A11, A12)> {
    /// Runs the wrapped function once, consuming the combinator; the
    /// arguments are given in reverse order.
    pub fn call_once(self, a12: A12, a11: A11, a10: A10, a9: A9, a8: A8, a7: A7, a6: A6, a5: A5, a4: A4, a3: A3, a2: A2, a1: A1) -> (r: R)
        requires
            call_requires(self.f, (a1, a2, a3, a4, a5, a6, a7, a8, a9, a10, a11, a12)),
        ensures
            call_ensures(self.f, (a1, a2, a3, a4, a5, a6, a7, a8, a9, a10, a11, a12), r),
    {
        (self.f)(a1, a2, a3, a4, a5, a6, a7, a8, a9, a10, a11, a12)
    }
}

impl<A1, A2, A3, A4, A5, A6, A7, A8, A9, A10, A11, A12, R, F: FnMut(A1, A2, A3, A4, A5, A6, A7, A8, A9, A10, A11, A12) -> R> Flip<F, (A1, A2, A3, A4, A5, A6, A7, A8, A9, A10, A11, A12)> {
    /// Runs the wrapped function through a unique reference, so it may
    /// mutate its captured state; the arguments are given in reverse
    /// order.
    pub fn call_mut(&mut self, a12: A12, a11: A11, a10: A10, a9: A9, a8: A8, a7: A7, a6: A6, a5: A5, a4: A4, a3: A3, a2: A2, a1: A1) -> (r: R)
        requires
            call_requires(old(self).f, (a1, a2, a3, a4, a5, a6, a7, a8, a9, a10, a11, a12)),
        ensures
            call_ensures(old(self).f, (a1, a2, a3, a4, a5, a6, a7, a8, a9, a10, a11, a12), r),
    {
        (self.f)(a1, a2, a3, a4, a5, a6, a7, a8, a9, a10, a11, a12)
    }
}

impl<A1, A2, A3, A4, A5, A6, A7, A8, A9, A10, A11, A12, R, F: Fn(A1, A2, A3, A4, A5, A6, A7, A8, A9, A10, A11, A12) -> R> Flip<F, (A1, A2, A3, A4, A5, A6, A7, A8, A9, A10, A11, A12)> {
    /// Runs the wrapped function through a shared reference; the
    /// arguments are given in reverse order.
    pub fn call(&self, a12: A12, a11: A11, a10: A10, a9: A9, a8: A8, a7: A7, a6: A6, a5: A5, a4: A4, a3: A3, a2: A2, a1: A1) -> (r: R)
        requires
            call_requires(self.f, (a1, a2, a3, a4, a5, a6, a7, a8, a9, a10, a11, a12)),
        ensures
            call_ensures(self.f, (a1, a2, a3, a4, a5, a6, a7, a8, a9, a10, a11, a12), r),
    {
        (self.f)(a1, a2, a3, a4, a5, a6, a7, a8, a9, a10, a11, a12)
    }
}

impl<F: Clone, A> Clone for Flip<F, A> {
    /// Clones the wrapped function; the clone relates to it as `F`'s
    /// own `clone` does.
    fn clone(&self) -> (r: Self)
        ensures
            cloned::<F>(self.f, r.f),
    {
        let f = self.f.clone();
        Flip { f, marker: PhantomData }
    }
}

} // verus!
