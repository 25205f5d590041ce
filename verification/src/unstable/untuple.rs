//! The [`Untuple`] combinator: a function of several arguments,
//! adapted to take them as one tuple.

use vstd::prelude::*;
use core::marker::PhantomData;
use vstd::pervasive::cloned;

verus! {

/// Adapts `f`, a function of several arguments, into a combinator
/// whose call methods take a single tuple holding those arguments. The
/// marker type `A` is the argument tuple of `f`.
pub fn untuple<A, F>(f: F) -> (r: Untuple<F, A>)
    ensures
        r.f == f,
{
    Untuple { f, marker: PhantomData }
}

/// A function `F` of several arguments, called with one tuple `A`
/// holding them. The call methods are implemented for every arity of
/// `A` up to twelve.
#[must_use]
#[derive(Debug)]
pub struct Untuple<F, A> {
    /// The adapted function.
    pub f: F,
    /// Marker for the argument tuple type; carries no data.
    pub marker: PhantomData<A>,
}

impl<F, A> Untuple<F, A> {
    /// Wraps `f`. The free function [`untuple`] is the usual way to
    /// write this.
    pub fn new(f: F) -> (r: Self)
        ensures
            r.f == f,
    {
        Untuple { f, marker: PhantomData }
    }

    /// Returns the function inside the combinator.
    pub fn into_inner(self) -> (r: F)
        ensures
            r == self.f,
    {
        let Untuple { f, marker: _ } = self;
        f
    }

    /// Returns a reference to the function inside the combinator.
    pub fn as_inner(&self) -> (r: &F)
        ensures
            *r == self.f,
    {
        &self.f
    }
}

impl<R, F: FnOnce() -> R> Untuple<F, ()> {
    /// Runs the wrapped function once on the elements of `args`,
    /// consuming the combinator.
    pub fn call_once(self, args: ()) -> (r: R)
        requires
            call_requires(self.f, args),
        ensures
            call_ensures(self.f, args, r),
    {
        let () = args;
        (self.f)()
    }
}

impl<R, F: FnMut() -> R> Untuple<F, ()> {
    /// Runs the wrapped function through a unique reference on the
    /// elements of `args`.
    pub fn call_mut(&mut self, args: ()) -> (r: R)
        requires
            call_requires(old(self).f, args),
        ensures
            call_ensures(old(self).f, args, r),
    {
        let () = args;
        (self.f)()
    }
}

impl<R, F: Fn() -> R> Untuple<F, ()> {
    /// Runs the wrapped function through a shared reference on the
    /// elements of `args`.
    pub fn call(&self, args: ()) -> (r: R)
        requires
            call_requires(self.f, args),
        ensures
            call_ensures(self.f, args, r),
    {
        let () = args;
        (self.f)()
    }
}

impl<A1, R, F: FnOnce(A1) -> R> Untuple<F, (A1,)> {
    /// Runs the wrapped function once on the elements of `args`,
    /// consuming the combinator.
    pub fn call_once(self, args: (A1,)) -> (r: R)
        requires
            call_requires(self.f, args),
        ensures
            call_ensures(self.f, args, r),
    {
        (self.f)(args.0)
    }
}

impl<A1, R, F: FnMut(A1) -> R> Untuple<F, (A1,)> {
    /// Runs the wrapped function through a unique reference on the
    /// elements of `args`.
    pub fn call_mut(&mut self, args: (A1,)) -> (r: R)
        requires
            call_requires(old(self).f, args),
        ensures
            call_ensures(old(self).f, args, r),
    {
        (self.f)(args.0)
    }
}

impl<A1, R, F: Fn(A1) -> R> Untuple<F, (A1,)> {
    /// Runs the wrapped function through a shared reference on the
    /// elements of `args`.
    pub fn call(&self, args: (A1,)) -> (r: R)
        requires
            call_requires(self.f, args),
        ensures
            call_ensures(self.f, args, r),
    {
        (self.f)(args.0)
    }
}

impl<A1, A2, R, F: FnOnce(A1, A2) -> R> Untuple<F, (A1, A2)> {
    /// Runs the wrapped function once on the elements of `args`,
    /// consuming the combinator.
    pub fn call_once(self, args: (A1, A2)) -> (r: R)
        requires
            call_requires(self.f, args),
        ensures
            call_ensures(self.f, args, r),
    {
        (self.f)(args.0, args.1)
    }
}

impl<A1, A2, R, F: FnMut(A1, A2) -> R> Untuple<F, (A1, A2)> {
    /// Runs the wrapped function through a unique reference on the
    /// elements of `args`.
    pub fn call_mut(&mut self, args: (A1, A2)) -> (r: R)
        requires
            call_requires(old(self).f, args),
        ensures
            call_ensures(old(self).f, args, r),
    {
        (self.f)(args.0, args.1)
    }
}

impl<A1, A2, R, F: Fn(A1, A2) -> R> Untuple<F, (A1, A2)> {
    /// Runs the wrapped function through a shared reference on the
    /// elements of `args`.
    pub fn call(&self, args: (A1, A2)) -> (r: R)
        requires
            call_requires(self.f, args),
        ensures
            call_ensures(self.f, args, r),
    {
        (self.f)(args.0, args.1)
    }
}

impl<A1, A2, A3, R, F: FnOnce(A1, A2, A3) -> R> Untuple<F, (A1, A2, A3)> {
    /// Runs the wrapped function once on the elements of `args`,
    /// consuming the combinator.
    pub fn call_once(self, args: (A1, A2, A3)) -> (r: R)
        requires
            call_requires(self.f, args),
        ensures
            call_ensures(self.f, args, r),
    {
        (self.f)(args.0, args.1, args.2)
    }
}

impl<A1, A2, A3, R, F: FnMut(A1, A2, A3) -> R> Untuple<F, (A1, A2, A3)> {
    /// Runs the wrapped function through a unique reference on the
    /// elements of `args`.
    pub fn call_mut(&mut self, args: (A1, A2, A3)) -> (r: R)
        requires
            call_requires(old(self).f, args),
        ensures
            call_ensures(old(self).f, args, r),
    {
        (self.f)(args.0, args.1, args.2)
    }
}

impl<A1, A2, A3, R, F: Fn(A1, A2, A3) -> R> Untuple<F, (A1, A2, A3)> {
    /// Runs the wrapped function through a shared reference on the
    /// elements of `args`.
    pub fn call(&self, args: (A1, A2, A3)) -> (r: R)
        requires
            call_requires(self.f, args),
        ensures
            call_ensures(self.f, args, r),
    {
        (self.f)(args.0, args.1, args.2)
    }
}

impl<A1, A2, A3, A4, R, F: FnOnce(A1, A2, A3, A4) -> R> Untuple<F, (A1, A2, A3, A4)> {
    /// Runs the wrapped function once on the elements of `args`,
    /// consuming the combinator.
    pub fn call_once(self, args: (A1, A2, A3, A4)) -> (r: R)
        requires
            call_requires(self.f, args),
        ensures
            call_ensures(self.f, args, r),
    {
        (self.f)(args.0, args.1, args.2, args.3)
    }
}

impl<A1, A2, A3, A4, R, F: FnMut(A1, A2, A3, A4) -> R> Untuple<F, (A1, A2, A3, A4)> {
    /// Runs the wrapped function through a unique reference on the
    /// elements of `args`.
    pub fn call_mut(&mut self, args: (A1, A2, A3, A4)) -> (r: R)
        requires
            call_requires(old(self).f, args),
        ensures
            call_ensures(old(self).f, args, r),
    {
        (self.f)(args.0, args.1, args.2, args.3)
    }
}

impl<A1, A2, A3, A4, R, F: Fn(A1, A2, A3, A4) -> R> Untuple<F, (A1, A2, A3, A4)> {
    /// Runs the wrapped function through a shared reference on the
    /// elements of `args`.
    pub fn call(&self, args: (A1, A2, A3, A4)) -> (r: R)
        requires
            call_requires(self.f, args),
        ensures
            call_ensures(self.f, args, r),
    {
        (self.f)(args.0, args.1, args.2, args.3)
    }
}

impl<A1, A2, A3, A4, A5, R, F: FnOnce(A1, A2, A3, A4, A5) -> R> Untuple<F, (A1, A2, A3, A4, A5)> {
    /// Runs the wrapped function once on the elements of `args`,
    /// consuming the combinator.
    pub fn call_once(self, args: (A1, A2, A3, A4, A5)) -> (r: R)
        requires
            call_requires(self.f, args),
        ensures
            call_ensures(self.f, args, r),
    {
        (self.f)(args.0, args.1, args.2, args.3, args.4)
    }
}

impl<A1, A2, A3, A4, A5, R, F: FnMut(A1, A2, A3, A4, A5) -> R> Untuple<F, (A1, A2, A3, A4, A5)> {
    /// Runs the wrapped function through a unique reference on the
    /// elements of `args`.
    pub fn call_mut(&mut self, args: (A1, A2, A3, A4, A5)) -> (r: R)
        requires
            call_requires(old(self).f, args),
        ensures
            call_ensures(old(self).f, args, r),
    {
        (self.f)(args.0, args.1, args.2, args.3, args.4)
    }
}

impl<A1, A2, A3, A4, A5, R, F: Fn(A1, A2, A3, A4, A5) -> R> Untuple<F, (A1, A2, A3, A4, A5)> {
    /// Runs the wrapped function through a shared reference on the
    /// elements of `args`.
    pub fn call(&self, args: (A1, A2, A3, A4, A5)) -> (r: R)
        requires
            call_requires(self.f, args),
        ensures
            call_ensures(self.f, args, r),
    {
        (self.f)(args.0, args.1, args.2, args.3, args.4)
    }
}

impl<A1, A2, A3, A4, A5, A6, R, F: FnOnce(A1, A2, A3, A4, A5, A6) -> R> Untuple<F, (A1, A2, A3, A4, A5, A6)> {
    /// Runs the wrapped function once on the elements of `args`,
    /// consuming the combinator.
    pub fn call_once(self, args: (A1, A2, A3, A4, A5, A6)) -> (r: R)
        requires
            call_requires(self.f, args),
        ensures
            call_ensures(self.f, args, r),
    {
        (self.f)(args.0, args.1, args.2, args.3, args.4, args.5)
    }
}

impl<A1, A2, A3, A4, A5, A6, R, F: FnMut(A1, A2, A3, A4, A5, A6) -> R> Untuple<F, (A1, A2, A3, A4, A5, A6)> {
    /// Runs the wrapped function through a unique reference on the
    /// elements of `args`.
    pub fn call_mut(&mut self, args: (A1, A2, A3, A4, A5, A6)) -> (r: R)
        requires
            call_requires(old(self).f, args),
        ensures
            call_ensures(old(self).f, args, r),
    {
        (self.f)(args.0, args.1, args.2, args.3, args.4, args.5)
    }
}

impl<A1, A2, A3, A4, A5, A6, R, F: Fn(A1, A2, A3, A4, A5, A6) -> R> Untuple<F, (A1, A2, A3, A4, A5, A6)> {
    /// Runs the wrapped function through a shared reference on the
    /// elements of `args`.
    pub fn call(&self, args: (A1, A2, A3, A4, A5, A6)) -> (r: R)
        requires
            call_requires(self.f, args),
        ensures
            call_ensures(self.f, args, r),
    {
        (self.f)(args.0, args.1, args.2, args.3, args.4, args.5)
    }
}

impl<A1, A2, A3, A4, A5, A6, A7, R, F: FnOnce(A1, A2, A3, A4, A5, A6, A7) -> R> Untuple<F, (A1, A2, A3, A4, A5, A6, A7)> {
    /// Runs the wrapped function once on the elements of `args`,
    /// consuming the combinator.
    pub fn call_once(self, args: (A1, A2, A3, A4, A5, A6, A7)) -> (r: R)
        requires
            call_requires(self.f, args),
        ensures
            call_ensures(self.f, args, r),
    {
        (self.f)(args.0, args.1, args.2, args.3, args.4, args.5, args.6)
    }
}

impl<A1, A2, A3, A4, A5, A6, A7, R, F: FnMut(A1, A2, A3, A4, A5, A6, A7) -> R> Untuple<F, (A1, A2, A3, A4, A5, A6, A7)> {
    /// Runs the wrapped function through a unique reference on the
    /// elements of `args`.
    pub fn call_mut(&mut self, args: (A1, A2, A3, A4, A5, A6, A7)) -> (r: R)
        requires
            call_requires(old(self).f, args),
        ensures
            call_ensures(old(self).f, args, r),
    {
        (self.f)(args.0, args.1, args.2, args.3, args.4, args.5, args.6)
    }
}

impl<A1, A2, A3, A4, A5, A6, A7, R, F: Fn(A1, A2, A3, A4, A5, A6, A7) -> R> Untuple<F, (A1, A2, A3, A4, A5, A6, A7)> {
    /// Runs the wrapped function through a shared reference on the
    /// elements of `args`.
    pub fn call(&self, args: (A1, A2, A3, A4, A5, A6, A7)) -> (r: R)
        requires
            call_requires(self.f, args),
        ensures
            call_ensures(self.f, args, r),
    {
        (self.f)(args.0, args.1, args.2, args.3, args.4, args.5, args.6)
    }
}

impl<A1, A2, A3, A4, A5, A6, A7, A8, R, F: FnOnce(A1, A2, A3, A4, A5, A6, A7, A8) -> R> Untuple<F, (A1, A2, A3, A4, A5, A6, A7, A8)> {
    /// Runs the wrapped function once on the elements of `args`,
    /// consuming the combinator.
    pub fn call_once(self, args: (A1, A2, A3, A4, A5, A6, A7, A8)) -> (r: R)
        requires
            call_requires(self.f, args),
        ensures
            call_ensures(self.f, args, r),
    {
        (self.f)(args.0, args.1, args.2, args.3, args.4, args.5, args.6, args.7)
    }
}

impl<A1, A2, A3, A4, A5, A6, A7, A8, R, F: FnMut(A1, A2, A3, A4, A5, A6, A7, A8) -> R> Untuple<F, (A1, A2, A3, A4, A5, A6, A7, A8)> {
    /// Runs the wrapped function through a unique reference on the
    /// elements of `args`.
    pub fn call_mut(&mut self, args: (A1, A2, A3, A4, A5, A6, A7, A8)) -> (r: R)
        requires
            call_requires(old(self).f, args),
        ensures
            call_ensures(old(self).f, args, r),
    {
        (self.f)(args.0, args.1, args.2, args.3, args.4, args.5, args.6, args.7)
    }
}

impl<A1, A2, A3, A4, A5, A6, A7, A8, R, F: Fn(A1, A2, A3, A4, A5, A6, A7, A8) -> R> Untuple<F, (A1, A2, A3, A4, A5, A6, A7, A8)> {
    /// Runs the wrapped function through a shared reference on the
    /// elements of `args`.
    pub fn call(&self, args: (A1, A2, A3, A4, A5, A6, A7, A8)) -> (r: R)
        requires
            call_requires(self.f, args),
        ensures
            call_ensures(self.f, args, r),
    {
        (self.f)(args.0, args.1, args.2, args.3, args.4, args.5, args.6, args.7)
    }
}

impl<A1, A2, A3, A4, A5, A6, A7, A8, A9, R, F: FnOnce(A1, A2, A3, A4, A5, A6, A7, A8, A9) -> R> Untuple<F, (A1, A2, A3, A4, A5, A6, A7, A8, A9)> {
    /// Runs the wrapped function once on the elements of `args`,
    /// consuming the combinator.
    pub fn call_once(self, args: (A1, A2, A3, A4, A5, A6, A7, A8, A9)) -> (r: R)
        requires
            call_requires(self.f, args),
        ensures
            call_ensures(self.f, args, r),
    {
        (self.f)(args.0, args.1, args.2, args.3, args.4, args.5, args.6, args.7, args.8)
    }
}

impl<A1, A2, A3, A4, A5, A6, A7, A8, A9, R, F: FnMut(A1, A2, A3, A4, A5, A6, A7, A8, A9) -> R> Untuple<F, (A1, A2, A3, A4, A5, A6, A7, A8, A9)> {
    /// Runs the wrapped function through a unique reference on the
    /// elements of `args`.
    pub fn call_mut(&mut self, args: (A1, A2, A3, A4, A5, A6, A7, A8, A9)) -> (r: R)
        requires
            call_requires(old(self).f, args),
        ensures
            call_ensures(old(self).f, args, r),
    {
        (self.f)(args.0, args.1, args.2, args.3, args.4, args.5, args.6, args.7, args.8)
    }
}

impl<A1, A2, A3, A4, A5, A6, A7, A8, A9, R, F: Fn(A1, A2, A3, A4, A5, A6, A7, A8, A9) -> R> Untuple<F, (A1, A2, A3, A4, A5, A6, A7, A8, A9)> {
    /// Runs the wrapped function through a shared reference on the
    /// elements of `args`.
    pub fn call(&self, args: (A1, A2, A3, A4, A5, A6, A7, A8, A9)) -> (r: R)
        requires
            call_requires(self.f, args),
        ensures
            call_ensures(self.f, args, r),
    {
        (self.f)(args.0, args.1, args.2, args.3, args.4, args.5, args.6, args.7, args.8)
    }
}

impl<A1, A2, A3, A4, A5, A6, A7, A8, A9, A10, R, F: FnOnce(A1, A2, A3, A4, A5, A6, A7, A8, A9, A10) -> R> Untuple<F, (A1, A2, A3, A4, A5, A6, A7, A8, A9, A10)> {
    /// Runs the wrapped function once on the elements of `args`,
    /// consuming the combinator.
    pub fn call_once(self, args: (A1, A2, A3, A4, A5, A6, A7, A8, A9, A10)) -> (r: R)
        requires
            call_requires(self.f, args),
        ensures
            call_ensures(self.f, args, r),
    {
        (self.f)(args.0, args.1, args.2, args.3, args.4, args.5, args.6, args.7, args.8, args.9)
    }
}

impl<A1, A2, A3, A4, A5, A6, A7, A8, A9, A10, R, F: FnMut(A1, A2, A3, A4, A5, A6, A7, A8, A9, A10) -> R> Untuple<F, (A1, A2, A3, A4, A5, A6, A7, A8, A9, A10)> {
    /// Runs the wrapped function through a unique reference on the
    /// elements of `args`.
    pub fn call_mut(&mut self, args: (A1, A2, A3, A4, A5, A6, A7, A8, A9, A10)) -> (r: R)
        requires
            call_requires(old(self).f, args),
        ensures
            call_ensures(old(self).f, args, r),
    {
        (self.f)(args.0, args.1, args.2, args.3, args.4, args.5, args.6, args.7, args.8, args.9)
    }
}

impl<A1, A2, A3, A4, A5, A6, A7, A8, A9, A10, R, F: Fn(A1, A2, A3, A4, A5, A6, A7, A8, A9, A10) -> R> Untuple<F, (A1, A2, A3, A4, A5, A6, A7, A8, A9, A10)> {
    /// Runs the wrapped function through a shared reference on the
    /// elements of `args`.
    pub fn call(&self, args: (A1, A2, A3, A4, A5, A6, A7, A8, A9, A10)) -> (r: R)
        requires
            call_requires(self.f, args),
        ensures
            call_ensures(self.f, args, r),
    {
        (self.f)(args.0, args.1, args.2, args.3, args.4, args.5, args.6, args.7, args.8, args.9)
    }
}

impl<A1, A2, A3, A4, A5, A6, A7, A8, A9, A10, A11, R, F: FnOnce(A1, A2, A3, A4, A5, A6, A7, A8, A9, A10, A11) -> R> Untuple<F, (A1, A2, A3, A4, A5, A6, A7, A8, A9, A10, A11)> {
    /// Runs the wrapped function once on the elements of `args`,
    /// consuming the combinator.
    pub fn call_once(self, args: (A1, A2, A3, A4, A5, A6, A7, A8, A9, A10, A11)) -> (r: R)
        requires
            call_requires(self.f, args),
        ensures
            call_ensures(self.f, args, r),
    {
        (self.f)(args.0, args.1, args.2, args.3, args.4, args.5, args.6, args.7, args.8, args.9, args.10)
    }
}

impl<A1, A2, A3, A4, A5, A6, A7, A8, A9, A10, A11, R, F: FnMut(A1, A2, A3, A4, A5, A6, A7, A8, A9, A10, A11) -> R> Untuple<F, (A1, A2, A3, A4, A5, A6, A7, A8, A9, A10, A11)> {
    /// Runs the wrapped function through a unique reference on the
    /// elements of `args`.
    pub fn call_mut(&mut self, args: (A1, A2, A3, A4, A5, A6, A7, A8, A9, A10, A11)) -> (r: R)
        requires
            call_requires(old(self).f, args),
        ensures
            call_ensures(old(self).f, args, r),
    {
        (self.f)(args.0, args.1, args.2, args.3, args.4, args.5, args.6, args.7, args.8, args.9, args.10)
    }
}

impl<A1, A2, A3, A4, A5, A6, A7, A8, A9, A10, A11, R, F: Fn(A1, A2, A3, A4, A5, A6, A7, A8, A9, A10, A11) -> R> Untuple<F, (A1, A2, A3, A4, A5, A6, A7, A8, A9, A10, A11)> {
    /// Runs the wrapped function through a shared reference on the
    /// elements of `args`.
    pub fn call(&self, args: (A1, A2, A3, A4, A5, A6, A7, A8, A9, A10, A11)) -> (r: R)
        requires
            call_requires(self.f, args),
        ensures
            call_ensures(self.f, args, r),
    {
        (self.f)(args.0, args.1, args.2, args.3, args.4, args.5, args.6, args.7, args.8, args.9, args.10)
    }
}

impl<A1, A2, A3, A4, A5, A6, A7, A8, A9, A10, A11, A12, R, F: FnOnce(A1, A2, A3, A4, A5, A6, A7, A8, A9, A10, A11, A12) -> R> Untuple<F, (A1, A2, A3, A4, A5, A6, A7, A8, A9, A10, A11, A12)> {
    /// Runs the wrapped function once on the elements of `args`,
    /// consuming the combinator.
    pub fn call_once(self, args: (A1, A2, A3, A4, A5, A6, A7, A8, A9, A10, A11, A12)) -> (r: R)
        requires
            call_requires(self.f, args),
        ensures
            call_ensures(self.f, args, r),
    {
        (self.f)(args.0, args.1, args.2, args.3, args.4, args.5, args.6, args.7, args.8, args.9, args.10, args.11)
    }
}

impl<A1, A2, A3, A4, A5, A6, A7, A8, A9, A10, A11, A12, R, F: FnMut(A1, A2, A3, A4, A5, A6, A7, A8, A9, A10, A11, A12) -> R> Untuple<F, (A1, A2, A3, A4, A5, A6, A7, A8, A9, A10, A11, A12)> {
    /// Runs the wrapped function through a unique reference on the
    /// elements of `args`.
    pub fn call_mut(&mut self, args: (A1, A2, A3, A4, A5, A6, A7, A8, A9, A10, A11, A12)) -> (r: R)
        requires
            call_requires(old(self).f, args),
        ensures
            call_ensures(old(self).f, args, r),
    {
        (self.f)(args.0, args.1, args.2, args.3, args.4, args.5, args.6, args.7, args.8, args.9, args.10, args.11)
    }
}

impl<A1, A2, A3, A4, A5, A6, A7, A8, A9, A10, A11, A12, R, F: Fn(A1, A2, A3, A4, A5, A6, A7, A8, A9, A10, A11, A12) -> R> Untuple<F, (A1, A2, A3, A4, A5, A6, A7, A8, A9, A10, A11, A12)> {
    /// Runs the wrapped function through a shared reference on the
    /// elements of `args`.
    pub fn call(&self, args: (A1, A2, A3, A4, A5, A6, A7, A8, A9, A10, A11, A12)) -> (r: R)
        requires
            call_requires(self.f, args),
        ensures
            call_ensures(self.f, args, r),
    {
        (self.f)(args.0, args.1, args.2, args.3, args.4, args.5, args.6, args.7, args.8, args.9, args.10, args.11)
    }
}

impl<F: Clone, A> Clone for Untuple<F, A> {
    /// Clones the wrapped function; the clone relates to it as `F`'s
    /// own `clone` does.
    fn clone(&self) -> (r: Self)
        ensures
            cloned::<F>(self.f, r.f),
    {
        let f = self.f.clone();
        Untuple { f, marker: PhantomData }
    }
}

} // verus!
