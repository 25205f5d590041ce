//! The [`Supply`] combinator: a function with its first argument
//! already given.

use vstd::prelude::*;
use vstd::pervasive::cloned;
use core::marker::PhantomData;

verus! {

/// Supplies the first argument of `f`: the combinator, called on the
/// remaining arguments, passes `argument` in front of them to `f`. The
/// marker type `A` is the full argument tuple of `f`, whose first
/// element is `T`.
pub fn supply<T, F, A>(argument: T, f: F) -> (r: Supply<T, F, A>)
    ensures
        r.argument == argument,
        r.f == f,
{
    Supply { argument, f, marker: PhantomData }
}

/// A function `F` with its first argument `T` already supplied. The
/// call methods are implemented for every arity of `A`, the argument
/// tuple of `F`, up to twelve.
#[must_use]
#[derive(Debug)]
pub struct Supply<T, F, A> {
    /// The argument that will be passed first.
    pub argument: T,
    /// The function that receives it.
    pub f: F,
    /// Marker for the argument tuple type; carries no data.
    pub marker: PhantomData<A>,
}

impl<T, F, A> Supply<T, F, A> {
    /// Wraps `f` with `argument` as its first argument. The free
    /// function [`supply`] is the usual way to write this.
    pub fn new(f: F, argument: T) -> (r: Self)
        ensures
            r.argument == argument,
            r.f == f,
    {
        Supply { argument, f, marker: PhantomData }
    }

    /// Returns the function and the supplied argument.
    pub fn into_inner(self) -> (r: (F, T))
        ensures
            r == (self.f, self.argument),
    {
        let Supply { argument, f, marker: _ } = self;
        (f, argument)
    }

    /// Returns references to the function and the supplied argument.
    pub fn as_inner(&self) -> (r: (&F, &T))
        ensures
            *r.0 == self.f && *r.1 == self.argument,
    {
        (&self.f, &self.argument)
    }
}

impl<T, R, F: FnOnce(T) -> R> Supply<T, F, (T,)> {
    /// Runs the wrapped function once on the supplied argument
    /// followed by the remaining arguments, consuming the combinator.
    pub fn call_once(self) -> (r: R)
        requires
            call_requires(self.f, (self.argument,)),
        ensures
            call_ensures(self.f, (self.argument,), r),
    {
        let Supply { argument, f, marker: _ } = self;
        f(argument)
    }
}

impl<T, B2, R, F: FnOnce(T, B2) -> R> Supply<T, F, (T, B2)> {
    /// Runs the wrapped function once on the supplied argument
    /// followed by the remaining arguments, consuming the combinator.
    pub fn call_once(self, b2: B2) -> (r: R)
        requires
            call_requires(self.f, (self.argument, b2)),
        ensures
            call_ensures(self.f, (self.argument, b2), r),
    {
        let Supply { argument, f, marker: _ } = self;
        f(argument, b2)
    }
}

impl<T, B2, B3, R, F: FnOnce(T, B2, B3) -> R> Supply<T, F, (T, B2, B3)> {
    /// Runs the wrapped function once on the supplied argument
    /// followed by the remaining arguments, consuming the combinator.
    pub fn call_once(self, b2: B2, b3: B3) -> (r: R)
        requires
            call_requires(self.f, (self.argument, b2, b3)),
        ensures
            call_ensures(self.f, (self.argument, b2, b3), r),
    {
        let Supply { argument, f, marker: _ } = self;
        f(argument, b2, b3)
    }
}

impl<T, B2, B3, B4, R, F: FnOnce(T, B2, B3, B4) -> R> Supply<T, F, (T, B2, B3, B4)> {
    /// Runs the wrapped function once on the supplied argument
    /// followed by the remaining arguments, consuming the combinator.
    pub fn call_once(self, b2: B2, b3: B3, b4: B4) -> (r: R)
        requires
            call_requires(self.f, (self.argument, b2, b3, b4)),
        ensures
            call_ensures(self.f, (self.argument, b2, b3, b4), r),
    {
        let Supply { argument, f, marker: _ } = self;
        f(argument, b2, b3, b4)
    }
}

impl<T, B2, B3, B4, B5, R, F: FnOnce(T, B2, B3, B4, B5) -> R> Supply<T, F, (T, B2, B3, B4, B5)> {
    /// Runs the wrapped function once on the supplied argument
    /// followed by the remaining arguments, consuming the combinator.
    pub fn call_once(self, b2: B2, b3: B3, b4: B4, b5: B5) -> (r: R)
        requires
            call_requires(self.f, (self.argument, b2, b3, b4, b5)),
        ensures
            call_ensures(self.f, (self.argument, b2, b3, b4, b5), r),
    {
        let Supply { argument, f, marker: _ } = self;
        f(argument, b2, b3, b4, b5)
    }
}

impl<T, B2, B3, B4, B5, B6, R, F: FnOnce(T, B2, B3, B4, B5, B6) -> R> Supply<T, F, (T, B2, B3, B4, B5, B6)> {
    /// Runs the wrapped function once on the supplied argument
    /// followed by the remaining arguments, consuming the combinator.
    pub fn call_once(self, b2: B2, b3: B3, b4: B4, b5: B5, b6: B6) -> (r: R)
        requires
            call_requires(self.f, (self.argument, b2, b3, b4, b5, b6)),
        ensures
            call_ensures(self.f, (self.argument, b2, b3, b4, b5, b6), r),
    {
        let Supply { argument, f, marker: _ } = self;
        f(argument, b2, b3, b4, b5, b6)
    }
}

impl<T, B2, B3, B4, B5, B6, B7, R, F: FnOnce(T, B2, B3, B4, B5, B6, B7) -> R> Supply<T, F, (T, B2, B3, B4, B5, B6, B7)> {
    /// Runs the wrapped function once on the supplied argument
    /// followed by the remaining arguments, consuming the combinator.
    pub fn call_once(self, b2: B2, b3: B3, b4: B4, b5: B5, b6: B6, b7: B7) -> (r: R)
        requires
            call_requires(self.f, (self.argument, b2, b3, b4, b5, b6, b7)),
        ensures
            call_ensures(self.f, (self.argument, b2, b3, b4, b5, b6, b7), r),
    {
        let Supply { argument, f, marker: _ } = self;
        f(argument, b2, b3, b4, b5, b6, b7)
    }
}

impl<T, B2, B3, B4, B5, B6, B7, B8, R, F: FnOnce(T, B2, B3, B4, B5, B6, B7, B8) -> R> Supply<T, F, (T, B2, B3, B4, B5, B6, B7, B8)> {
    /// Runs the wrapped function once on the supplied argument
    /// followed by the remaining arguments, consuming the combinator.
    pub fn call_once(self, b2: B2, b3: B3, b4: B4, b5: B5, b6: B6, b7: B7, b8: B8) -> (r: R)
        requires
            call_requires(self.f, (self.argument, b2, b3, b4, b5, b6, b7, b8)),
        ensures
            call_ensures(self.f, (self.argument, b2, b3, b4, b5, b6, b7, b8), r),
    {
        let Supply { argument, f, marker: _ } = self;
        f(argument, b2, b3, b4, b5, b6, b7, b8)
    }
}

impl<T, B2, B3, B4, B5, B6, B7, B8, B9, R, F: FnOnce(T, B2, B3, B4, B5, B6, B7, B8, B9) -> R> Supply<T, F, (T, B2, B3, B4, B5, B6, B7, B8, B9)> {
    /// Runs the wrapped function once on the supplied argument
    /// followed by the remaining arguments, consuming the combinator.
    pub fn call_once(self, b2: B2, b3: B3, b4: B4, b5: B5, b6: B6, b7: B7, b8: B8, b9: B9) -> (r: R)
        requires
            call_requires(self.f, (self.argument, b2, b3, b4, b5, b6, b7, b8, b9)),
        ensures
            call_ensures(self.f, (self.argument, b2, b3, b4, b5, b6, b7, b8, b9), r),
    {
        let Supply { argument, f, marker: _ } = self;
        f(argument, b2, b3, b4, b5, b6, b7, b8, b9)
    }
}

impl<T, B2, B3, B4, B5, B6, B7, B8, B9, B10, R, F: FnOnce(T, B2, B3, B4, B5, B6, B7, B8, B9, B10) -> R> Supply<T, F, (T, B2, B3, B4, B5, B6, B7, B8, B9, B10)> {
    /// Runs the wrapped function once on the supplied argument
    /// followed by the remaining arguments, consuming the combinator.
    pub fn call_once(self, b2: B2, b3: B3, b4: B4, b5: B5, b6: B6, b7: B7, b8: B8, b9: B9, b10: B10) -> (r: R)
        requires
            call_requires(self.f, (self.argument, b2, b3, b4, b5, b6, b7, b8, b9, b10)),
        ensures
            call_ensures(self.f, (self.argument, b2, b3, b4, b5, b6, b7, b8, b9, b10), r),
    {
        let Supply { argument, f, marker: _ } = self;
        f(argument, b2, b3, b4, b5, b6, b7, b8, b9, b10)
    }
}

impl<T, B2, B3, B4, B5, B6, B7, B8, B9, B10, B11, R, F: FnOnce(T, B2, B3, B4, B5, B6, B7, B8, B9, B10, B11) -> R> Supply<T, F, (T, B2, B3, B4, B5, B6, B7, B8, B9, B10, B11)> {
    /// Runs the wrapped function once on the supplied argument
    /// followed by the remaining arguments, consuming the combinator.
    pub fn call_once(self, b2: B2, b3: B3, b4: B4, b5: B5, b6: B6, b7: B7, b8: B8, b9: B9, b10: B10, b11: B11) -> (r: R)
        requires
            call_requires(self.f, (self.argument, b2, b3, b4, b5, b6, b7, b8, b9, b10, b11)),
        ensures
            call_ensures(self.f, (self.argument, b2, b3, b4, b5, b6, b7, b8, b9, b10, b11), r),
    {
        let Supply { argument, f, marker: _ } = self;
        f(argument, b2, b3, b4, b5, b6, b7, b8, b9, b10, b11)
    }
}

impl<T, B2, B3, B4, B5, B6, B7, B8, B9, B10, B11, B12, R, F: FnOnce(T, B2, B3, B4, B5, B6, B7, B8, B9, B10, B11, B12) -> R> Supply<T, F, (T, B2, B3, B4, B5, B6, B7, B8, B9, B10, B11, B12)> {
    /// Runs the wrapped function once on the supplied argument
    /// followed by the remaining arguments, consuming the combinator.
    pub fn call_once(self, b2: B2, b3: B3, b4: B4, b5: B5, b6: B6, b7: B7, b8: B8, b9: B9, b10: B10, b11: B11, b12: B12) -> (r: R)
        requires
            call_requires(self.f, (self.argument, b2, b3, b4, b5, b6, b7, b8, b9, b10, b11, b12)),
        ensures
            call_ensures(self.f, (self.argument, b2, b3, b4, b5, b6, b7, b8, b9, b10, b11, b12), r),
    {
        let Supply { argument, f, marker: _ } = self;
        f(argument, b2, b3, b4, b5, b6, b7, b8, b9, b10, b11, b12)
    }
}

impl<T: Clone, R, F: Fn(T) -> R> Supply<T, F, (T,)> {
    /// Runs the wrapped function through a shared reference, passing a
    /// clone of the supplied argument first.
    pub fn call(&self) -> (r: R)
        requires
            forall|t: T| cloned::<T>(self.argument, t) ==> call_requires(self.f, (t,)),
        ensures
            exists|t: T| cloned::<T>(self.argument, t) && call_ensures(self.f, (t,), r),
    {
        let t = self.argument.clone();
        assert(cloned(self.argument, t));
        (self.f)(t)
    }
}

impl<T: Clone, R, F: FnMut(T) -> R> Supply<T, F, (T,)> {
    /// Runs the wrapped function through a unique reference, so it may
    /// mutate its captured state, passing a clone of the supplied
    /// argument first.
    pub fn call_mut(&mut self) -> (r: R)
        requires
            forall|t: T|
                cloned::<T>(old(self).argument, t) ==> call_requires(old(self).f, (t,)),
        ensures
            exists|t: T|
                cloned::<T>(old(self).argument, t) && call_ensures(old(self).f, (t,), r),
    {
        let t = self.argument.clone();
        assert(cloned(self.argument, t));
        (self.f)(t)
    }
}

impl<T: Clone, B2, R, F: Fn(T, B2) -> R> Supply<T, F, (T, B2)> {
    /// Runs the wrapped function through a shared reference, passing a
    /// clone of the supplied argument first.
    pub fn call(&self, b2: B2) -> (r: R)
        requires
            forall|t: T| cloned::<T>(self.argument, t) ==> call_requires(self.f, (t, b2)),
        ensures
            exists|t: T| cloned::<T>(self.argument, t) && call_ensures(self.f, (t, b2), r),
    {
        let t = self.argument.clone();
        assert(cloned(self.argument, t));
        (self.f)(t, b2)
    }
}

impl<T: Clone, B2, R, F: FnMut(T, B2) -> R> Supply<T, F, (T, B2)> {
    /// Runs the wrapped function through a unique reference, so it may
    /// mutate its captured state, passing a clone of the supplied
    /// argument first.
    pub fn call_mut(&mut self, b2: B2) -> (r: R)
        requires
            forall|t: T|
                cloned::<T>(old(self).argument, t) ==> call_requires(old(self).f, (t, b2)),
        ensures
            exists|t: T|
                cloned::<T>(old(self).argument, t) && call_ensures(old(self).f, (t, b2), r),
    {
        let t = self.argument.clone();
        assert(cloned(self.argument, t));
        (self.f)(t, b2)
    }
}

impl<T: Clone, B2, B3, R, F: Fn(T, B2, B3) -> R> Supply<T, F, (T, B2, B3)> {
    /// Runs the wrapped function through a shared reference, passing a
    /// clone of the supplied argument first.
    pub fn call(&self, b2: B2, b3: B3) -> (r: R)
        requires
            forall|t: T| cloned::<T>(self.argument, t) ==> call_requires(self.f, (t, b2, b3)),
        ensures
            exists|t: T| cloned::<T>(self.argument, t) && call_ensures(self.f, (t, b2, b3), r),
    {
        let t = self.argument.clone();
        assert(cloned(self.argument, t));
        (self.f)(t, b2, b3)
    }
}

impl<T: Clone, B2, B3, R, F: FnMut(T, B2, B3) -> R> Supply<T, F, (T, B2, B3)> {
    /// Runs the wrapped function through a unique reference, so it may
    /// mutate its captured state, passing a clone of the supplied
    /// argument first.
    pub fn call_mut(&mut self, b2: B2, b3: B3) -> (r: R)
        requires
            forall|t: T|
                cloned::<T>(old(self).argument, t) ==> call_requires(old(self).f, (t, b2, b3)),
        ensures
            exists|t: T|
                cloned::<T>(old(self).argument, t) && call_ensures(old(self).f, (t, b2, b3), r),
    {
        let t = self.argument.clone();
        assert(cloned(self.argument, t));
        (self.f)(t, b2, b3)
    }
}

impl<T: Clone, B2, B3, B4, R, F: Fn(T, B2, B3, B4) -> R> Supply<T, F, (T, B2, B3, B4)> {
    /// Runs the wrapped function through a shared reference, passing a
    /// clone of the supplied argument first.
    pub fn call(&self, b2: B2, b3: B3, b4: B4) -> (r: R)
        requires
            forall|t: T| cloned::<T>(self.argument, t) ==> call_requires(self.f, (t, b2, b3, b4)),
        ensures
            exists|t: T| cloned::<T>(self.argument, t) && call_ensures(self.f, (t, b2, b3, b4), r),
    {
        let t = self.argument.clone();
        assert(cloned(self.argument, t));
        (self.f)(t, b2, b3, b4)
    }
}

impl<T: Clone, B2, B3, B4, R, F: FnMut(T, B2, B3, B4) -> R> Supply<T, F, (T, B2, B3, B4)> {
    /// Runs the wrapped function through a unique reference, so it may
    /// mutate its captured state, passing a clone of the supplied
    /// argument first.
    pub fn call_mut(&mut self, b2: B2, b3: B3, b4: B4) -> (r: R)
        requires
            forall|t: T|
                cloned::<T>(old(self).argument, t) ==> call_requires(old(self).f, (t, b2, b3, b4)),
        ensures
            exists|t: T|
                cloned::<T>(old(self).argument, t) && call_ensures(old(self).f, (t, b2, b3, b4), r),
    {
        let t = self.argument.clone();
        assert(cloned(self.argument, t));
        (self.f)(t, b2, b3, b4)
    }
}

impl<T: Clone, B2, B3, B4, B5, R, F: Fn(T, B2, B3, B4, B5) -> R> Supply<T, F, (T, B2, B3, B4, B5)> {
    /// Runs the wrapped function through a shared reference, passing a
    /// clone of the supplied argument first.
    pub fn call(&self, b2: B2, b3: B3, b4: B4, b5: B5) -> (r: R)
        requires
            forall|t: T| cloned::<T>(self.argument, t) ==> call_requires(self.f, (t, b2, b3, b4, b5)),
        ensures
            exists|t: T| cloned::<T>(self.argument, t) && call_ensures(self.f, (t, b2, b3, b4, b5), r),
    {
        let t = self.argument.clone();
        assert(cloned(self.argument, t));
        (self.f)(t, b2, b3, b4, b5)
    }
}

impl<T: Clone, B2, B3, B4, B5, R, F: FnMut(T, B2, B3, B4, B5) -> R> Supply<T, F, (T, B2, B3, B4, B5)> {
    /// Runs the wrapped function through a unique reference, so it may
    /// mutate its captured state, passing a clone of the supplied
    /// argument first.
    pub fn call_mut(&mut self, b2: B2, b3: B3, b4: B4, b5: B5) -> (r: R)
        requires
            forall|t: T|
                cloned::<T>(old(self).argument, t) ==> call_requires(old(self).f, (t, b2, b3, b4, b5)),
        ensures
            exists|t: T|
                cloned::<T>(old(self).argument, t) && call_ensures(old(self).f, (t, b2, b3, b4, b5), r),
    {
        let t = self.argument.clone();
        assert(cloned(self.argument, t));
        (self.f)(t, b2, b3, b4, b5)
    }
}

impl<T: Clone, B2, B3, B4, B5, B6, R, F: Fn(T, B2, B3, B4, B5, B6) -> R> Supply<T, F, (T, B2, B3, B4, B5, B6)> {
    /// Runs the wrapped function through a shared reference, passing a
    /// clone of the supplied argument first.
    pub fn call(&self, b2: B2, b3: B3, b4: B4, b5: B5, b6: B6) -> (r: R)
        requires
            forall|t: T| cloned::<T>(self.argument, t) ==> call_requires(self.f, (t, b2, b3, b4, b5, b6)),
        ensures
            exists|t: T| cloned::<T>(self.argument, t) && call_ensures(self.f, (t, b2, b3, b4, b5, b6), r),
    {
        let t = self.argument.clone();
        assert(cloned(self.argument, t));
        (self.f)(t, b2, b3, b4, b5, b6)
    }
}

impl<T: Clone, B2, B3, B4, B5, B6, R, F: FnMut(T, B2, B3, B4, B5, B6) -> R> Supply<T, F, (T, B2, B3, B4, B5, B6)> {
    /// Runs the wrapped function through a unique reference, so it may
    /// mutate its captured state, passing a clone of the supplied
    /// argument first.
    pub fn call_mut(&mut self, b2: B2, b3: B3, b4: B4, b5: B5, b6: B6) -> (r: R)
        requires
            forall|t: T|
                cloned::<T>(old(self).argument, t) ==> call_requires(old(self).f, (t, b2, b3, b4, b5, b6)),
        ensures
            exists|t: T|
                cloned::<T>(old(self).argument, t) && call_ensures(old(self).f, (t, b2, b3, b4, b5, b6), r),
    {
        let t = self.argument.clone();
        assert(cloned(self.argument, t));
        (self.f)(t, b2, b3, b4, b5, b6)
    }
}

impl<T: Clone, B2, B3, B4, B5, B6, B7, R, F: Fn(T, B2, B3, B4, B5, B6, B7) -> R> Supply<T, F, (T, B2, B3, B4, B5, B6, B7)> {
    /// Runs the wrapped function through a shared reference, passing a
    /// clone of the supplied argument first.
    pub fn call(&self, b2: B2, b3: B3, b4: B4, b5: B5, b6: B6, b7: B7) -> (r: R)
        requires
            forall|t: T| cloned::<T>(self.argument, t) ==> call_requires(self.f, (t, b2, b3, b4, b5, b6, b7)),
        ensures
            exists|t: T| cloned::<T>(self.argument, t) && call_ensures(self.f, (t, b2, b3, b4, b5, b6, b7), r),
    {
        let t = self.argument.clone();
        assert(cloned(self.argument, t));
        (self.f)(t, b2, b3, b4, b5, b6, b7)
    }
}

impl<T: Clone, B2, B3, B4, B5, B6, B7, R, F: FnMut(T, B2, B3, B4, B5, B6, B7) -> R> Supply<T, F, (T, B2, B3, B4, B5, B6, B7)> {
    /// Runs the wrapped function through a unique reference, so it may
    /// mutate its captured state, passing a clone of the supplied
    /// argument first.
    pub fn call_mut(&mut self, b2: B2, b3: B3, b4: B4, b5: B5, b6: B6, b7: B7) -> (r: R)
        requires
            forall|t: T|
                cloned::<T>(old(self).argument, t) ==> call_requires(old(self).f, (t, b2, b3, b4, b5, b6, b7)),
        ensures
            exists|t: T|
                cloned::<T>(old(self).argument, t) && call_ensures(old(self).f, (t, b2, b3, b4, b5, b6, b7), r),
    {
        let t = self.argument.clone();
        assert(cloned(self.argument, t));
        (self.f)(t, b2, b3, b4, b5, b6, b7)
    }
}

impl<T: Clone, B2, B3, B4, B5, B6, B7, B8, R, F: Fn(T, B2, B3, B4, B5, B6, B7, B8) -> R> Supply<T, F, (T, B2, B3, B4, B5, B6, B7, B8)> {
    /// Runs the wrapped function through a shared reference, passing a
    /// clone of the supplied argument first.
    pub fn call(&self, b2: B2, b3: B3, b4: B4, b5: B5, b6: B6, b7: B7, b8: B8) -> (r: R)
        requires
            forall|t: T| cloned::<T>(self.argument, t) ==> call_requires(self.f, (t, b2, b3, b4, b5, b6, b7, b8)),
        ensures
            exists|t: T| cloned::<T>(self.argument, t) && call_ensures(self.f, (t, b2, b3, b4, b5, b6, b7, b8), r),
    {
        let t = self.argument.clone();
        assert(cloned(self.argument, t));
        (self.f)(t, b2, b3, b4, b5, b6, b7, b8)
    }
}

impl<T: Clone, B2, B3, B4, B5, B6, B7, B8, R, F: FnMut(T, B2, B3, B4, B5, B6, B7, B8) -> R> Supply<T, F, (T, B2, B3, B4, B5, B6, B7, B8)> {
    /// Runs the wrapped function through a unique reference, so it may
    /// mutate its captured state, passing a clone of the supplied
    /// argument first.
    pub fn call_mut(&mut self, b2: B2, b3: B3, b4: B4, b5: B5, b6: B6, b7: B7, b8: B8) -> (r: R)
        requires
            forall|t: T|
                cloned::<T>(old(self).argument, t) ==> call_requires(old(self).f, (t, b2, b3, b4, b5, b6, b7, b8)),
        ensures
            exists|t: T|
                cloned::<T>(old(self).argument, t) && call_ensures(old(self).f, (t, b2, b3, b4, b5, b6, b7, b8), r),
    {
        let t = self.argument.clone();
        assert(cloned(self.argument, t));
        (self.f)(t, b2, b3, b4, b5, b6, b7, b8)
    }
}

impl<T: Clone, B2, B3, B4, B5, B6, B7, B8, B9, R, F: Fn(T, B2, B3, B4, B5, B6, B7, B8, B9) -> R> Supply<T, F, (T, B2, B3, B4, B5, B6, B7, B8, B9)> {
    /// Runs the wrapped function through a shared reference, passing a
    /// clone of the supplied argument first.
    pub fn call(&self, b2: B2, b3: B3, b4: B4, b5: B5, b6: B6, b7: B7, b8: B8, b9: B9) -> (r: R)
        requires
            forall|t: T| cloned::<T>(self.argument, t) ==> call_requires(self.f, (t, b2, b3, b4, b5, b6, b7, b8, b9)),
        ensures
            exists|t: T| cloned::<T>(self.argument, t) && call_ensures(self.f, (t, b2, b3, b4, b5, b6, b7, b8, b9), r),
    {
        let t = self.argument.clone();
        assert(cloned(self.argument, t));
        (self.f)(t, b2, b3, b4, b5, b6, b7, b8, b9)
    }
}

impl<T: Clone, B2, B3, B4, B5, B6, B7, B8, B9, R, F: FnMut(T, B2, B3, B4, B5, B6, B7, B8, B9) -> R> Supply<T, F, (T, B2, B3, B4, B5, B6, B7, B8, B9)> {
    /// Runs the wrapped function through a unique reference, so it may
    /// mutate its captured state, passing a clone of the supplied
    /// argument first.
    pub fn call_mut(&mut self, b2: B2, b3: B3, b4: B4, b5: B5, b6: B6, b7: B7, b8: B8, b9: B9) -> (r: R)
        requires
            forall|t: T|
                cloned::<T>(old(self).argument, t) ==> call_requires(old(self).f, (t, b2, b3, b4, b5, b6, b7, b8, b9)),
        ensures
            exists|t: T|
                cloned::<T>(old(self).argument, t) && call_ensures(old(self).f, (t, b2, b3, b4, b5, b6, b7, b8, b9), r),
    {
        let t = self.argument.clone();
        assert(cloned(self.argument, t));
        (self.f)(t, b2, b3, b4, b5, b6, b7, b8, b9)
    }
}

impl<T: Clone, B2, B3, B4, B5, B6, B7, B8, B9, B10, R, F: Fn(T, B2, B3, B4, B5, B6, B7, B8, B9, B10) -> R> Supply<T, F, (T, B2, B3, B4, B5, B6, B7, B8, B9, B10)> {
    /// Runs the wrapped function through a shared reference, passing a
    /// clone of the supplied argument first.
    pub fn call(&self, b2: B2, b3: B3, b4: B4, b5: B5, b6: B6, b7: B7, b8: B8, b9: B9, b10: B10) -> (r: R)
        requires
            forall|t: T| cloned::<T>(self.argument, t) ==> call_requires(self.f, (t, b2, b3, b4, b5, b6, b7, b8, b9, b10)),
        ensures
            exists|t: T| cloned::<T>(self.argument, t) && call_ensures(self.f, (t, b2, b3, b4, b5, b6, b7, b8, b9, b10), r),
    {
        let t = self.argument.clone();
        assert(cloned(self.argument, t));
        (self.f)(t, b2, b3, b4, b5, b6, b7, b8, b9, b10)
    }
}

impl<T: Clone, B2, B3, B4, B5, B6, B7, B8, B9, B10, R, F: FnMut(T, B2, B3, B4, B5, B6, B7, B8, B9, B10) -> R> Supply<T, F, (T, B2, B3, B4, B5, B6, B7, B8, B9, B10)> {
    /// Runs the wrapped function through a unique reference, so it may
    /// mutate its captured state, passing a clone of the supplied
    /// argument first.
    pub fn call_mut(&mut self, b2: B2, b3: B3, b4: B4, b5: B5, b6: B6, b7: B7, b8: B8, b9: B9, b10: B10) -> (r: R)
        requires
            forall|t: T|
                cloned::<T>(old(self).argument, t) ==> call_requires(old(self).f, (t, b2, b3, b4, b5, b6, b7, b8, b9, b10)),
        ensures
            exists|t: T|
                cloned::<T>(old(self).argument, t) && call_ensures(old(self).f, (t, b2, b3, b4, b5, b6, b7, b8, b9, b10), r),
    {
        let t = self.argument.clone();
        assert(cloned(self.argument, t));
        (self.f)(t, b2, b3, b4, b5, b6, b7, b8, b9, b10)
    }
}

impl<T: Clone, B2, B3, B4, B5, B6, B7, B8, B9, B10, B11, R, F: Fn(T, B2, B3, B4, B5, B6, B7, B8, B9, B10, B11) -> R> Supply<T, F, (T, B2, B3, B4, B5, B6, B7, B8, B9, B10, B11)> {
    /// Runs the wrapped function through a shared reference, passing a
    /// clone of the supplied argument first.
    pub fn call(&self, b2: B2, b3: B3, b4: B4, b5: B5, b6: B6, b7: B7, b8: B8, b9: B9, b10: B10, b11: B11) -> (r: R)
        requires
            forall|t: T| cloned::<T>(self.argument, t) ==> call_requires(self.f, (t, b2, b3, b4, b5, b6, b7, b8, b9, b10, b11)),
        ensures
            exists|t: T| cloned::<T>(self.argument, t) && call_ensures(self.f, (t, b2, b3, b4, b5, b6, b7, b8, b9, b10, b11), r),
    {
        let t = self.argument.clone();
        assert(cloned(self.argument, t));
        (self.f)(t, b2, b3, b4, b5, b6, b7, b8, b9, b10, b11)
    }
}

impl<T: Clone, B2, B3, B4, B5, B6, B7, B8, B9, B10, B11, R, F: FnMut(T, B2, B3, B4, B5, B6, B7, B8, B9, B10, B11) -> R> Supply<T, F, (T, B2, B3, B4, B5, B6, B7, B8, B9, B10, B11)> {
    /// Runs the wrapped function through a unique reference, so it may
    /// mutate its captured state, passing a clone of the supplied
    /// argument first.
    pub fn call_mut(&mut self, b2: B2, b3: B3, b4: B4, b5: B5, b6: B6, b7: B7, b8: B8, b9: B9, b10: B10, b11: B11) -> (r: R)
        requires
            forall|t: T|
                cloned::<T>(old(self).argument, t) ==> call_requires(old(self).f, (t, b2, b3, b4, b5, b6, b7, b8, b9, b10, b11)),
        ensures
            exists|t: T|
                cloned::<T>(old(self).argument, t) && call_ensures(old(self).f, (t, b2, b3, b4, b5, b6, b7, b8, b9, b10, b11), r),
    {
        let t = self.argument.clone();
        assert(cloned(self.argument, t));
        (self.f)(t, b2, b3, b4, b5, b6, b7, b8, b9, b10, b11)
    }
}

impl<T: Clone, B2, B3, B4, B5, B6, B7, B8, B9, B10, B11, B12, R, F: Fn(T, B2, B3, B4, B5, B6, B7, B8, B9, B10, B11, B12) -> R> Supply<T, F, (T, B2, B3, B4, B5, B6, B7, B8, B9, B10, B11, B12)> {
    /// Runs the wrapped function through a shared reference, passing a
    /// clone of the supplied argument first.
    pub fn call(&self, b2: B2, b3: B3, b4: B4, b5: B5, b6: B6, b7: B7, b8: B8, b9: B9, b10: B10, b11: B11, b12: B12) -> (r: R)
        requires
            forall|t: T| cloned::<T>(self.argument, t) ==> call_requires(self.f, (t, b2, b3, b4, b5, b6, b7, b8, b9, b10, b11, b12)),
        ensures
            exists|t: T| cloned::<T>(self.argument, t) && call_ensures(self.f, (t, b2, b3, b4, b5, b6, b7, b8, b9, b10, b11, b12), r),
    {
        let t = self.argument.clone();
        assert(cloned(self.argument, t));
        (self.f)(t, b2, b3, b4, b5, b6, b7, b8, b9, b10, b11, b12)
    }
}

impl<T: Clone, B2, B3, B4, B5, B6, B7, B8, B9, B10, B11, B12, R, F: FnMut(T, B2, B3, B4, B5, B6, B7, B8, B9, B10, B11, B12) -> R> Supply<T, F, (T, B2, B3, B4, B5, B6, B7, B8, B9, B10, B11, B12)> {
    /// Runs the wrapped function through a unique reference, so it may
    /// mutate its captured state, passing a clone of the supplied
    /// argument first.
    pub fn call_mut(&mut self, b2: B2, b3: B3, b4: B4, b5: B5, b6: B6, b7: B7, b8: B8, b9: B9, b10: B10, b11: B11, b12: B12) -> (r: R)
        requires
            forall|t: T|
                cloned::<T>(old(self).argument, t) ==> call_requires(old(self).f, (t, b2, b3, b4, b5, b6, b7, b8, b9, b10, b11, b12)),
        ensures
            exists|t: T|
                cloned::<T>(old(self).argument, t) && call_ensures(old(self).f, (t, b2, b3, b4, b5, b6, b7, b8, b9, b10, b11, b12), r),
    {
        let t = self.argument.clone();
        assert(cloned(self.argument, t));
        (self.f)(t, b2, b3, b4, b5, b6, b7, b8, b9, b10, b11, b12)
    }
}
impl<T: Clone, F: Clone, A> Clone for Supply<T, F, A> {
    /// Clones the supplied argument and the wrapped function; each
    /// clone relates to its original as the type's own `clone` does.
    fn clone(&self) -> (r: Self)
        ensures
            cloned::<T>(self.argument, r.argument),
            cloned::<F>(self.f, r.f),
    {
        let argument = self.argument.clone();
        let f = self.f.clone();
        Supply { argument, f, marker: PhantomData }
    }
}

} // verus!
