//! The [`Curry`] combinator: a function taking its arguments one at a
//! time.

use vstd::prelude::*;
use vstd::pervasive::cloned;
use core::marker::PhantomData;
use crate::tuple::at_least_2::AtLeast2;
use crate::tuple::push::TuplePush;
use crate::tuple::take::TupleTake;

verus! {

/// Curries `f`: the combinator accepts one argument at a time through
/// [`Curry::step`], and [`Curry::call_once`] with the last argument
/// runs `f` on everything accumulated. The marker type `Rem` is the
/// tuple of arguments still to be supplied, here the whole argument
/// tuple of `f`; where inference cannot settle it, name it in the
/// binding's type.
pub fn curry<F, Rem>(f: F) -> (r: Curry<(), F, Rem>)
    ensures
        r.supplied == (),
        r.f == f,
{
    Curry { supplied: (), f, marker: PhantomData }
}

/// A function `F` applied one argument at a time: `supplied` holds the
/// arguments accumulated so far, and `Rem` is the tuple of arguments
/// still missing. Once a single argument remains, `call_once` runs the
/// function; until then, `step` adds an argument. The combinator is
/// implemented for functions of up to twelve arguments.
#[must_use]
#[derive(Debug)]
pub struct Curry<S, F, Rem> {
    /// The arguments supplied so far.
    pub supplied: S,
    /// The function awaiting its remaining arguments.
    pub f: F,
    /// Marker for the argument tuple type; carries no data.
    pub marker: PhantomData<Rem>,
}

impl<F, Rem> Curry<(), F, Rem> {
    /// Curries `f`, with nothing supplied yet and the whole argument
    /// tuple of `f` remaining. `Rem` is the argument tuple of `f`.
    pub fn new(f: F) -> (r: Self)
        ensures
            r.supplied == (),
            r.f == f,
    {
        Curry { supplied: (), f, marker: PhantomData }
    }
}

impl<S, F, Rem> Curry<S, F, Rem> {
    /// Returns the arguments supplied so far and the function.
    pub fn into_inner(self) -> (r: (S, F))
        ensures
            r == (self.supplied, self.f),
    {
        let Curry { supplied, f, marker: _ } = self;
        (supplied, f)
    }

    /// Returns references to the arguments supplied so far and the
    /// function.
    pub fn as_inner(&self) -> (r: (&S, &F))
        ensures
            *r.0 == self.supplied && *r.1 == self.f,
    {
        (&self.supplied, &self.f)
    }

    /// Supplies one more argument while at least two remain: the
    /// argument is pushed onto the accumulated tuple, and the result
    /// awaits the rest.
    pub fn step(self, arg: Rem::Take) -> (r: Curry<S::Res, F, Rem::Rem>)
        where
            Rem: AtLeast2,
            <Rem as TupleTake>::Rem: TupleTake,
            S: TuplePush<<Rem as TupleTake>::Take>,
        ensures
            r.supplied == self.supplied.spec_push(arg),
            r.f == self.f,
    {
        let Curry { supplied, f, marker: _ } = self;
        Curry { supplied: supplied.push(arg), f, marker: PhantomData }
    }
}

impl<R, F: FnOnce() -> R> Curry<(), F, ()> {
    /// Runs a function of no arguments, consuming the combinator:
    /// currying such a function is at once the call itself.
    pub fn call_once(self) -> (r: R)
        requires
            call_requires(self.f, ()),
        ensures
            call_ensures(self.f, (), r),
    {
        (self.f)()
    }
}

impl<R, F: Fn() -> R> Curry<(), F, ()> {
    /// Runs a function of no arguments through a shared reference.
    pub fn call(&self) -> (r: R)
        requires
            call_requires(self.f, ()),
        ensures
            call_ensures(self.f, (), r),
    {
        (self.f)()
    }
}

impl<R, F: FnMut() -> R> Curry<(), F, ()> {
    /// Runs a function of no arguments through a unique reference, so
    /// it may mutate its captured state.
    pub fn call_mut(&mut self) -> (r: R)
        requires
            call_requires(old(self).f, ()),
        ensures
            call_ensures(old(self).f, (), r),
    {
        (self.f)()
    }
}

impl<A1, R, F: FnOnce(A1) -> R> Curry<(), F, (A1,)> {
    /// Supplies the last argument and runs the function on the
    /// accumulated arguments followed by it.
    pub fn call_once(self, arg: A1) -> (r: R)
        requires
            call_requires(self.f, (arg,)),
        ensures
            call_ensures(self.f, (arg,), r),
    {
        let Curry { supplied: _, f, marker: _ } = self;
        f(arg)
    }
}

impl<A1, A2, R, F: FnOnce(A1, A2) -> R> Curry<(A1,), F, (A2,)> {
    /// Supplies the last argument and runs the function on the
    /// accumulated arguments followed by it.
    pub fn call_once(self, arg: A2) -> (r: R)
        requires
            call_requires(self.f, (self.supplied.0, arg)),
        ensures
            call_ensures(self.f, (self.supplied.0, arg), r),
    {
        let Curry { supplied, f, marker: _ } = self;
        f(supplied.0, arg)
    }
}

impl<A1, A2, A3, R, F: FnOnce(A1, A2, A3) -> R> Curry<(A1, A2), F, (A3,)> {
    /// Supplies the last argument and runs the function on the
    /// accumulated arguments followed by it.
    pub fn call_once(self, arg: A3) -> (r: R)
        requires
            call_requires(self.f, (self.supplied.0, self.supplied.1, arg)),
        ensures
            call_ensures(self.f, (self.supplied.0, self.supplied.1, arg), r),
    {
        let Curry { supplied, f, marker: _ } = self;
        f(supplied.0, supplied.1, arg)
    }
}

impl<A1, A2, A3, A4, R, F: FnOnce(A1, A2, A3, A4) -> R> Curry<(A1, A2, A3), F, (A4,)> {
    /// Supplies the last argument and runs the function on the
    /// accumulated arguments followed by it.
    pub fn call_once(self, arg: A4) -> (r: R)
        requires
            call_requires(self.f, (self.supplied.0, self.supplied.1, self.supplied.2, arg)),
        ensures
            call_ensures(self.f, (self.supplied.0, self.supplied.1, self.supplied.2, arg), r),
    {
        let Curry { supplied, f, marker: _ } = self;
        f(supplied.0, supplied.1, supplied.2, arg)
    }
}

impl<A1, A2, A3, A4, A5, R, F: FnOnce(A1, A2, A3, A4, A5) -> R> Curry<(A1, A2, A3, A4), F, (A5,)> {
    /// Supplies the last argument and runs the function on the
    /// accumulated arguments followed by it.
    pub fn call_once(self, arg: A5) -> (r: R)
        requires
            call_requires(self.f, (self.supplied.0, self.supplied.1, self.supplied.2, self.supplied.3, arg)),
        ensures
            call_ensures(self.f, (self.supplied.0, self.supplied.1, self.supplied.2, self.supplied.3, arg), r),
    {
        let Curry { supplied, f, marker: _ } = self;
        f(supplied.0, supplied.1, supplied.2, supplied.3, arg)
    }
}

impl<A1, A2, A3, A4, A5, A6, R, F: FnOnce(A1, A2, A3, A4, A5, A6) -> R> Curry<(A1, A2, A3, A4, A5), F, (A6,)> {
    /// Supplies the last argument and runs the function on the
    /// accumulated arguments followed by it.
    pub fn call_once(self, arg: A6) -> (r: R)
        requires
            call_requires(self.f, (self.supplied.0, self.supplied.1, self.supplied.2, self.supplied.3, self.supplied.4, arg)),
        ensures
            call_ensures(self.f, (self.supplied.0, self.supplied.1, self.supplied.2, self.supplied.3, self.supplied.4, arg), r),
    {
        let Curry { supplied, f, marker: _ } = self;
        f(supplied.0, supplied.1, supplied.2, supplied.3, supplied.4, arg)
    }
}

impl<A1, A2, A3, A4, A5, A6, A7, R, F: FnOnce(A1, A2, A3, A4, A5, A6, A7) -> R> Curry<(A1, A2, A3, A4, A5, A6), F, (A7,)> {
    /// Supplies the last argument and runs the function on the
    /// accumulated arguments followed by it.
    pub fn call_once(self, arg: A7) -> (r: R)
        requires
            call_requires(self.f, (self.supplied.0, self.supplied.1, self.supplied.2, self.supplied.3, self.supplied.4, self.supplied.5, arg)),
        ensures
            call_ensures(self.f, (self.supplied.0, self.supplied.1, self.supplied.2, self.supplied.3, self.supplied.4, self.supplied.5, arg), r),
    {
        let Curry { supplied, f, marker: _ } = self;
        f(supplied.0, supplied.1, supplied.2, supplied.3, supplied.4, supplied.5, arg)
    }
}

impl<A1, A2, A3, A4, A5, A6, A7, A8, R, F: FnOnce(A1, A2, A3, A4, A5, A6, A7, A8) -> R> Curry<(A1, A2, A3, A4, A5, A6, A7), F, (A8,)> {
    /// Supplies the last argument and runs the function on the
    /// accumulated arguments followed by it.
    pub fn call_once(self, arg: A8) -> (r: R)
        requires
            call_requires(self.f, (self.supplied.0, self.supplied.1, self.supplied.2, self.supplied.3, self.supplied.4, self.supplied.5, self.supplied.6, arg)),
        ensures
            call_ensures(self.f, (self.supplied.0, self.supplied.1, self.supplied.2, self.supplied.3, self.supplied.4, self.supplied.5, self.supplied.6, arg), r),
    {
        let Curry { supplied, f, marker: _ } = self;
        f(supplied.0, supplied.1, supplied.2, supplied.3, supplied.4, supplied.5, supplied.6, arg)
    }
}

impl<A1, A2, A3, A4, A5, A6, A7, A8, A9, R, F: FnOnce(A1, A2, A3, A4, A5, A6, A7, A8, A9) -> R> Curry<(A1, A2, A3, A4, A5, A6, A7, A8), F, (A9,)> {
    /// Supplies the last argument and runs the function on the
    /// accumulated arguments followed by it.
    pub fn call_once(self, arg: A9) -> (r: R)
        requires
            call_requires(self.f, (self.supplied.0, self.supplied.1, self.supplied.2, self.supplied.3, self.supplied.4, self.supplied.5, self.supplied.6, self.supplied.7, arg)),
        ensures
            call_ensures(self.f, (self.supplied.0, self.supplied.1, self.supplied.2, self.supplied.3, self.supplied.4, self.supplied.5, self.supplied.6, self.supplied.7, arg), r),
    {
        let Curry { supplied, f, marker: _ } = self;
        f(supplied.0, supplied.1, supplied.2, supplied.3, supplied.4, supplied.5, supplied.6, supplied.7, arg)
    }
}

impl<A1, A2, A3, A4, A5, A6, A7, A8, A9, A10, R, F: FnOnce(A1, A2, A3, A4, A5, A6, A7, A8, A9, A10) -> R> Curry<(A1, A2, A3, A4, A5, A6, A7, A8, A9), F, (A10,)> {
    /// Supplies the last argument and runs the function on the
    /// accumulated arguments followed by it.
    pub fn call_once(self, arg: A10) -> (r: R)
        requires
            call_requires(self.f, (self.supplied.0, self.supplied.1, self.supplied.2, self.supplied.3, self.supplied.4, self.supplied.5, self.supplied.6, self.supplied.7, self.supplied.8, arg)),
        ensures
            call_ensures(self.f, (self.supplied.0, self.supplied.1, self.supplied.2, self.supplied.3, self.supplied.4, self.supplied.5, self.supplied.6, self.supplied.7, self.supplied.8, arg), r),
    {
        let Curry { supplied, f, marker: _ } = self;
        f(supplied.0, supplied.1, supplied.2, supplied.3, supplied.4, supplied.5, supplied.6, supplied.7, supplied.8, arg)
    }
}

impl<A1, A2, A3, A4, A5, A6, A7, A8, A9, A10, A11, R, F: FnOnce(A1, A2, A3, A4, A5, A6, A7, A8, A9, A10, A11) -> R> Curry<(A1, A2, A3, A4, A5, A6, A7, A8, A9, A10), F, (A11,)> {
    /// Supplies the last argument and runs the function on the
    /// accumulated arguments followed by it.
    pub fn call_once(self, arg: A11) -> (r: R)
        requires
            call_requires(self.f, (self.supplied.0, self.supplied.1, self.supplied.2, self.supplied.3, self.supplied.4, self.supplied.5, self.supplied.6, self.supplied.7, self.supplied.8, self.supplied.9, arg)),
        ensures
            call_ensures(self.f, (self.supplied.0, self.supplied.1, self.supplied.2, self.supplied.3, self.supplied.4, self.supplied.5, self.supplied.6, self.supplied.7, self.supplied.8, self.supplied.9, arg), r),
    {
        let Curry { supplied, f, marker: _ } = self;
        f(supplied.0, supplied.1, supplied.2, supplied.3, supplied.4, supplied.5, supplied.6, supplied.7, supplied.8, supplied.9, arg)
    }
}

impl<A1, A2, A3, A4, A5, A6, A7, A8, A9, A10, A11, A12, R, F: FnOnce(A1, A2, A3, A4, A5, A6, A7, A8, A9, A10, A11, A12) -> R> Curry<(A1, A2, A3, A4, A5, A6, A7, A8, A9, A10, A11), F, (A12,)> {
    /// Supplies the last argument and runs the function on the
    /// accumulated arguments followed by it.
    pub fn call_once(self, arg: A12) -> (r: R)
        requires
            call_requires(self.f, (self.supplied.0, self.supplied.1, self.supplied.2, self.supplied.3, self.supplied.4, self.supplied.5, self.supplied.6, self.supplied.7, self.supplied.8, self.supplied.9, self.supplied.10, arg)),
        ensures
            call_ensures(self.f, (self.supplied.0, self.supplied.1, self.supplied.2, self.supplied.3, self.supplied.4, self.supplied.5, self.supplied.6, self.supplied.7, self.supplied.8, self.supplied.9, self.supplied.10, arg), r),
    {
        let Curry { supplied, f, marker: _ } = self;
        f(supplied.0, supplied.1, supplied.2, supplied.3, supplied.4, supplied.5, supplied.6, supplied.7, supplied.8, supplied.9, supplied.10, arg)
    }
}

impl<A1, R, F: Fn(A1) -> R> Curry<(), F, (A1,)> {
    /// Supplies the single argument and runs the function through a
    /// shared reference.
    pub fn call(&self, arg: A1) -> (r: R)
        requires
            call_requires(self.f, (arg,)),
        ensures
            call_ensures(self.f, (arg,), r),
    {
        (self.f)(arg)
    }
}

impl<A1, R, F: FnMut(A1) -> R> Curry<(), F, (A1,)> {
    /// Supplies the single argument and runs the function through a
    /// unique reference, so it may mutate its captured state.
    pub fn call_mut(&mut self, arg: A1) -> (r: R)
        requires
            call_requires(old(self).f, (arg,)),
        ensures
            call_ensures(old(self).f, (arg,), r),
    {
        (self.f)(arg)
    }
}

impl<A1: Clone, A2, R, F: Fn(A1, A2) -> R> Curry<(A1,), F, (A2,)> {
    /// Supplies the last argument and runs the function through a
    /// shared reference, on clones of the accumulated arguments
    /// followed by it.
    pub fn call(&self, arg: A2) -> (r: R)
        requires
            forall|s0: A1|
                cloned::<A1>(self.supplied.0, s0) ==> call_requires(self.f, (s0, arg)),
        ensures
            exists|s0: A1|
                cloned::<A1>(self.supplied.0, s0) && call_ensures(self.f, (s0, arg), r),
    {
        let s0 = self.supplied.0.clone();
        assert(cloned(self.supplied.0, s0));
        (self.f)(s0, arg)
    }
}

impl<A1: Clone, A2, R, F: FnMut(A1, A2) -> R> Curry<(A1,), F, (A2,)> {
    /// Supplies the last argument and runs the function through a
    /// unique reference, so it may mutate its captured state, on
    /// clones of the accumulated arguments followed by it.
    pub fn call_mut(&mut self, arg: A2) -> (r: R)
        requires
            forall|s0: A1|
                cloned::<A1>(old(self).supplied.0, s0) ==> call_requires(old(self).f, (s0, arg)),
        ensures
            exists|s0: A1|
                cloned::<A1>(old(self).supplied.0, s0) && call_ensures(old(self).f, (s0, arg), r),
    {
        let s0 = self.supplied.0.clone();
        assert(cloned(self.supplied.0, s0));
        (self.f)(s0, arg)
    }
}

impl<A1: Clone, A2: Clone, A3, R, F: Fn(A1, A2, A3) -> R> Curry<(A1, A2), F, (A3,)> {
    /// Supplies the last argument and runs the function through a
    /// shared reference, on clones of the accumulated arguments
    /// followed by it.
    pub fn call(&self, arg: A3) -> (r: R)
        requires
            forall|s0: A1, s1: A2|
                cloned::<A1>(self.supplied.0, s0) && cloned::<A2>(self.supplied.1, s1) ==> call_requires(self.f, (s0, s1, arg)),
        ensures
            exists|s0: A1, s1: A2|
                cloned::<A1>(self.supplied.0, s0) && cloned::<A2>(self.supplied.1, s1) && call_ensures(self.f, (s0, s1, arg), r),
    {
        let s0 = self.supplied.0.clone();
        let s1 = self.supplied.1.clone();
        assert(cloned(self.supplied.0, s0));
        assert(cloned(self.supplied.1, s1));
        (self.f)(s0, s1, arg)
    }
}

impl<A1: Clone, A2: Clone, A3, R, F: FnMut(A1, A2, A3) -> R> Curry<(A1, A2), F, (A3,)> {
    /// Supplies the last argument and runs the function through a
    /// unique reference, so it may mutate its captured state, on
    /// clones of the accumulated arguments followed by it.
    pub fn call_mut(&mut self, arg: A3) -> (r: R)
        requires
            forall|s0: A1, s1: A2|
                cloned::<A1>(old(self).supplied.0, s0) && cloned::<A2>(old(self).supplied.1, s1) ==> call_requires(old(self).f, (s0, s1, arg)),
        ensures
            exists|s0: A1, s1: A2|
                cloned::<A1>(old(self).supplied.0, s0) && cloned::<A2>(old(self).supplied.1, s1) && call_ensures(old(self).f, (s0, s1, arg), r),
    {
        let s0 = self.supplied.0.clone();
        let s1 = self.supplied.1.clone();
        assert(cloned(self.supplied.0, s0));
        assert(cloned(self.supplied.1, s1));
        (self.f)(s0, s1, arg)
    }
}

impl<A1: Clone, A2: Clone, A3: Clone, A4, R, F: Fn(A1, A2, A3, A4) -> R> Curry<(A1, A2, A3), F, (A4,)> {
    /// Supplies the last argument and runs the function through a
    /// shared reference, on clones of the accumulated arguments
    /// followed by it.
    pub fn call(&self, arg: A4) -> (r: R)
        requires
            forall|s0: A1, s1: A2, s2: A3|
                cloned::<A1>(self.supplied.0, s0) && cloned::<A2>(self.supplied.1, s1) && cloned::<A3>(self.supplied.2, s2) ==> call_requires(self.f, (s0, s1, s2, arg)),
        ensures
            exists|s0: A1, s1: A2, s2: A3|
                cloned::<A1>(self.supplied.0, s0) && cloned::<A2>(self.supplied.1, s1) && cloned::<A3>(self.supplied.2, s2) && call_ensures(self.f, (s0, s1, s2, arg), r),
    {
        let s0 = self.supplied.0.clone();
        let s1 = self.supplied.1.clone();
        let s2 = self.supplied.2.clone();
        assert(cloned(self.supplied.0, s0));
        assert(cloned(self.supplied.1, s1));
        assert(cloned(self.supplied.2, s2));
        (self.f)(s0, s1, s2, arg)
    }
}

impl<A1: Clone, A2: Clone, A3: Clone, A4, R, F: FnMut(A1, A2, A3, A4) -> R> Curry<(A1, A2, A3), F, (A4,)> {
    /// Supplies the last argument and runs the function through a
    /// unique reference, so it may mutate its captured state, on
    /// clones of the accumulated arguments followed by it.
    pub fn call_mut(&mut self, arg: A4) -> (r: R)
        requires
            forall|s0: A1, s1: A2, s2: A3|
                cloned::<A1>(old(self).supplied.0, s0) && cloned::<A2>(old(self).supplied.1, s1) && cloned::<A3>(old(self).supplied.2, s2) ==> call_requires(old(self).f, (s0, s1, s2, arg)),
        ensures
            exists|s0: A1, s1: A2, s2: A3|
                cloned::<A1>(old(self).supplied.0, s0) && cloned::<A2>(old(self).supplied.1, s1) && cloned::<A3>(old(self).supplied.2, s2) && call_ensures(old(self).f, (s0, s1, s2, arg), r),
    {
        let s0 = self.supplied.0.clone();
        let s1 = self.supplied.1.clone();
        let s2 = self.supplied.2.clone();
        assert(cloned(self.supplied.0, s0));
        assert(cloned(self.supplied.1, s1));
        assert(cloned(self.supplied.2, s2));
        (self.f)(s0, s1, s2, arg)
    }
}

impl<A1: Clone, A2: Clone, A3: Clone, A4: Clone, A5, R, F: Fn(A1, A2, A3, A4, A5) -> R> Curry<(A1, A2, A3, A4), F, (A5,)> {
    /// Supplies the last argument and runs the function through a
    /// shared reference, on clones of the accumulated arguments
    /// followed by it.
    pub fn call(&self, arg: A5) -> (r: R)
        requires
            forall|s0: A1, s1: A2, s2: A3, s3: A4|
                cloned::<A1>(self.supplied.0, s0) && cloned::<A2>(self.supplied.1, s1) && cloned::<A3>(self.supplied.2, s2) && cloned::<A4>(self.supplied.3, s3) ==> call_requires(self.f, (s0, s1, s2, s3, arg)),
        ensures
            exists|s0: A1, s1: A2, s2: A3, s3: A4|
                cloned::<A1>(self.supplied.0, s0) && cloned::<A2>(self.supplied.1, s1) && cloned::<A3>(self.supplied.2, s2) && cloned::<A4>(self.supplied.3, s3) && call_ensures(self.f, (s0, s1, s2, s3, arg), r),
    {
        let s0 = self.supplied.0.clone();
        let s1 = self.supplied.1.clone();
        let s2 = self.supplied.2.clone();
        let s3 = self.supplied.3.clone();
        assert(cloned(self.supplied.0, s0));
        assert(cloned(self.supplied.1, s1));
        assert(cloned(self.supplied.2, s2));
        assert(cloned(self.supplied.3, s3));
        (self.f)(s0, s1, s2, s3, arg)
    }
}

impl<A1: Clone, A2: Clone, A3: Clone, A4: Clone, A5, R, F: FnMut(A1, A2, A3, A4, A5) -> R> Curry<(A1, A2, A3, A4), F, (A5,)> {
    /// Supplies the last argument and runs the function through a
    /// unique reference, so it may mutate its captured state, on
    /// clones of the accumulated arguments followed by it.
    pub fn call_mut(&mut self, arg: A5) -> (r: R)
        requires
            forall|s0: A1, s1: A2, s2: A3, s3: A4|
                cloned::<A1>(old(self).supplied.0, s0) && cloned::<A2>(old(self).supplied.1, s1) && cloned::<A3>(old(self).supplied.2, s2) && cloned::<A4>(old(self).supplied.3, s3) ==> call_requires(old(self).f, (s0, s1, s2, s3, arg)),
        ensures
            exists|s0: A1, s1: A2, s2: A3, s3: A4|
                cloned::<A1>(old(self).supplied.0, s0) && cloned::<A2>(old(self).supplied.1, s1) && cloned::<A3>(old(self).supplied.2, s2) && cloned::<A4>(old(self).supplied.3, s3) && call_ensures(old(self).f, (s0, s1, s2, s3, arg), r),
    {
        let s0 = self.supplied.0.clone();
        let s1 = self.supplied.1.clone();
        let s2 = self.supplied.2.clone();
        let s3 = self.supplied.3.clone();
        assert(cloned(self.supplied.0, s0));
        assert(cloned(self.supplied.1, s1));
        assert(cloned(self.supplied.2, s2));
        assert(cloned(self.supplied.3, s3));
        (self.f)(s0, s1, s2, s3, arg)
    }
}

impl<A1: Clone, A2: Clone, A3: Clone, A4: Clone, A5: Clone, A6, R, F: Fn(A1, A2, A3, A4, A5, A6) -> R> Curry<(A1, A2, A3, A4, A5), F, (A6,)> {
    /// Supplies the last argument and runs the function through a
    /// shared reference, on clones of the accumulated arguments
    /// followed by it.
    pub fn call(&self, arg: A6) -> (r: R)
        requires
            forall|s0: A1, s1: A2, s2: A3, s3: A4, s4: A5|
                cloned::<A1>(self.supplied.0, s0) && cloned::<A2>(self.supplied.1, s1) && cloned::<A3>(self.supplied.2, s2) && cloned::<A4>(self.supplied.3, s3) && cloned::<A5>(self.supplied.4, s4) ==> call_requires(self.f, (s0, s1, s2, s3, s4, arg)),
        ensures
            exists|s0: A1, s1: A2, s2: A3, s3: A4, s4: A5|
                cloned::<A1>(self.supplied.0, s0) && cloned::<A2>(self.supplied.1, s1) && cloned::<A3>(self.supplied.2, s2) && cloned::<A4>(self.supplied.3, s3) && cloned::<A5>(self.supplied.4, s4) && call_ensures(self.f, (s0, s1, s2, s3, s4, arg), r),
    {
        let s0 = self.supplied.0.clone();
        let s1 = self.supplied.1.clone();
        let s2 = self.supplied.2.clone();
        let s3 = self.supplied.3.clone();
        let s4 = self.supplied.4.clone();
        assert(cloned(self.supplied.0, s0));
        assert(cloned(self.supplied.1, s1));
        assert(cloned(self.supplied.2, s2));
        assert(cloned(self.supplied.3, s3));
        assert(cloned(self.supplied.4, s4));
        (self.f)(s0, s1, s2, s3, s4, arg)
    }
}

impl<A1: Clone, A2: Clone, A3: Clone, A4: Clone, A5: Clone, A6, R, F: FnMut(A1, A2, A3, A4, A5, A6) -> R> Curry<(A1, A2, A3, A4, A5), F, (A6,)> {
    /// Supplies the last argument and runs the function through a
    /// unique reference, so it may mutate its captured state, on
    /// clones of the accumulated arguments followed by it.
    pub fn call_mut(&mut self, arg: A6) -> (r: R)
        requires
            forall|s0: A1, s1: A2, s2: A3, s3: A4, s4: A5|
                cloned::<A1>(old(self).supplied.0, s0) && cloned::<A2>(old(self).supplied.1, s1) && cloned::<A3>(old(self).supplied.2, s2) && cloned::<A4>(old(self).supplied.3, s3) && cloned::<A5>(old(self).supplied.4, s4) ==> call_requires(old(self).f, (s0, s1, s2, s3, s4, arg)),
        ensures
            exists|s0: A1, s1: A2, s2: A3, s3: A4, s4: A5|
                cloned::<A1>(old(self).supplied.0, s0) && cloned::<A2>(old(self).supplied.1, s1) && cloned::<A3>(old(self).supplied.2, s2) && cloned::<A4>(old(self).supplied.3, s3) && cloned::<A5>(old(self).supplied.4, s4) && call_ensures(old(self).f, (s0, s1, s2, s3, s4, arg), r),
    {
        let s0 = self.supplied.0.clone();
        let s1 = self.supplied.1.clone();
        let s2 = self.supplied.2.clone();
        let s3 = self.supplied.3.clone();
        let s4 = self.supplied.4.clone();
        assert(cloned(self.supplied.0, s0));
        assert(cloned(self.supplied.1, s1));
        assert(cloned(self.supplied.2, s2));
        assert(cloned(self.supplied.3, s3));
        assert(cloned(self.supplied.4, s4));
        (self.f)(s0, s1, s2, s3, s4, arg)
    }
}

impl<A1: Clone, A2: Clone, A3: Clone, A4: Clone, A5: Clone, A6: Clone, A7, R, F: Fn(A1, A2, A3, A4, A5, A6, A7) -> R> Curry<(A1, A2, A3, A4, A5, A6), F, (A7,)> {
    /// Supplies the last argument and runs the function through a
    /// shared reference, on clones of the accumulated arguments
    /// followed by it.
    pub fn call(&self, arg: A7) -> (r: R)
        requires
            forall|s0: A1, s1: A2, s2: A3, s3: A4, s4: A5, s5: A6|
                cloned::<A1>(self.supplied.0, s0) && cloned::<A2>(self.supplied.1, s1) && cloned::<A3>(self.supplied.2, s2) && cloned::<A4>(self.supplied.3, s3) && cloned::<A5>(self.supplied.4, s4) && cloned::<A6>(self.supplied.5, s5) ==> call_requires(self.f, (s0, s1, s2, s3, s4, s5, arg)),
        ensures
            exists|s0: A1, s1: A2, s2: A3, s3: A4, s4: A5, s5: A6|
                cloned::<A1>(self.supplied.0, s0) && cloned::<A2>(self.supplied.1, s1) && cloned::<A3>(self.supplied.2, s2) && cloned::<A4>(self.supplied.3, s3) && cloned::<A5>(self.supplied.4, s4) && cloned::<A6>(self.supplied.5, s5) && call_ensures(self.f, (s0, s1, s2, s3, s4, s5, arg), r),
    {
        let s0 = self.supplied.0.clone();
        let s1 = self.supplied.1.clone();
        let s2 = self.supplied.2.clone();
        let s3 = self.supplied.3.clone();
        let s4 = self.supplied.4.clone();
        let s5 = self.supplied.5.clone();
        assert(cloned(self.supplied.0, s0));
        assert(cloned(self.supplied.1, s1));
        assert(cloned(self.supplied.2, s2));
        assert(cloned(self.supplied.3, s3));
        assert(cloned(self.supplied.4, s4));
        assert(cloned(self.supplied.5, s5));
        (self.f)(s0, s1, s2, s3, s4, s5, arg)
    }
}

impl<A1: Clone, A2: Clone, A3: Clone, A4: Clone, A5: Clone, A6: Clone, A7, R, F: FnMut(A1, A2, A3, A4, A5, A6, A7) -> R> Curry<(A1, A2, A3, A4, A5, A6), F, (A7,)> {
    /// Supplies the last argument and runs the function through a
    /// unique reference, so it may mutate its captured state, on
    /// clones of the accumulated arguments followed by it.
    pub fn call_mut(&mut self, arg: A7) -> (r: R)
        requires
            forall|s0: A1, s1: A2, s2: A3, s3: A4, s4: A5, s5: A6|
                cloned::<A1>(old(self).supplied.0, s0) && cloned::<A2>(old(self).supplied.1, s1) && cloned::<A3>(old(self).supplied.2, s2) && cloned::<A4>(old(self).supplied.3, s3) && cloned::<A5>(old(self).supplied.4, s4) && cloned::<A6>(old(self).supplied.5, s5) ==> call_requires(old(self).f, (s0, s1, s2, s3, s4, s5, arg)),
        ensures
            exists|s0: A1, s1: A2, s2: A3, s3: A4, s4: A5, s5: A6|
                cloned::<A1>(old(self).supplied.0, s0) && cloned::<A2>(old(self).supplied.1, s1) && cloned::<A3>(old(self).supplied.2, s2) && cloned::<A4>(old(self).supplied.3, s3) && cloned::<A5>(old(self).supplied.4, s4) && cloned::<A6>(old(self).supplied.5, s5) && call_ensures(old(self).f, (s0, s1, s2, s3, s4, s5, arg), r),
    {
        let s0 = self.supplied.0.clone();
        let s1 = self.supplied.1.clone();
        let s2 = self.supplied.2.clone();
        let s3 = self.supplied.3.clone();
        let s4 = self.supplied.4.clone();
        let s5 = self.supplied.5.clone();
        assert(cloned(self.supplied.0, s0));
        assert(cloned(self.supplied.1, s1));
        assert(cloned(self.supplied.2, s2));
        assert(cloned(self.supplied.3, s3));
        assert(cloned(self.supplied.4, s4));
        assert(cloned(self.supplied.5, s5));
        (self.f)(s0, s1, s2, s3, s4, s5, arg)
    }
}

impl<A1: Clone, A2: Clone, A3: Clone, A4: Clone, A5: Clone, A6: Clone, A7: Clone, A8, R, F: Fn(A1, A2, A3, A4, A5, A6, A7, A8) -> R> Curry<(A1, A2, A3, A4, A5, A6, A7), F, (A8,)> {
    /// Supplies the last argument and runs the function through a
    /// shared reference, on clones of the accumulated arguments
    /// followed by it.
    pub fn call(&self, arg: A8) -> (r: R)
        requires
            forall|s0: A1, s1: A2, s2: A3, s3: A4, s4: A5, s5: A6, s6: A7|
                cloned::<A1>(self.supplied.0, s0) && cloned::<A2>(self.supplied.1, s1) && cloned::<A3>(self.supplied.2, s2) && cloned::<A4>(self.supplied.3, s3) && cloned::<A5>(self.supplied.4, s4) && cloned::<A6>(self.supplied.5, s5) && cloned::<A7>(self.supplied.6, s6) ==> call_requires(self.f, (s0, s1, s2, s3, s4, s5, s6, arg)),
        ensures
            exists|s0: A1, s1: A2, s2: A3, s3: A4, s4: A5, s5: A6, s6: A7|
                cloned::<A1>(self.supplied.0, s0) && cloned::<A2>(self.supplied.1, s1) && cloned::<A3>(self.supplied.2, s2) && cloned::<A4>(self.supplied.3, s3) && cloned::<A5>(self.supplied.4, s4) && cloned::<A6>(self.supplied.5, s5) && cloned::<A7>(self.supplied.6, s6) && call_ensures(self.f, (s0, s1, s2, s3, s4, s5, s6, arg), r),
    {
        let s0 = self.supplied.0.clone();
        let s1 = self.supplied.1.clone();
        let s2 = self.supplied.2.clone();
        let s3 = self.supplied.3.clone();
        let s4 = self.supplied.4.clone();
        let s5 = self.supplied.5.clone();
        let s6 = self.supplied.6.clone();
        assert(cloned(self.supplied.0, s0));
        assert(cloned(self.supplied.1, s1));
        assert(cloned(self.supplied.2, s2));
        assert(cloned(self.supplied.3, s3));
        assert(cloned(self.supplied.4, s4));
        assert(cloned(self.supplied.5, s5));
        assert(cloned(self.supplied.6, s6));
        (self.f)(s0, s1, s2, s3, s4, s5, s6, arg)
    }
}

impl<A1: Clone, A2: Clone, A3: Clone, A4: Clone, A5: Clone, A6: Clone, A7: Clone, A8, R, F: FnMut(A1, A2, A3, A4, A5, A6, A7, A8) -> R> Curry<(A1, A2, A3, A4, A5, A6, A7), F, (A8,)> {
    /// Supplies the last argument and runs the function through a
    /// unique reference, so it may mutate its captured state, on
    /// clones of the accumulated arguments followed by it.
    pub fn call_mut(&mut self, arg: A8) -> (r: R)
        requires
            forall|s0: A1, s1: A2, s2: A3, s3: A4, s4: A5, s5: A6, s6: A7|
                cloned::<A1>(old(self).supplied.0, s0) && cloned::<A2>(old(self).supplied.1, s1) && cloned::<A3>(old(self).supplied.2, s2) && cloned::<A4>(old(self).supplied.3, s3) && cloned::<A5>(old(self).supplied.4, s4) && cloned::<A6>(old(self).supplied.5, s5) && cloned::<A7>(old(self).supplied.6, s6) ==> call_requires(old(self).f, (s0, s1, s2, s3, s4, s5, s6, arg)),
        ensures
            exists|s0: A1, s1: A2, s2: A3, s3: A4, s4: A5, s5: A6, s6: A7|
                cloned::<A1>(old(self).supplied.0, s0) && cloned::<A2>(old(self).supplied.1, s1) && cloned::<A3>(old(self).supplied.2, s2) && cloned::<A4>(old(self).supplied.3, s3) && cloned::<A5>(old(self).supplied.4, s4) && cloned::<A6>(old(self).supplied.5, s5) && cloned::<A7>(old(self).supplied.6, s6) && call_ensures(old(self).f, (s0, s1, s2, s3, s4, s5, s6, arg), r),
    {
        let s0 = self.supplied.0.clone();
        let s1 = self.supplied.1.clone();
        let s2 = self.supplied.2.clone();
        let s3 = self.supplied.3.clone();
        let s4 = self.supplied.4.clone();
        let s5 = self.supplied.5.clone();
        let s6 = self.supplied.6.clone();
        assert(cloned(self.supplied.0, s0));
        assert(cloned(self.supplied.1, s1));
        assert(cloned(self.supplied.2, s2));
        assert(cloned(self.supplied.3, s3));
        assert(cloned(self.supplied.4, s4));
        assert(cloned(self.supplied.5, s5));
        assert(cloned(self.supplied.6, s6));
        (self.f)(s0, s1, s2, s3, s4, s5, s6, arg)
    }
}

impl<A1: Clone, A2: Clone, A3: Clone, A4: Clone, A5: Clone, A6: Clone, A7: Clone, A8: Clone, A9, R, F: Fn(A1, A2, A3, A4, A5, A6, A7, A8, A9) -> R> Curry<(A1, A2, A3, A4, A5, A6, A7, A8), F, (A9,)> {
    /// Supplies the last argument and runs the function through a
    /// shared reference, on clones of the accumulated arguments
    /// followed by it.
    pub fn call(&self, arg: A9) -> (r: R)
        requires
            forall|s0: A1, s1: A2, s2: A3, s3: A4, s4: A5, s5: A6, s6: A7, s7: A8|
                cloned::<A1>(self.supplied.0, s0) && cloned::<A2>(self.supplied.1, s1) && cloned::<A3>(self.supplied.2, s2) && cloned::<A4>(self.supplied.3, s3) && cloned::<A5>(self.supplied.4, s4) && cloned::<A6>(self.supplied.5, s5) && cloned::<A7>(self.supplied.6, s6) && cloned::<A8>(self.supplied.7, s7) ==> call_requires(self.f, (s0, s1, s2, s3, s4, s5, s6, s7, arg)),
        ensures
            exists|s0: A1, s1: A2, s2: A3, s3: A4, s4: A5, s5: A6, s6: A7, s7: A8|
                cloned::<A1>(self.supplied.0, s0) && cloned::<A2>(self.supplied.1, s1) && cloned::<A3>(self.supplied.2, s2) && cloned::<A4>(self.supplied.3, s3) && cloned::<A5>(self.supplied.4, s4) && cloned::<A6>(self.supplied.5, s5) && cloned::<A7>(self.supplied.6, s6) && cloned::<A8>(self.supplied.7, s7) && call_ensures(self.f, (s0, s1, s2, s3, s4, s5, s6, s7, arg), r),
    {
        let s0 = self.supplied.0.clone();
        let s1 = self.supplied.1.clone();
        let s2 = self.supplied.2.clone();
        let s3 = self.supplied.3.clone();
        let s4 = self.supplied.4.clone();
        let s5 = self.supplied.5.clone();
        let s6 = self.supplied.6.clone();
        let s7 = self.supplied.7.clone();
        assert(cloned(self.supplied.0, s0));
        assert(cloned(self.supplied.1, s1));
        assert(cloned(self.supplied.2, s2));
        assert(cloned(self.supplied.3, s3));
        assert(cloned(self.supplied.4, s4));
        assert(cloned(self.supplied.5, s5));
        assert(cloned(self.supplied.6, s6));
        assert(cloned(self.supplied.7, s7));
        (self.f)(s0, s1, s2, s3, s4, s5, s6, s7, arg)
    }
}

impl<A1: Clone, A2: Clone, A3: Clone, A4: Clone, A5: Clone, A6: Clone, A7: Clone, A8: Clone, A9, R, F: FnMut(A1, A2, A3, A4, A5, A6, A7, A8, A9) -> R> Curry<(A1, A2, A3, A4, A5, A6, A7, A8), F, (A9,)> {
    /// Supplies the last argument and runs the function through a
    /// unique reference, so it may mutate its captured state, on
    /// clones of the accumulated arguments followed by it.
    pub fn call_mut(&mut self, arg: A9) -> (r: R)
        requires
            forall|s0: A1, s1: A2, s2: A3, s3: A4, s4: A5, s5: A6, s6: A7, s7: A8|
                cloned::<A1>(old(self).supplied.0, s0) && cloned::<A2>(old(self).supplied.1, s1) && cloned::<A3>(old(self).supplied.2, s2) && cloned::<A4>(old(self).supplied.3, s3) && cloned::<A5>(old(self).supplied.4, s4) && cloned::<A6>(old(self).supplied.5, s5) && cloned::<A7>(old(self).supplied.6, s6) && cloned::<A8>(old(self).supplied.7, s7) ==> call_requires(old(self).f, (s0, s1, s2, s3, s4, s5, s6, s7, arg)),
        ensures
            exists|s0: A1, s1: A2, s2: A3, s3: A4, s4: A5, s5: A6, s6: A7, s7: A8|
                cloned::<A1>(old(self).supplied.0, s0) && cloned::<A2>(old(self).supplied.1, s1) && cloned::<A3>(old(self).supplied.2, s2) && cloned::<A4>(old(self).supplied.3, s3) && cloned::<A5>(old(self).supplied.4, s4) && cloned::<A6>(old(self).supplied.5, s5) && cloned::<A7>(old(self).supplied.6, s6) && cloned::<A8>(old(self).supplied.7, s7) && call_ensures(old(self).f, (s0, s1, s2, s3, s4, s5, s6, s7, arg), r),
    {
        let s0 = self.supplied.0.clone();
        let s1 = self.supplied.1.clone();
        let s2 = self.supplied.2.clone();
        let s3 = self.supplied.3.clone();
        let s4 = self.supplied.4.clone();
        let s5 = self.supplied.5.clone();
        let s6 = self.supplied.6.clone();
        let s7 = self.supplied.7.clone();
        assert(cloned(self.supplied.0, s0));
        assert(cloned(self.supplied.1, s1));
        assert(cloned(self.supplied.2, s2));
        assert(cloned(self.supplied.3, s3));
        assert(cloned(self.supplied.4, s4));
        assert(cloned(self.supplied.5, s5));
        assert(cloned(self.supplied.6, s6));
        assert(cloned(self.supplied.7, s7));
        (self.f)(s0, s1, s2, s3, s4, s5, s6, s7, arg)
    }
}

impl<A1: Clone, A2: Clone, A3: Clone, A4: Clone, A5: Clone, A6: Clone, A7: Clone, A8: Clone, A9: Clone, A10, R, F: Fn(A1, A2, A3, A4, A5, A6, A7, A8, A9, A10) -> R> Curry<(A1, A2, A3, A4, A5, A6, A7, A8, A9), F, (A10,)> {
    /// Supplies the last argument and runs the function through a
    /// shared reference, on clones of the accumulated arguments
    /// followed by it.
    pub fn call(&self, arg: A10) -> (r: R)
        requires
            forall|s0: A1, s1: A2, s2: A3, s3: A4, s4: A5, s5: A6, s6: A7, s7: A8, s8: A9|
                cloned::<A1>(self.supplied.0, s0) && cloned::<A2>(self.supplied.1, s1) && cloned::<A3>(self.supplied.2, s2) && cloned::<A4>(self.supplied.3, s3) && cloned::<A5>(self.supplied.4, s4) && cloned::<A6>(self.supplied.5, s5) && cloned::<A7>(self.supplied.6, s6) && cloned::<A8>(self.supplied.7, s7) && cloned::<A9>(self.supplied.8, s8) ==> call_requires(self.f, (s0, s1, s2, s3, s4, s5, s6, s7, s8, arg)),
        ensures
            exists|s0: A1, s1: A2, s2: A3, s3: A4, s4: A5, s5: A6, s6: A7, s7: A8, s8: A9|
                cloned::<A1>(self.supplied.0, s0) && cloned::<A2>(self.supplied.1, s1) && cloned::<A3>(self.supplied.2, s2) && cloned::<A4>(self.supplied.3, s3) && cloned::<A5>(self.supplied.4, s4) && cloned::<A6>(self.supplied.5, s5) && cloned::<A7>(self.supplied.6, s6) && cloned::<A8>(self.supplied.7, s7) && cloned::<A9>(self.supplied.8, s8) && call_ensures(self.f, (s0, s1, s2, s3, s4, s5, s6, s7, s8, arg), r),
    {
        let s0 = self.supplied.0.clone();
        let s1 = self.supplied.1.clone();
        let s2 = self.supplied.2.clone();
        let s3 = self.supplied.3.clone();
        let s4 = self.supplied.4.clone();
        let s5 = self.supplied.5.clone();
        let s6 = self.supplied.6.clone();
        let s7 = self.supplied.7.clone();
        let s8 = self.supplied.8.clone();
        assert(cloned(self.supplied.0, s0));
        assert(cloned(self.supplied.1, s1));
        assert(cloned(self.supplied.2, s2));
        assert(cloned(self.supplied.3, s3));
        assert(cloned(self.supplied.4, s4));
        assert(cloned(self.supplied.5, s5));
        assert(cloned(self.supplied.6, s6));
        assert(cloned(self.supplied.7, s7));
        assert(cloned(self.supplied.8, s8));
        (self.f)(s0, s1, s2, s3, s4, s5, s6, s7, s8, arg)
    }
}

impl<A1: Clone, A2: Clone, A3: Clone, A4: Clone, A5: Clone, A6: Clone, A7: Clone, A8: Clone, A9: Clone, A10, R, F: FnMut(A1, A2, A3, A4, A5, A6, A7, A8, A9, A10) -> R> Curry<(A1, A2, A3, A4, A5, A6, A7, A8, A9), F, (A10,)> {
    /// Supplies the last argument and runs the function through a
    /// unique reference, so it may mutate its captured state, on
    /// clones of the accumulated arguments followed by it.
    pub fn call_mut(&mut self, arg: A10) -> (r: R)
        requires
            forall|s0: A1, s1: A2, s2: A3, s3: A4, s4: A5, s5: A6, s6: A7, s7: A8, s8: A9|
                cloned::<A1>(old(self).supplied.0, s0) && cloned::<A2>(old(self).supplied.1, s1) && cloned::<A3>(old(self).supplied.2, s2) && cloned::<A4>(old(self).supplied.3, s3) && cloned::<A5>(old(self).supplied.4, s4) && cloned::<A6>(old(self).supplied.5, s5) && cloned::<A7>(old(self).supplied.6, s6) && cloned::<A8>(old(self).supplied.7, s7) && cloned::<A9>(old(self).supplied.8, s8) ==> call_requires(old(self).f, (s0, s1, s2, s3, s4, s5, s6, s7, s8, arg)),
        ensures
            exists|s0: A1, s1: A2, s2: A3, s3: A4, s4: A5, s5: A6, s6: A7, s7: A8, s8: A9|
                cloned::<A1>(old(self).supplied.0, s0) && cloned::<A2>(old(self).supplied.1, s1) && cloned::<A3>(old(self).supplied.2, s2) && cloned::<A4>(old(self).supplied.3, s3) && cloned::<A5>(old(self).supplied.4, s4) && cloned::<A6>(old(self).supplied.5, s5) && cloned::<A7>(old(self).supplied.6, s6) && cloned::<A8>(old(self).supplied.7, s7) && cloned::<A9>(old(self).supplied.8, s8) && call_ensures(old(self).f, (s0, s1, s2, s3, s4, s5, s6, s7, s8, arg), r),
    {
        let s0 = self.supplied.0.clone();
        let s1 = self.supplied.1.clone();
        let s2 = self.supplied.2.clone();
        let s3 = self.supplied.3.clone();
        let s4 = self.supplied.4.clone();
        let s5 = self.supplied.5.clone();
        let s6 = self.supplied.6.clone();
        let s7 = self.supplied.7.clone();
        let s8 = self.supplied.8.clone();
        assert(cloned(self.supplied.0, s0));
        assert(cloned(self.supplied.1, s1));
        assert(cloned(self.supplied.2, s2));
        assert(cloned(self.supplied.3, s3));
        assert(cloned(self.supplied.4, s4));
        assert(cloned(self.supplied.5, s5));
        assert(cloned(self.supplied.6, s6));
        assert(cloned(self.supplied.7, s7));
        assert(cloned(self.supplied.8, s8));
        (self.f)(s0, s1, s2, s3, s4, s5, s6, s7, s8, arg)
    }
}

impl<A1: Clone, A2: Clone, A3: Clone, A4: Clone, A5: Clone, A6: Clone, A7: Clone, A8: Clone, A9: Clone, A10: Clone, A11, R, F: Fn(A1, A2, A3, A4, A5, A6, A7, A8, A9, A10, A11) -> R> Curry<(A1, A2, A3, A4, A5, A6, A7, A8, A9, A10), F, (A11,)> {
    /// Supplies the last argument and runs the function through a
    /// shared reference, on clones of the accumulated arguments
    /// followed by it.
    pub fn call(&self, arg: A11) -> (r: R)
        requires
            forall|s0: A1, s1: A2, s2: A3, s3: A4, s4: A5, s5: A6, s6: A7, s7: A8, s8: A9, s9: A10|
                cloned::<A1>(self.supplied.0, s0) && cloned::<A2>(self.supplied.1, s1) && cloned::<A3>(self.supplied.2, s2) && cloned::<A4>(self.supplied.3, s3) && cloned::<A5>(self.supplied.4, s4) && cloned::<A6>(self.supplied.5, s5) && cloned::<A7>(self.supplied.6, s6) && cloned::<A8>(self.supplied.7, s7) && cloned::<A9>(self.supplied.8, s8) && cloned::<A10>(self.supplied.9, s9) ==> call_requires(self.f, (s0, s1, s2, s3, s4, s5, s6, s7, s8, s9, arg)),
        ensures
            exists|s0: A1, s1: A2, s2: A3, s3: A4, s4: A5, s5: A6, s6: A7, s7: A8, s8: A9, s9: A10|
                cloned::<A1>(self.supplied.0, s0) && cloned::<A2>(self.supplied.1, s1) && cloned::<A3>(self.supplied.2, s2) && cloned::<A4>(self.supplied.3, s3) && cloned::<A5>(self.supplied.4, s4) && cloned::<A6>(self.supplied.5, s5) && cloned::<A7>(self.supplied.6, s6) && cloned::<A8>(self.supplied.7, s7) && cloned::<A9>(self.supplied.8, s8) && cloned::<A10>(self.supplied.9, s9) && call_ensures(self.f, (s0, s1, s2, s3, s4, s5, s6, s7, s8, s9, arg), r),
    {
        let s0 = self.supplied.0.clone();
        let s1 = self.supplied.1.clone();
        let s2 = self.supplied.2.clone();
        let s3 = self.supplied.3.clone();
        let s4 = self.supplied.4.clone();
        let s5 = self.supplied.5.clone();
        let s6 = self.supplied.6.clone();
        let s7 = self.supplied.7.clone();
        let s8 = self.supplied.8.clone();
        let s9 = self.supplied.9.clone();
        assert(cloned(self.supplied.0, s0));
        assert(cloned(self.supplied.1, s1));
        assert(cloned(self.supplied.2, s2));
        assert(cloned(self.supplied.3, s3));
        assert(cloned(self.supplied.4, s4));
        assert(cloned(self.supplied.5, s5));
        assert(cloned(self.supplied.6, s6));
        assert(cloned(self.supplied.7, s7));
        assert(cloned(self.supplied.8, s8));
        assert(cloned(self.supplied.9, s9));
        (self.f)(s0, s1, s2, s3, s4, s5, s6, s7, s8, s9, arg)
    }
}

impl<A1: Clone, A2: Clone, A3: Clone, A4: Clone, A5: Clone, A6: Clone, A7: Clone, A8: Clone, A9: Clone, A10: Clone, A11, R, F: FnMut(A1, A2, A3, A4, A5, A6, A7, A8, A9, A10, A11) -> R> Curry<(A1, A2, A3, A4, A5, A6, A7, A8, A9, A10), F, (A11,)> {
    /// Supplies the last argument and runs the function through a
    /// unique reference, so it may mutate its captured state, on
    /// clones of the accumulated arguments followed by it.
    pub fn call_mut(&mut self, arg: A11) -> (r: R)
        requires
            forall|s0: A1, s1: A2, s2: A3, s3: A4, s4: A5, s5: A6, s6: A7, s7: A8, s8: A9, s9: A10|
                cloned::<A1>(old(self).supplied.0, s0) && cloned::<A2>(old(self).supplied.1, s1) && cloned::<A3>(old(self).supplied.2, s2) && cloned::<A4>(old(self).supplied.3, s3) && cloned::<A5>(old(self).supplied.4, s4) && cloned::<A6>(old(self).supplied.5, s5) && cloned::<A7>(old(self).supplied.6, s6) && cloned::<A8>(old(self).supplied.7, s7) && cloned::<A9>(old(self).supplied.8, s8) && cloned::<A10>(old(self).supplied.9, s9) ==> call_requires(old(self).f, (s0, s1, s2, s3, s4, s5, s6, s7, s8, s9, arg)),
        ensures
            exists|s0: A1, s1: A2, s2: A3, s3: A4, s4: A5, s5: A6, s6: A7, s7: A8, s8: A9, s9: A10|
                cloned::<A1>(old(self).supplied.0, s0) && cloned::<A2>(old(self).supplied.1, s1) && cloned::<A3>(old(self).supplied.2, s2) && cloned::<A4>(old(self).supplied.3, s3) && cloned::<A5>(old(self).supplied.4, s4) && cloned::<A6>(old(self).supplied.5, s5) && cloned::<A7>(old(self).supplied.6, s6) && cloned::<A8>(old(self).supplied.7, s7) && cloned::<A9>(old(self).supplied.8, s8) && cloned::<A10>(old(self).supplied.9, s9) && call_ensures(old(self).f, (s0, s1, s2, s3, s4, s5, s6, s7, s8, s9, arg), r),
    {
        let s0 = self.supplied.0.clone();
        let s1 = self.supplied.1.clone();
        let s2 = self.supplied.2.clone();
        let s3 = self.supplied.3.clone();
        let s4 = self.supplied.4.clone();
        let s5 = self.supplied.5.clone();
        let s6 = self.supplied.6.clone();
        let s7 = self.supplied.7.clone();
        let s8 = self.supplied.8.clone();
        let s9 = self.supplied.9.clone();
        assert(cloned(self.supplied.0, s0));
        assert(cloned(self.supplied.1, s1));
        assert(cloned(self.supplied.2, s2));
        assert(cloned(self.supplied.3, s3));
        assert(cloned(self.supplied.4, s4));
        assert(cloned(self.supplied.5, s5));
        assert(cloned(self.supplied.6, s6));
        assert(cloned(self.supplied.7, s7));
        assert(cloned(self.supplied.8, s8));
        assert(cloned(self.supplied.9, s9));
        (self.f)(s0, s1, s2, s3, s4, s5, s6, s7, s8, s9, arg)
    }
}

impl<A1: Clone, A2: Clone, A3: Clone, A4: Clone, A5: Clone, A6: Clone, A7: Clone, A8: Clone, A9: Clone, A10: Clone, A11: Clone, A12, R, F: Fn(A1, A2, A3, A4, A5, A6, A7, A8, A9, A10, A11, A12) -> R> Curry<(A1, A2, A3, A4, A5, A6, A7, A8, A9, A10, A11), F, (A12,)> {
    /// Supplies the last argument and runs the function through a
    /// shared reference, on clones of the accumulated arguments
    /// followed by it.
    pub fn call(&self, arg: A12) -> (r: R)
        requires
            forall|s0: A1, s1: A2, s2: A3, s3: A4, s4: A5, s5: A6, s6: A7, s7: A8, s8: A9, s9: A10, s10: A11|
                cloned::<A1>(self.supplied.0, s0) && cloned::<A2>(self.supplied.1, s1) && cloned::<A3>(self.supplied.2, s2) && cloned::<A4>(self.supplied.3, s3) && cloned::<A5>(self.supplied.4, s4) && cloned::<A6>(self.supplied.5, s5) && cloned::<A7>(self.supplied.6, s6) && cloned::<A8>(self.supplied.7, s7) && cloned::<A9>(self.supplied.8, s8) && cloned::<A10>(self.supplied.9, s9) && cloned::<A11>(self.supplied.10, s10) ==> call_requires(self.f, (s0, s1, s2, s3, s4, s5, s6, s7, s8, s9, s10, arg)),
        ensures
            exists|s0: A1, s1: A2, s2: A3, s3: A4, s4: A5, s5: A6, s6: A7, s7: A8, s8: A9, s9: A10, s10: A11|
                cloned::<A1>(self.supplied.0, s0) && cloned::<A2>(self.supplied.1, s1) && cloned::<A3>(self.supplied.2, s2) && cloned::<A4>(self.supplied.3, s3) && cloned::<A5>(self.supplied.4, s4) && cloned::<A6>(self.supplied.5, s5) && cloned::<A7>(self.supplied.6, s6) && cloned::<A8>(self.supplied.7, s7) && cloned::<A9>(self.supplied.8, s8) && cloned::<A10>(self.supplied.9, s9) && cloned::<A11>(self.supplied.10, s10) && call_ensures(self.f, (s0, s1, s2, s3, s4, s5, s6, s7, s8, s9, s10, arg), r),
    {
        let s0 = self.supplied.0.clone();
        let s1 = self.supplied.1.clone();
        let s2 = self.supplied.2.clone();
        let s3 = self.supplied.3.clone();
        let s4 = self.supplied.4.clone();
        let s5 = self.supplied.5.clone();
        let s6 = self.supplied.6.clone();
        let s7 = self.supplied.7.clone();
        let s8 = self.supplied.8.clone();
        let s9 = self.supplied.9.clone();
        let s10 = self.supplied.10.clone();
        assert(cloned(self.supplied.0, s0));
        assert(cloned(self.supplied.1, s1));
        assert(cloned(self.supplied.2, s2));
        assert(cloned(self.supplied.3, s3));
        assert(cloned(self.supplied.4, s4));
        assert(cloned(self.supplied.5, s5));
        assert(cloned(self.supplied.6, s6));
        assert(cloned(self.supplied.7, s7));
        assert(cloned(self.supplied.8, s8));
        assert(cloned(self.supplied.9, s9));
        assert(cloned(self.supplied.10, s10));
        (self.f)(s0, s1, s2, s3, s4, s5, s6, s7, s8, s9, s10, arg)
    }
}

impl<A1: Clone, A2: Clone, A3: Clone, A4: Clone, A5: Clone, A6: Clone, A7: Clone, A8: Clone, A9: Clone, A10: Clone, A11: Clone, A12, R, F: FnMut(A1, A2, A3, A4, A5, A6, A7, A8, A9, A10, A11, A12) -> R> Curry<(A1, A2, A3, A4, A5, A6, A7, A8, A9, A10, A11), F, (A12,)> {
    /// Supplies the last argument and runs the function through a
    /// unique reference, so it may mutate its captured state, on
    /// clones of the accumulated arguments followed by it.
    pub fn call_mut(&mut self, arg: A12) -> (r: R)
        requires
            forall|s0: A1, s1: A2, s2: A3, s3: A4, s4: A5, s5: A6, s6: A7, s7: A8, s8: A9, s9: A10, s10: A11|
                cloned::<A1>(old(self).supplied.0, s0) && cloned::<A2>(old(self).supplied.1, s1) && cloned::<A3>(old(self).supplied.2, s2) && cloned::<A4>(old(self).supplied.3, s3) && cloned::<A5>(old(self).supplied.4, s4) && cloned::<A6>(old(self).supplied.5, s5) && cloned::<A7>(old(self).supplied.6, s6) && cloned::<A8>(old(self).supplied.7, s7) && cloned::<A9>(old(self).supplied.8, s8) && cloned::<A10>(old(self).supplied.9, s9) && cloned::<A11>(old(self).supplied.10, s10) ==> call_requires(old(self).f, (s0, s1, s2, s3, s4, s5, s6, s7, s8, s9, s10, arg)),
        ensures
            exists|s0: A1, s1: A2, s2: A3, s3: A4, s4: A5, s5: A6, s6: A7, s7: A8, s8: A9, s9: A10, s10: A11|
                cloned::<A1>(old(self).supplied.0, s0) && cloned::<A2>(old(self).supplied.1, s1) && cloned::<A3>(old(self).supplied.2, s2) && cloned::<A4>(old(self).supplied.3, s3) && cloned::<A5>(old(self).supplied.4, s4) && cloned::<A6>(old(self).supplied.5, s5) && cloned::<A7>(old(self).supplied.6, s6) && cloned::<A8>(old(self).supplied.7, s7) && cloned::<A9>(old(self).supplied.8, s8) && cloned::<A10>(old(self).supplied.9, s9) && cloned::<A11>(old(self).supplied.10, s10) && call_ensures(old(self).f, (s0, s1, s2, s3, s4, s5, s6, s7, s8, s9, s10, arg), r),
    {
        let s0 = self.supplied.0.clone();
        let s1 = self.supplied.1.clone();
        let s2 = self.supplied.2.clone();
        let s3 = self.supplied.3.clone();
        let s4 = self.supplied.4.clone();
        let s5 = self.supplied.5.clone();
        let s6 = self.supplied.6.clone();
        let s7 = self.supplied.7.clone();
        let s8 = self.supplied.8.clone();
        let s9 = self.supplied.9.clone();
        let s10 = self.supplied.10.clone();
        assert(cloned(self.supplied.0, s0));
        assert(cloned(self.supplied.1, s1));
        assert(cloned(self.supplied.2, s2));
        assert(cloned(self.supplied.3, s3));
        assert(cloned(self.supplied.4, s4));
        assert(cloned(self.supplied.5, s5));
        assert(cloned(self.supplied.6, s6));
        assert(cloned(self.supplied.7, s7));
        assert(cloned(self.supplied.8, s8));
        assert(cloned(self.supplied.9, s9));
        assert(cloned(self.supplied.10, s10));
        (self.f)(s0, s1, s2, s3, s4, s5, s6, s7, s8, s9, s10, arg)
    }
}
} // verus!
