//! Extensions that apply a function to a value.

use vstd::prelude::*;

verus! {

/// A type whose values can have functions applied to them, implemented
/// for every type. `v.apply(f)` is `f(v)`, which reads left to right
/// in a pipeline of calls.
pub trait Apply {
    /// Applies a function to `self`: literally `f(self)`.
    fn apply<F, R>(self, f: F) -> (r: R)
        where
            Self: Sized,
            F: FnOnce(Self) -> R,
        requires
            call_requires(f, (self,)),
        ensures
            call_ensures(f, (self,), r),
    {
        f(self)
    }

    /// Applies a function to a reference to `self`: literally
    /// `f(&self)`.
    fn apply_ref<'a, F, R>(&'a self, f: F) -> (r: R)
        where
            F: FnOnce(&'a Self) -> R,
        requires
            call_requires(f, (self,)),
        ensures
            call_ensures(f, (self,), r),
    {
        f(self)
    }

    /// Applies a function to a unique reference to `self`: literally
    /// `f(&mut self)`.
    fn apply_mut<'a, F, R>(&'a mut self, f: F) -> (r: R)
        where
            Self: Sized,
            F: FnOnce(&'a mut Self) -> R,
        requires
            forall|m: &mut Self| *m == *old(self) ==> call_requires(f, (m,)),
        ensures
            exists|m: &mut Self|
                *m == *old(self) && *final(self) == *final(m) && call_ensures(f, (m,), r),
    {
        f(self)
    }

    /// Applies a function to the dereference of `self`: literally
    /// `f(&*self)`. What the dereference yields is pinned down only as
    /// far as the `Deref` implementation's own contract pins it.
    fn apply_deref<'a, F, R>(&'a self, f: F) -> (r: R)
        where
            Self: Sized + core::ops::Deref,
            <Self as core::ops::Deref>::Target: 'a,
            F: FnOnce(&'a <Self as core::ops::Deref>::Target) -> R,
        requires
            forall|d: &'a <Self as core::ops::Deref>::Target|
                call_ensures(<Self as core::ops::Deref>::deref, (self,), d)
                    ==> call_requires(f, (d,)),
        ensures
            exists|d: &'a <Self as core::ops::Deref>::Target|
                call_ensures(<Self as core::ops::Deref>::deref, (self,), d)
                    && call_ensures(f, (d,), r),
    {
        f(self.deref())
    }
}

impl<T> Apply for T {
}

/// A type whose values can run a function for its side effect and then
/// hand themselves on, implemented for every type.
pub trait Also: Sized {
    /// Runs a function on a reference to `self` and returns `self`
    /// unchanged.
    fn also<F>(self, f: F) -> (r: Self)
        where
            F: FnOnce(&Self) -> (),
        requires
            forall|m: &Self| *m == self ==> call_requires(f, (m,)),
        ensures
            r == self,
            exists|m: &Self| *m == self && call_ensures(f, (m,), ()),
    {
        f(&self);
        self
    }

    /// Runs a function on a unique reference to `self` and returns the
    /// value the function left behind.
    fn also_mut<F>(self, f: F) -> (r: Self)
        where
            F: FnOnce(&mut Self) -> (),
        requires
            forall|m: &mut Self| *m == self ==> call_requires(f, (m,)),
        ensures
            exists|m: &mut Self|
                *m == self && r == *final(m) && call_ensures(f, (m,), ()),
    {
        let mut v = self;
        f(&mut v);
        v
    }

    /// Runs a function on the dereference of `self` and returns `self`
    /// unchanged.
    fn also_deref<F>(self, f: F) -> (r: Self)
        where
            Self: core::ops::Deref,
            F: FnOnce(&<Self as core::ops::Deref>::Target) -> (),
        requires
            forall|m: &Self, d: &<Self as core::ops::Deref>::Target|
                *m == self && call_ensures(<Self as core::ops::Deref>::deref, (m,), d)
                    ==> call_requires(f, (d,)),
        ensures
            r == self,
            exists|m: &Self, d: &<Self as core::ops::Deref>::Target|
                *m == self && call_ensures(<Self as core::ops::Deref>::deref, (m,), d)
                    && call_ensures(f, (d,), ()),
    {
        f(self.deref());
        self
    }
}

impl<T> Also for T {
}

} // verus!
