//! Functions that ignore their (absent) arguments and return a fixed
//! value.

use vstd::prelude::*;
use vstd::pervasive::cloned;

verus! {

/// Returns a function that returns `val`. The function consumes the
/// value, so it can be called once.
pub fn constant<R>(val: R) -> (h: impl FnOnce() -> R)
    ensures
        call_requires(h, ()),
        forall|r: R| #[trigger] call_ensures(h, (), r) ==> r == val,
{
    move || -> (r: R)
        ensures
            r == val,
    {
        val
    }
}

/// Returns a function that returns a clone of `val` on every call.
pub fn constant_clone<R: Clone>(val: R) -> (h: impl Fn() -> R)
    ensures
        call_requires(h, ()),
        forall|r: R| #[trigger] call_ensures(h, (), r) ==> cloned::<R>(val, r),
{
    move || -> (r: R)
        ensures
            cloned::<R>(val, r),
    {
        val.clone()
    }
}

/// Returns a function that returns a copy of `val` on every call.
pub fn constant_copy<R: Copy>(val: R) -> (h: impl Fn() -> R)
    ensures
        call_requires(h, ()),
        forall|r: R| #[trigger] call_ensures(h, (), r) ==> r == val,
{
    move || -> (r: R)
        ensures
            r == val,
    {
        val
    }
}

/// Returns a function that clones out of a borrowed value on every
/// call, without taking ownership of it.
pub fn constant_clone_ref<'a, R: Clone>(val: &'a R) -> (h: impl Fn() -> R + 'a)
    ensures
        call_requires(h, ()),
        forall|r: R| #[trigger] call_ensures(h, (), r) ==> cloned::<R>(*val, r),
{
    move || -> (r: R)
        ensures
            cloned::<R>(*val, r),
    {
        val.clone()
    }
}

} // verus!
