//! Flipping a two-argument function's arguments.

use vstd::prelude::*;

verus! {

/// Flips a function's arguments: `flip_args(f)` returns a function that
/// maps `(b, a)` to `f(a, b)`.
pub fn flip_args<A, B, R, F>(f: F) -> (h: impl Fn(B, A) -> R)
    where
        F: Fn(A, B) -> R,
    ensures
        forall|a: A, b: B|
            call_requires(f, (a, b)) ==> #[trigger] call_requires(h, (b, a)),
        forall|a: A, b: B, r: R| #[trigger] call_ensures(h, (b, a), r)
            ==> call_ensures(f, (a, b), r),
{
    move |b: B, a: A| -> (r: R)
        requires
            call_requires(f, (a, b)),
        ensures
            call_ensures(f, (a, b), r),
    {
        f(a, b)
    }
}

/// Flips the arguments of a function that can be called only once.
///
/// See [`flip_args`]; the returned closure consumes `f` on its single call.
pub fn flip_args_once<A, B, R, F>(f: F) -> (h: impl FnOnce(B, A) -> R)
    where
        F: FnOnce(A, B) -> R,
    ensures
        forall|a: A, b: B|
            call_requires(f, (a, b)) ==> #[trigger] call_requires(h, (b, a)),
        forall|a: A, b: B, r: R| #[trigger] call_ensures(h, (b, a), r)
            ==> call_ensures(f, (a, b), r),
{
    move |b: B, a: A| -> (r: R)
        requires
            call_requires(f, (a, b)),
        ensures
            call_ensures(f, (a, b), r),
    {
        f(a, b)
    }
}

/// The repeatable argument-flipping variant.
///
/// See [`flip_args`]. Closures cannot capture state mutably here, so this
/// takes an `Fn` function like [`flip_args`]; for flipping an `FnMut`
/// function use [`crate::unstable::flip::Flip::call_mut`].
pub fn flip_args_mut<A, B, R, F>(f: F) -> (h: impl Fn(B, A) -> R)
    where
        F: Fn(A, B) -> R,
    ensures
        forall|a: A, b: B|
            call_requires(f, (a, b)) ==> #[trigger] call_requires(h, (b, a)),
        forall|a: A, b: B, r: R| #[trigger] call_ensures(h, (b, a), r)
            ==> call_ensures(f, (a, b), r),
{
    move |b: B, a: A| -> (r: R)
        requires
            call_requires(f, (a, b)),
        ensures
            call_ensures(f, (a, b), r),
    {
        f(a, b)
    }
}

} // verus!
