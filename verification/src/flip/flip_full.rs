//! Flipping both a function's arguments and its paired output.

use vstd::prelude::*;
use crate::tuple::flip::FlipTuple;

verus! {

/// Flips a function's arguments and its pair output: `flip_full(f)`
/// returns a function that maps `(b, a)` to the reversed pair
/// `f(a, b).flip()`.
pub fn flip_full<A, B, C, D, F>(f: F) -> (h: impl Fn(B, A) -> (D, C))
    where
        F: Fn(A, B) -> (C, D),
    ensures
        forall|a: A, b: B|
            call_requires(f, (a, b)) ==> #[trigger] call_requires(h, (b, a)),
        forall|a: A, b: B, r: (D, C)| #[trigger] call_ensures(h, (b, a), r)
            ==> exists|p: (C, D)| call_ensures(f, (a, b), p) && r == p.spec_flip(),
{
    move |b: B, a: A| -> (r: (D, C))
        requires
            call_requires(f, (a, b)),
        ensures
            exists|p: (C, D)| call_ensures(f, (a, b), p) && r == p.spec_flip(),
    {
        f(a, b).flip()
    }
}

/// Flips the arguments and pair output of a function that can be
/// called only once.
///
/// See [`flip_full`]; the returned closure consumes `f` on its single
/// call.
pub fn flip_full_once<A, B, C, D, F>(f: F) -> (h: impl FnOnce(B, A) -> (D, C))
    where
        F: FnOnce(A, B) -> (C, D),
    ensures
        forall|a: A, b: B|
            call_requires(f, (a, b)) ==> #[trigger] call_requires(h, (b, a)),
        forall|a: A, b: B, r: (D, C)| #[trigger] call_ensures(h, (b, a), r)
            ==> exists|p: (C, D)| call_ensures(f, (a, b), p) && r == p.spec_flip(),
{
    move |b: B, a: A| -> (r: (D, C))
        requires
            call_requires(f, (a, b)),
        ensures
            exists|p: (C, D)| call_ensures(f, (a, b), p) && r == p.spec_flip(),
    {
        f(a, b).flip()
    }
}

/// The repeatable variant of [`flip_full`].
///
/// Closures cannot capture state mutably here, so this takes an `Fn`
/// function like [`flip_full`].
pub fn flip_full_mut<A, B, C, D, F>(f: F) -> (h: impl Fn(B, A) -> (D, C))
    where
        F: Fn(A, B) -> (C, D),
    ensures
        forall|a: A, b: B|
            call_requires(f, (a, b)) ==> #[trigger] call_requires(h, (b, a)),
        forall|a: A, b: B, r: (D, C)| #[trigger] call_ensures(h, (b, a), r)
            ==> exists|p: (C, D)| call_ensures(f, (a, b), p) && r == p.spec_flip(),
{
    move |b: B, a: A| -> (r: (D, C))
        requires
            call_requires(f, (a, b)),
        ensures
            exists|p: (C, D)| call_ensures(f, (a, b), p) && r == p.spec_flip(),
    {
        f(a, b).flip()
    }
}

} // verus!
