//! Flipping a function's paired output.

use vstd::prelude::*;
use crate::tuple::flip::FlipTuple;

verus! {

/// Flips a function's pair output: `flip_output(f)` returns a function
/// that maps `a` to the reversed pair `f(a).flip()`.
pub fn flip_output<A, B, C, F>(f: F) -> (h: impl Fn(A) -> (C, B))
    where
        F: Fn(A) -> (B, C),
    ensures
        forall|a: A| call_requires(f, (a,)) ==> #[trigger] call_requires(h, (a,)),
        forall|a: A, r: (C, B)| #[trigger] call_ensures(h, (a,), r)
            ==> exists|p: (B, C)| call_ensures(f, (a,), p) && r == p.spec_flip(),
{
    move |a: A| -> (r: (C, B))
        requires
            call_requires(f, (a,)),
        ensures
            exists|p: (B, C)| call_ensures(f, (a,), p) && r == p.spec_flip(),
    {
        f(a).flip()
    }
}

/// Flips the pair output of a function that can be called only once.
///
/// See [`flip_output`]; the returned closure consumes `f` on its
/// single call.
pub fn flip_output_once<A, B, C, F>(f: F) -> (h: impl FnOnce(A) -> (C, B))
    where
        F: FnOnce(A) -> (B, C),
    ensures
        forall|a: A| call_requires(f, (a,)) ==> #[trigger] call_requires(h, (a,)),
        forall|a: A, r: (C, B)| #[trigger] call_ensures(h, (a,), r)
            ==> exists|p: (B, C)| call_ensures(f, (a,), p) && r == p.spec_flip(),
{
    move |a: A| -> (r: (C, B))
        requires
            call_requires(f, (a,)),
        ensures
            exists|p: (B, C)| call_ensures(f, (a,), p) && r == p.spec_flip(),
    {
        f(a).flip()
    }
}

/// The repeatable variant of [`flip_output`].
///
/// Closures cannot capture state mutably here, so this takes an `Fn`
/// function like [`flip_output`].
pub fn flip_output_mut<A, B, C, F>(f: F) -> (h: impl Fn(A) -> (C, B))
    where
        F: Fn(A) -> (B, C),
    ensures
        forall|a: A| call_requires(f, (a,)) ==> #[trigger] call_requires(h, (a,)),
        forall|a: A, r: (C, B)| #[trigger] call_ensures(h, (a,), r)
            ==> exists|p: (B, C)| call_ensures(f, (a,), p) && r == p.spec_flip(),
{
    move |a: A| -> (r: (C, B))
        requires
            call_requires(f, (a,)),
        ensures
            exists|p: (B, C)| call_ensures(f, (a,), p) && r == p.spec_flip(),
    {
        f(a).flip()
    }
}

} // verus!
