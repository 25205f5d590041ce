//! Discarding a function's output.

use vstd::prelude::*;

verus! {

/// Discards a function's output: `unit(f)` returns a function that
/// runs `f` and returns `()` instead of `f`'s result.
pub fn unit<A, B, F>(f: F) -> (h: impl Fn(A) -> ())
    where
        F: Fn(A) -> B,
    ensures
        forall|a: A| call_requires(f, (a,)) ==> #[trigger] call_requires(h, (a,)),
        forall|a: A, u: ()| #[trigger] call_ensures(h, (a,), u)
            ==> exists|b: B| call_ensures(f, (a,), b),
{
    move |a: A| -> (u: ())
        requires
            call_requires(f, (a,)),
        ensures
            exists|b: B| call_ensures(f, (a,), b),
    {
        let _b = f(a);
    }
}

/// Discards the output of a function that can be called only once.
///
/// See [`unit`]; the returned closure consumes `f` on its single call.
pub fn unit_once<A, B, F>(f: F) -> (h: impl FnOnce(A) -> ())
    where
        F: FnOnce(A) -> B,
    ensures
        forall|a: A| call_requires(f, (a,)) ==> #[trigger] call_requires(h, (a,)),
        forall|a: A, u: ()| #[trigger] call_ensures(h, (a,), u)
            ==> exists|b: B| call_ensures(f, (a,), b),
{
    move |a: A| -> (u: ())
        requires
            call_requires(f, (a,)),
        ensures
            exists|b: B| call_ensures(f, (a,), b),
    {
        let _b = f(a);
    }
}

/// The repeatable output-discarding variant.
///
/// See [`unit`]. Closures cannot capture state mutably here, so this
/// takes an `Fn` function like [`unit`].
pub fn unit_mut<A, B, F>(f: F) -> (h: impl Fn(A) -> ())
    where
        F: Fn(A) -> B,
    ensures
        forall|a: A| call_requires(f, (a,)) ==> #[trigger] call_requires(h, (a,)),
        forall|a: A, u: ()| #[trigger] call_ensures(h, (a,), u)
            ==> exists|b: B| call_ensures(f, (a,), b),
{
    move |a: A| -> (u: ())
        requires
            call_requires(f, (a,)),
        ensures
            exists|b: B| call_ensures(f, (a,), b),
    {
        let _b = f(a);
    }
}

} // verus!
