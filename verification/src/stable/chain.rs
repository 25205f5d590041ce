//! Chaining two functions: run the first, then the second.

use vstd::prelude::*;

verus! {

/// Chains two functions: `chain(f, g)` returns a function that maps
/// `a` to `g(f(a))`, running `f` first and `g` on its result.
///
/// The returned closure accepts any `a` that `f` accepts and whose
/// every possible `f`-result `g` accepts, and each of its results is
/// `g`'s answer to some `f`-result.
pub fn chain<A, B, C, F, G>(f: F, g: G) -> (h: impl Fn(A) -> C)
    where
        F: Fn(A) -> B,
        G: Fn(B) -> C,
    ensures
        forall|a: A|
            call_requires(f, (a,)) && (forall|b: B|
                call_ensures(f, (a,), b) ==> call_requires(g, (b,)))
                ==> #[trigger] call_requires(h, (a,)),
        forall|a: A, c: C| #[trigger] call_ensures(h, (a,), c)
            ==> exists|b: B| call_ensures(f, (a,), b) && call_ensures(g, (b,), c),
{
    move |a: A| -> (c: C)
        requires
            call_requires(f, (a,)),
            forall|b: B| call_ensures(f, (a,), b) ==> call_requires(g, (b,)),
        ensures
            exists|b: B| call_ensures(f, (a,), b) && call_ensures(g, (b,), c),
    {
        g(f(a))
    }
}

/// Chains two functions that can be called only once.
///
/// See [`chain`]; the returned closure consumes both functions on its
/// single call.
pub fn chain_once<A, B, C, F, G>(f: F, g: G) -> (h: impl FnOnce(A) -> C)
    where
        F: FnOnce(A) -> B,
        G: FnOnce(B) -> C,
    ensures
        forall|a: A|
            call_requires(f, (a,)) && (forall|b: B|
                call_ensures(f, (a,), b) ==> call_requires(g, (b,)))
                ==> #[trigger] call_requires(h, (a,)),
        forall|a: A, c: C| #[trigger] call_ensures(h, (a,), c)
            ==> exists|b: B| call_ensures(f, (a,), b) && call_ensures(g, (b,), c),
{
    move |a: A| -> (c: C)
        requires
            call_requires(f, (a,)),
            forall|b: B| call_ensures(f, (a,), b) ==> call_requires(g, (b,)),
        ensures
            exists|b: B| call_ensures(f, (a,), b) && call_ensures(g, (b,), c),
    {
        g(f(a))
    }
}

/// The repeatable chaining variant.
///
/// See [`chain`]. Closures cannot capture state mutably here, so this
/// takes `Fn` functions like [`chain`]; for chaining `FnMut` functions
/// use [`crate::unstable::chain::Chain::call_mut`].
pub fn chain_mut<A, B, C, F, G>(f: F, g: G) -> (h: impl Fn(A) -> C)
    where
        F: Fn(A) -> B,
        G: Fn(B) -> C,
    ensures
        forall|a: A|
            call_requires(f, (a,)) && (forall|b: B|
                call_ensures(f, (a,), b) ==> call_requires(g, (b,)))
                ==> #[trigger] call_requires(h, (a,)),
        forall|a: A, c: C| #[trigger] call_ensures(h, (a,), c)
            ==> exists|b: B| call_ensures(f, (a,), b) && call_ensures(g, (b,), c),
{
    move |a: A| -> (c: C)
        requires
            call_requires(f, (a,)),
            forall|b: B| call_ensures(f, (a,), b) ==> call_requires(g, (b,)),
        ensures
            exists|b: B| call_ensures(f, (a,), b) && call_ensures(g, (b,), c),
    {
        g(f(a))
    }
}

} // verus!
