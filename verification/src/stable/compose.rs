//! Composing two functions: run the second, then the first.

use vstd::prelude::*;

verus! {

/// Composes two functions: `compose(f, g)` returns a function that
/// maps `a` to `f(g(a))`, running `g` first and `f` on its result.
///
/// This is [`crate::chain`] with the arguments swapped; it exists so
/// that a call can be read in either order.
pub fn compose<A, B, C, F, G>(f: F, g: G) -> (h: impl Fn(A) -> C)
    where
        G: Fn(A) -> B,
        F: Fn(B) -> C,
    ensures
        forall|a: A|
            call_requires(g, (a,)) && (forall|b: B|
                call_ensures(g, (a,), b) ==> call_requires(f, (b,)))
                ==> #[trigger] call_requires(h, (a,)),
        forall|a: A, c: C| #[trigger] call_ensures(h, (a,), c)
            ==> exists|b: B| call_ensures(g, (a,), b) && call_ensures(f, (b,), c),
{
    move |a: A| -> (c: C)
        requires
            call_requires(g, (a,)),
            forall|b: B| call_ensures(g, (a,), b) ==> call_requires(f, (b,)),
        ensures
            exists|b: B| call_ensures(g, (a,), b) && call_ensures(f, (b,), c),
    {
        f(g(a))
    }
}

/// Composes two functions that can be called only once.
///
/// See [`compose`]; the returned closure consumes both functions on
/// its single call.
pub fn compose_once<A, B, C, F, G>(f: F, g: G) -> (h: impl FnOnce(A) -> C)
    where
        G: FnOnce(A) -> B,
        F: FnOnce(B) -> C,
    ensures
        forall|a: A|
            call_requires(g, (a,)) && (forall|b: B|
                call_ensures(g, (a,), b) ==> call_requires(f, (b,)))
                ==> #[trigger] call_requires(h, (a,)),
        forall|a: A, c: C| #[trigger] call_ensures(h, (a,), c)
            ==> exists|b: B| call_ensures(g, (a,), b) && call_ensures(f, (b,), c),
{
    move |a: A| -> (c: C)
        requires
            call_requires(g, (a,)),
            forall|b: B| call_ensures(g, (a,), b) ==> call_requires(f, (b,)),
        ensures
            exists|b: B| call_ensures(g, (a,), b) && call_ensures(f, (b,), c),
    {
        f(g(a))
    }
}

/// The repeatable composition variant.
///
/// See [`compose`]. Closures cannot capture state mutably here, so
/// this takes `Fn` functions like [`compose`]; for composing `FnMut`
/// functions use [`crate::unstable::compose::Compose::call_mut`].
pub fn compose_mut<A, B, C, F, G>(f: F, g: G) -> (h: impl Fn(A) -> C)
    where
        G: Fn(A) -> B,
        F: Fn(B) -> C,
    ensures
        forall|a: A|
            call_requires(g, (a,)) && (forall|b: B|
                call_ensures(g, (a,), b) ==> call_requires(f, (b,)))
                ==> #[trigger] call_requires(h, (a,)),
        forall|a: A, c: C| #[trigger] call_ensures(h, (a,), c)
            ==> exists|b: B| call_ensures(g, (a,), b) && call_ensures(f, (b,), c),
{
    move |a: A| -> (c: C)
        requires
            call_requires(g, (a,)),
            forall|b: B| call_ensures(g, (a,), b) ==> call_requires(f, (b,)),
        ensures
            exists|b: B| call_ensures(g, (a,), b) && call_ensures(f, (b,), c),
    {
        f(g(a))
    }
}

} // verus!
