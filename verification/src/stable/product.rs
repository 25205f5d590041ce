//! The product of two functions, run side by side on a pair of
//! arguments.

use vstd::prelude::*;

verus! {

/// The product of two functions: `product(f, g)` returns a function
/// that maps `(a, x)` to `(f(a), g(x))`.
pub fn product<A, B, X, Y, F, G>(f: F, g: G) -> (h: impl Fn(A, X) -> (B, Y))
    where
        F: Fn(A) -> B,
        G: Fn(X) -> Y,
    ensures
        forall|a: A, x: X|
            call_requires(f, (a,)) && call_requires(g, (x,))
                ==> #[trigger] call_requires(h, (a, x)),
        forall|a: A, x: X, r: (B, Y)| #[trigger] call_ensures(h, (a, x), r)
            ==> call_ensures(f, (a,), r.0) && call_ensures(g, (x,), r.1),
{
    move |a: A, x: X| -> (r: (B, Y))
        requires
            call_requires(f, (a,)),
            call_requires(g, (x,)),
        ensures
            call_ensures(f, (a,), r.0) && call_ensures(g, (x,), r.1),
    {
        (f(a), g(x))
    }
}

/// The product of two functions that can be called only once.
///
/// See [`product`]; the returned closure consumes both functions on
/// its single call.
pub fn product_once<A, B, X, Y, F, G>(f: F, g: G) -> (h: impl FnOnce(A, X) -> (B, Y))
    where
        F: FnOnce(A) -> B,
        G: FnOnce(X) -> Y,
    ensures
        forall|a: A, x: X|
            call_requires(f, (a,)) && call_requires(g, (x,))
                ==> #[trigger] call_requires(h, (a, x)),
        forall|a: A, x: X, r: (B, Y)| #[trigger] call_ensures(h, (a, x), r)
            ==> call_ensures(f, (a,), r.0) && call_ensures(g, (x,), r.1),
{
    move |a: A, x: X| -> (r: (B, Y))
        requires
            call_requires(f, (a,)),
            call_requires(g, (x,)),
        ensures
            call_ensures(f, (a,), r.0) && call_ensures(g, (x,), r.1),
    {
        (f(a), g(x))
    }
}

/// The repeatable product variant.
///
/// See [`product`]. Closures cannot capture state mutably here, so
/// this takes `Fn` functions like [`product`].
pub fn product_mut<A, B, X, Y, F, G>(f: F, g: G) -> (h: impl Fn(A, X) -> (B, Y))
    where
        F: Fn(A) -> B,
        G: Fn(X) -> Y,
    ensures
        forall|a: A, x: X|
            call_requires(f, (a,)) && call_requires(g, (x,))
                ==> #[trigger] call_requires(h, (a, x)),
        forall|a: A, x: X, r: (B, Y)| #[trigger] call_ensures(h, (a, x), r)
            ==> call_ensures(f, (a,), r.0) && call_ensures(g, (x,), r.1),
{
    move |a: A, x: X| -> (r: (B, Y))
        requires
            call_requires(f, (a,)),
            call_requires(g, (x,)),
        ensures
            call_ensures(f, (a,), r.0) && call_ensures(g, (x,), r.1),
    {
        (f(a), g(x))
    }
}

} // verus!
