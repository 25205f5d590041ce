//! Tools for working with functions.
//!
//! Two layers make up the crate. The lower layer, in [`tuple`], is an
//! algebra of fixed-arity heterogeneous tuples: taking and appending
//! elements at the front, pushing and popping at the back, reversing,
//! and concatenation, each defined for arities up to twelve. The upper
//! layer builds function combinators on top of it: chaining and
//! composing, flipping argument order, currying, supplying single
//! arguments, and adapting a function of several arguments to one that
//! takes its argument tuple.
//!
//! Every operation carries a contract. Tuple operations are specified
//! by spec functions on the tuple traits, and the inverse laws among
//! them (flipping twice, popping after pushing, taking after
//! appending, concatenating with the empty tuple) are stated and
//! proved as proof functions beside the traits. Combinators are
//! specified through `call_requires` and `call_ensures` of the
//! functions they wrap: what a combinator returns is pinned down, for
//! every wrapped function, by the contracts of the functions it was
//! built from.
//!
//! Combinator values are lazy: building one does no work, and the
//! wrapped functions run only when the combinator itself is called.
//! Each combinator is offered in up to three calling capabilities:
//! consuming (`FnOnce`), by unique reference (`FnMut`), and by shared
//! reference (`Fn`). The free functions of [`stable`] return opaque
//! closures; the types of [`unstable`] name the combinator and expose
//! explicit `call` methods, which also admits functions of several
//! arguments.

pub mod constant;
pub mod flip;
pub mod sealed;
pub mod stable;
pub mod tuple;
pub mod unstable;

pub use stable::chain::{chain, chain_mut, chain_once};
pub use stable::compose::{compose, compose_mut, compose_once};
pub use stable::product::{product, product_mut, product_once};
pub use stable::unit::{unit, unit_mut, unit_once};
pub use stable::value;
