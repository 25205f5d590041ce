//! Combinators that wrap single-argument functions in plain closures.
//!
//! Each combinator comes in up to three calling capabilities. The
//! plain form takes and returns `Fn` and can be called repeatedly; the
//! `_once` form takes and returns `FnOnce` and consumes its captures
//! on the single call. The `_mut` form names the repeatable variant as
//! well: closures here cannot capture state mutably, so it takes `Fn`
//! like the plain form, and the genuinely mutating capability lives on
//! the combinator types of [`crate::unstable`], whose `call_mut`
//! methods accept `FnMut` functions.

pub mod chain;
pub mod compose;
pub mod product;
pub mod unit;
pub mod value;
