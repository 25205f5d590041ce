//! An algebra of fixed-arity heterogeneous tuples.
//!
//! Each operation is a trait implemented for every tuple arity in its
//! domain, up to arity twelve: the type system in use here cannot
//! express a sequence of types of arbitrary length, so the bound of
//! twelve mirrors the arities for which the standard library
//! implements its own tuple traits. Every trait pairs its executable
//! method with a spec function giving the result exactly, and the
//! inverse laws relating the operations are proved beside them.

pub mod append;
pub mod as_ref;
pub mod at_least_2;
pub mod auto_tuple;
pub mod concat;
pub mod flip;
pub mod pop;
pub mod push;
pub mod take;
