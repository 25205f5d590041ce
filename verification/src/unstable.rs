//! Named combinator values with explicit call methods.
//!
//! Where [`crate::stable`] returns opaque closures over
//! single-argument functions, the types here name the combinator, give
//! access to the functions inside it, and offer each calling
//! capability as its own method: `call_once` consumes the combinator,
//! `call_mut` takes it by unique reference and accepts `FnMut`
//! functions, and `call` takes it by shared reference. The call
//! methods of [`curry::Curry`], [`flip::Flip`], [`supply::Supply`],
//! [`unit::Unit`] and [`untuple::Untuple`] are implemented for every
//! argument arity up to twelve; those of [`chain::Chain`] and
//! [`compose::Compose`] take a single argument.

pub mod chain;
pub mod compose;
pub mod curry;
pub mod ext;
pub mod flip;
pub mod supply;
pub mod unit;
pub mod untuple;

pub use chain::{chain, Chain};
pub use compose::{compose, Compose};
pub use curry::{curry, Curry};
pub use ext::FnExt;
pub use flip::{flip, Flip};
pub use supply::{supply, Supply};
pub use unit::{unit, Unit};
pub use untuple::{untuple, Untuple};
