//! Settlement core of a constant-product automated market maker.
//!
//! The pricing engine (`curve`) is a set of pure functions over reserves and
//! a fee rate. The pool record (`state`) and the three operations
//! (`initialize`, `swap`, `withdraw`) work on plain balances: each operation
//! either applies all of its transfers or leaves every balance as it was.
pub mod curve;
pub mod error;
pub mod initialize;
pub mod state;
pub mod swap;
pub mod withdraw;
