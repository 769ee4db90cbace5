//! A memoizing wrapper around a single-argument function.
//!
//! [`ICacher`] holds a function and every result that the function has produced
//! for it, keyed by the argument. A repeated argument is answered from that
//! store, so the function runs at most once for an argument until the result is
//! removed, the store is reset, or the function is replaced together with its
//! results.
//!
//! The crate has three parts:
//!
//! - [`cacher`] holds the wrapper and the contracts of its operations;
//! - [`model`] holds [`CacheState`], the abstract state that those contracts
//!   speak of, and each operation as a step on it;
//! - [`laws`] holds what follows for several operations in a row.
//!
//! The wrapper has no synchronisation of its own: an operation needs the
//! wrapper to itself for as long as it runs.

pub mod cacher;
pub mod laws;
pub mod model;

pub use cacher::ICacher;
pub use model::CacheState;
