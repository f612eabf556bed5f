//! An incremental builder for fixed-capacity arrays.
//!
//! An [`ArrayBuilder<T, N>`] constructs an array of exactly `N` elements of
//! type `T` one element at a time, without requiring `T` to have a default
//! value. A contiguous prefix of `len` slots holds the live elements in
//! insertion order; the builder guarantees `0 <= len <= N` at every
//! externally observable point, and every operation's effect on the sequence
//! of live elements is stated in its contract and proved.

pub mod builder;
pub mod laws;

pub use builder::ArrayBuilder;
