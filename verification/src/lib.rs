//! Runtime estimation of the heap memory owned by a value.
//!
//! The crate answers the question "how many bytes of out-of-line, heap
//! allocated memory does this value own right now?" — as opposed to
//! `size_of`, which only reports a value's inline footprint. Every
//! participating type implements the [`DataSize`](contract::DataSize)
//! capability contract: two compile-time facts (whether its heap footprint
//! can vary at runtime, and what the fixed contribution is when it cannot)
//! and one runtime operation, `estimate_heap_size`.
//!
//! Containers distinguish *capacity* (allocated slots, which occupy heap
//! memory whether or not they are filled) from *length* (occupied slots,
//! whose live elements contribute their own heap footprint). Shared and
//! weak references report zero unconditionally, so tree-shaped ownership
//! graphs are never double counted and cycles are never traversed.
//!
//! All accounting arithmetic saturates at `usize::MAX` instead of
//! overflowing; estimation never panics.

pub mod aggregates;
pub mod arith;
pub mod arrays;
pub mod basic;
pub mod boxed;
pub mod contract;
pub mod cow;
pub mod growable;
pub mod hashed;
pub mod inline_vec;
pub mod ordered;
pub mod shared;
pub mod strings;

pub use contract::data_size;
pub use contract::DataSize;
