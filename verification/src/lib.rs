//! Calculator core with an embedded-runtime bridge.
//!
//! The crate has two halves. `bitwise` holds the word-level operations the
//! calculator exposes directly. The remaining modules form the bridge that
//! hosts the managed runtime: `runtime` boots it exactly once, `attach`
//! binds the calling thread to it, `serializer` guarantees one in-flight
//! call at a time, `marshal` carries values across the boundary, `units`
//! holds the entry points the bridge dispatches to, and `bridge` ties them
//! together behind a facade that never panics and never lets a runtime-side
//! fault escape as anything but a documented sentinel.

pub mod attach;
pub mod bitwise;
pub mod bridge;
pub mod marshal;
pub mod runtime;
pub mod serializer;
pub mod units;

use vstd::prelude::*;

verus! {

/// Bit pattern of the floating-point value zero, the numeric sentinel the
/// bridge substitutes when an array-statistic call fails.
pub const FLOAT_ZERO_BITS: u64 = 0;

} // verus!

