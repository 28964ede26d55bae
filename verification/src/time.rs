//! Points in time, counted in nanoseconds from some fixed moment.
use vstd::prelude::*;

verus! {

/// Nanoseconds in a second.
pub const SECOND: u128 = 1_000_000_000;

/// Nanoseconds in a millisecond.
pub const MILLISECOND: u128 = 1_000_000;

/// The last point in time that a monotonic clock with seconds in a signed 64-bit number can show.
pub const LAST_INSTANT: u128 = 9_223_372_036_854_775_807_999_999_999;

} // verus!
