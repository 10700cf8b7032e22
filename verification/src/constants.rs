use vstd::prelude::*;

verus! {

/// Fee rates are expressed in parts per 100_000 (1 = 0.001%).
pub const ONE_E5_U128: u128 = 100_000;

/// Fixed-point unit for spreads, coefficients and deviation bounds.
pub const ONE_E18_U64: u64 = 1_000_000_000_000_000_000;

/// Fixed-point unit for spreads, coefficients and deviation bounds.
pub const ONE_E18_U128: u128 = 1_000_000_000_000_000_000;

/// Default oracle deviation bound: 1e16 parts per 1e18, i.e. 1%.
pub const DEFAULT_BOUND: u64 = 10_000_000_000_000_000;

/// Default staleness tolerance for the stored oracle price, in seconds.
pub const DEFAULT_STALE_DURATION: i64 = 120;

/// Largest accepted fee rate, in parts per 100_000.
pub const MAX_FEE_RATE: u16 = u16::MAX - 1;

} // verus!
