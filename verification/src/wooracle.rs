use vstd::prelude::*;

verus! {

/// One token's oracle configuration and last-posted state, as read from
/// chain at a single point in time. Quoting only reads it; posting a new
/// price is a maintenance path outside this crate.
#[derive(Clone, Copy, Debug)]
pub struct Wooracle {
    /// Largest accepted age of an external feed reading, in seconds.
    pub maximum_age: u64,
    /// Decimal exponent of the oracle price scale.
    pub price_decimals: u8,
    /// Decimal exponent of the quote token.
    pub quote_decimals: u8,
    /// Decimal exponent of the base token.
    pub base_decimals: u8,
    /// Unix timestamp (seconds) of the last posted price.
    pub updated_at: i64,
    /// Tolerated age of the posted price, in seconds.
    pub stale_duration: i64,
    /// Deviation bound against the reference price, parts per 1e18.
    pub bound: u64,
    /// Last posted price, scaled by `10^price_decimals`.
    pub price: u128,
    /// Curve coefficient, scaled by 1e18.
    pub coeff: u64,
    /// Spread, scaled by 1e18; conceptually in `[0, 1e18)` while usable.
    pub spread: u64,
    /// Smallest admissible resolved price.
    pub range_min: u128,
    /// Largest admissible resolved price.
    pub range_max: u128,
}

/// One reading of an external price feed: the raw price value and its
/// decimal exponent. The collaborator that produces a reading has already
/// checked it against `maximum_age`; a reading that failed that check is
/// handed to the resolver as absent.
#[derive(Clone, Copy, Debug, PartialEq, Eq, Structural)]
pub struct ExternalPriceReading {
    /// Raw feed price; negative values are rejected by the resolver.
    pub price: i64,
    /// Decimal exponent of `price`; usually negative for fractional scales.
    pub exponent: i32,
}

} // verus!
