//! Off-chain price-quoting engine for a constant-curve-with-spread AMM.
//!
//! Reconstructs, from plain account-state snapshots, the exact quote the
//! on-chain swap program would compute for a trade: oracle price resolution
//! with feasibility and deviation bounds, the spread-widening rule, the
//! fixed-point swap-amount formulas, and the fee-deducting quoting facade.
//! All account fetching, feed reading and instruction plumbing live outside
//! this crate; everything here is pure, checked integer arithmetic.

pub mod constants;
pub mod decimals;
pub mod errors;
pub mod get_price;
pub mod math;
pub mod quote;
pub mod spread;
pub mod swap_math;
pub mod woopool;
pub mod wooracle;
