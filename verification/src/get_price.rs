use vstd::prelude::*;

use vstd::arithmetic::power::pow;

use crate::constants::{ONE_E18_U128, ONE_E18_U64};
use crate::errors::{ErrorCode, QuoteError};
use crate::math::{checked_mul_div, checked_pow10_u128, mul_div_spec};
use crate::wooracle::{ExternalPriceReading, Wooracle};

verus! {

/// Outcome of oracle price resolution: the canonical price (zero when
/// infeasible) and whether it may be used.
#[derive(Clone, Copy, Debug, PartialEq, Eq, Structural)]
pub struct GetPriceResult {
    pub price_out: u128,
    pub feasible_out: bool,
}

/// Price resolution together with the oracle's current spread and curve
/// coefficient; the per-leg input of the swap formulas.
#[derive(Clone, Copy, Debug, PartialEq, Eq, Structural)]
pub struct GetStateResult {
    pub price_out: u128,
    pub spread: u64,
    pub coeff: u64,
    pub feasible_out: bool,
}

/// Magnitude of a feed's decimal exponent.
pub open spec fn abs_exponent(e: i32) -> nat {
    if e >= 0 {
        e as nat
    } else {
        (-(e as int)) as nat
    }
}

/// The reference price in the oracle's scale, derived from the two feed
/// readings: `base_price * 10^|quote_exponent| / quote_price`. Negative
/// raw prices are cast failures; power or product overflow and a zero
/// quote price are arithmetic failures.
pub open spec fn reference_price_spec(base: ExternalPriceReading, quote: ExternalPriceReading) -> Result<
    u128,
    ErrorCode,
> {
    if base.price < 0 || quote.price < 0 {
        Err(ErrorCode::NumberCastError)
    } else if pow(10, abs_exponent(quote.exponent)) > u128::MAX {
        Err(ErrorCode::MathOverflow)
    } else if base.price * pow(10, abs_exponent(quote.exponent)) > u128::MAX {
        Err(ErrorCode::MathOverflow)
    } else if quote.price == 0 {
        Err(ErrorCode::MathOverflow)
    } else {
        Ok((base.price * pow(10, abs_exponent(quote.exponent)) / (quote.price as int)) as u128)
    }
}

/// Whether the stored price lies within `±bound` (parts per 1e18) of the
/// reference price, evaluated exactly as the on-chain program does: the
/// lower bound first, and the upper bound only when the lower one holds.
pub open spec fn price_in_bound_spec(o: Wooracle, clo_price: u128) -> Result<bool, ErrorCode> {
    if o.bound > ONE_E18_U64 {
        Err(ErrorCode::MathOverflow)
    } else {
        match mul_div_spec(clo_price, (ONE_E18_U128 - o.bound) as u128, ONE_E18_U128, false) {
            Err(e) => Err(e),
            Ok(lo) => if o.price < lo {
                Ok(false)
            } else {
                match mul_div_spec(
                    clo_price,
                    (ONE_E18_U128 + o.bound) as u128,
                    ONE_E18_U128,
                    false,
                ) {
                    Err(e) => Err(e),
                    Ok(hi) => Ok(o.price <= hi),
                }
            },
        }
    }
}

/// Resolution of the stored price against a nonzero reference price: the
/// stored price is used exactly when it is fresh and in bound, and must
/// then lie in the configured absolute range; otherwise the result is
/// infeasible with price zero.
pub open spec fn resolve_price_spec(now: i64, o: Wooracle, clo_price: u128) -> Result<
    GetPriceResult,
    ErrorCode,
> {
    if clo_price == 0 {
        Ok(GetPriceResult { price_out: 0, feasible_out: false })
    } else if o.updated_at + o.stale_duration > i64::MAX || o.updated_at + o.stale_duration
        < i64::MIN {
        Err(ErrorCode::MathOverflow)
    } else {
        let wo_feasible = now <= o.updated_at + o.stale_duration;
        match price_in_bound_spec(o, clo_price) {
            Err(e) => Err(e),
            Ok(in_bound) => if wo_feasible && in_bound {
                if o.price < o.range_min {
                    Err(ErrorCode::WooOraclePriceRangeMin)
                } else if o.price > o.range_max {
                    Err(ErrorCode::WooOraclePriceRangeMax)
                } else {
                    Ok(GetPriceResult { price_out: o.price, feasible_out: true })
                }
            } else {
                Ok(GetPriceResult { price_out: 0, feasible_out: false })
            },
        }
    }
}

/// Full price resolution from the raw inputs: an absent reading (one that
/// failed its staleness check) is a failed price update, everything else
/// goes through `reference_price_spec` and `resolve_price_spec`.
pub open spec fn get_price_spec(
    now: i64,
    o: Wooracle,
    price_update: Option<ExternalPriceReading>,
    quote_price_update: Option<ExternalPriceReading>,
) -> Result<GetPriceResult, QuoteError> {
    match (price_update, quote_price_update) {
        (Some(base), Some(quote)) => match reference_price_spec(base, quote) {
            Err(e) => Err(QuoteError::Code(e)),
            Ok(clo_price) => match resolve_price_spec(now, o, clo_price) {
                Err(e) => Err(QuoteError::Code(e)),
                Ok(r) => Ok(r),
            },
        },
        _ => Err(QuoteError::PriceUpdateFailed),
    }
}

/// `get_price_spec` with the oracle's spread and coefficient attached.
pub open spec fn get_state_spec(
    now: i64,
    o: Wooracle,
    price_update: Option<ExternalPriceReading>,
    quote_price_update: Option<ExternalPriceReading>,
) -> Result<GetStateResult, QuoteError> {
    match get_price_spec(now, o, price_update, quote_price_update) {
        Err(e) => Err(e),
        Ok(pr) => Ok(
            GetStateResult {
                price_out: pr.price_out,
                spread: o.spread,
                coeff: o.coeff,
                feasible_out: pr.feasible_out,
            },
        ),
    }
}

/// Resolves the canonical price for one token, per `get_price_spec`:
/// `now` is the instant used for every staleness judgement, and each
/// reading is `None` when the feed could not supply one within
/// `oracle.maximum_age` of that instant.
pub fn get_price_impl(
    now: i64,
    oracle: &Wooracle,
    price_update: Option<ExternalPriceReading>,
    quote_price_update: Option<ExternalPriceReading>,
) -> (res: Result<GetPriceResult, QuoteError>)
    ensures
        res == get_price_spec(now, *oracle, price_update, quote_price_update),
{
    let base = match price_update {
        Some(b) => b,
        None => {
            return Err(QuoteError::PriceUpdateFailed);
        },
    };
    let quote = match quote_price_update {
        Some(q) => q,
        None => {
            return Err(QuoteError::PriceUpdateFailed);
        },
    };
    if base.price < 0 || quote.price < 0 {
        return Err(QuoteError::Code(ErrorCode::NumberCastError));
    }
    let base_price = base.price as u128;
    let quote_price = quote.price as u128;
    let quote_decimal: u32 = if quote.exponent >= 0 {
        quote.exponent as u32
    } else {
        (-(quote.exponent as i64)) as u32
    };
    assert(quote_decimal == abs_exponent(quote.exponent));
    let scale = match checked_pow10_u128(quote_decimal) {
        Some(s) => s,
        None => {
            return Err(QuoteError::Code(ErrorCode::MathOverflow));
        },
    };
    let scaled = match base_price.checked_mul(scale) {
        Some(p) => p,
        None => {
            return Err(QuoteError::Code(ErrorCode::MathOverflow));
        },
    };
    let clo_price = match scaled.checked_div(quote_price) {
        Some(p) => p,
        None => {
            return Err(QuoteError::Code(ErrorCode::MathOverflow));
        },
    };

    if clo_price == 0 {
        return Ok(GetPriceResult { price_out: 0, feasible_out: false });
    }
    let deadline = match oracle.updated_at.checked_add(oracle.stale_duration) {
        Some(d) => d,
        None => {
            return Err(QuoteError::Code(ErrorCode::MathOverflow));
        },
    };
    let wo_feasible = now <= deadline;
    if oracle.bound > ONE_E18_U64 {
        return Err(QuoteError::Code(ErrorCode::MathOverflow));
    }
    let lo = match checked_mul_div(clo_price, ONE_E18_U128 - oracle.bound as u128, ONE_E18_U128) {
        Ok(v) => v,
        Err(e) => {
            return Err(QuoteError::Code(e));
        },
    };
    let in_bound: bool = if oracle.price < lo {
        false
    } else {
        let hi = match checked_mul_div(
            clo_price,
            ONE_E18_U128 + oracle.bound as u128,
            ONE_E18_U128,
        ) {
            Ok(v) => v,
            Err(e) => {
                return Err(QuoteError::Code(e));
            },
        };
        oracle.price <= hi
    };

    if wo_feasible && in_bound {
        if oracle.price < oracle.range_min {
            return Err(QuoteError::Code(ErrorCode::WooOraclePriceRangeMin));
        }
        if oracle.price > oracle.range_max {
            return Err(QuoteError::Code(ErrorCode::WooOraclePriceRangeMax));
        }
        Ok(GetPriceResult { price_out: oracle.price, feasible_out: true })
    } else {
        Ok(GetPriceResult { price_out: 0, feasible_out: false })
    }
}

/// Resolves the per-leg state for the swap formulas, per `get_state_spec`.
pub fn get_state_impl(
    now: i64,
    oracle: &Wooracle,
    price_update: Option<ExternalPriceReading>,
    quote_price_update: Option<ExternalPriceReading>,
) -> (res: Result<GetStateResult, QuoteError>)
    ensures
        res == get_state_spec(now, *oracle, price_update, quote_price_update),
{
    let price_result = match get_price_impl(now, oracle, price_update, quote_price_update) {
        Ok(r) => r,
        Err(e) => {
            return Err(e);
        },
    };
    Ok(
        GetStateResult {
            price_out: price_result.price_out,
            spread: oracle.spread,
            coeff: oracle.coeff,
            feasible_out: price_result.feasible_out,
        },
    )
}

} // verus!
