use vstd::prelude::*;

use crate::constants::{ONE_E18_U128, ONE_E18_U64};
use crate::errors::ErrorCode;
use crate::math::{checked_mul_div, mul_div_spec};

verus! {

/// The spread stored after a new price is posted over a previous one.
/// A zero price on either side, or an already saturated spread, leaves
/// the spread untouched. Otherwise the ratio of the smaller to the larger
/// price (scale 1e18) is inflated by the previous spread, and the gap it
/// leaves below one becomes the new spread when it widens the old one.
pub open spec fn update_spread_spec(prev_price: u128, prev_spread: u64, new_price: u128) -> Result<
    u64,
    ErrorCode,
> {
    if prev_price == 0 || new_price == 0 || prev_spread >= ONE_E18_U64 {
        Ok(prev_spread)
    } else {
        let min_p: u128 = if prev_price <= new_price {
            prev_price
        } else {
            new_price
        };
        let max_p: u128 = if prev_price <= new_price {
            new_price
        } else {
            prev_price
        };
        match mul_div_spec(min_p, ONE_E18_U128, max_p, false) {
            Err(e) => Err(e),
            Ok(calc_a) => match mul_div_spec(
                calc_a,
                ONE_E18_U128,
                (ONE_E18_U64 - prev_spread) as u128,
                false,
            ) {
                Err(e) => Err(e),
                Ok(anti_spread) => if anti_spread < ONE_E18_U128 {
                    let candidate = (ONE_E18_U128 - anti_spread) as u64;
                    if candidate > prev_spread {
                        Ok(candidate)
                    } else {
                        Ok(prev_spread)
                    }
                } else {
                    Ok(prev_spread)
                },
            },
        }
    }
}

/// New spread for a posted price, per `update_spread_spec`. The rule only
/// ever widens: any successful result is at least the previous spread, and
/// a saturated spread (at or above 1e18) is returned unchanged.
pub fn update_spread_for_new_price(prev_price: u128, prev_spread: u64, new_price: u128) -> (res:
    Result<u64, ErrorCode>)
    ensures
        res == update_spread_spec(prev_price, prev_spread, new_price),
        res matches Ok(s) ==> s >= prev_spread,
        prev_spread >= ONE_E18_U64 ==> res == Ok::<u64, ErrorCode>(prev_spread),
{
    if prev_price == 0 || new_price == 0 || prev_spread >= ONE_E18_U64 {
        return Ok(prev_spread);
    }
    let min_p: u128 = if prev_price <= new_price {
        prev_price
    } else {
        new_price
    };
    let max_p: u128 = if prev_price <= new_price {
        new_price
    } else {
        prev_price
    };
    let calc_a = match checked_mul_div(min_p, ONE_E18_U128, max_p) {
        Ok(v) => v,
        Err(e) => {
            return Err(e);
        },
    };
    let anti_spread = match checked_mul_div(calc_a, ONE_E18_U128, ONE_E18_U64 as u128
        - prev_spread as u128) {
        Ok(v) => v,
        Err(e) => {
            return Err(e);
        },
    };
    if anti_spread < ONE_E18_U128 {
        let candidate = (ONE_E18_U128 - anti_spread) as u64;
        if candidate > prev_spread {
            return Ok(candidate);
        }
    }
    Ok(prev_spread)
}

/// The spread left after posting a sequence of prices in order, starting
/// from a stored price and spread; the first failure aborts the fold.
pub open spec fn posted_spread(price0: u128, spread0: u64, prices: Seq<u128>) -> Result<
    u64,
    ErrorCode,
>
    decreases prices.len(),
{
    if prices.len() == 0 {
        Ok(spread0)
    } else {
        match update_spread_spec(price0, spread0, prices[0]) {
            Err(e) => Err(e),
            Ok(s1) => posted_spread(prices[0], s1, prices.drop_first()),
        }
    }
}

/// Law: one posting never narrows the spread.
pub proof fn lemma_spread_step_monotone(prev_price: u128, prev_spread: u64, new_price: u128)
    ensures
        update_spread_spec(prev_price, prev_spread, new_price) matches Ok(s) ==> s >= prev_spread,
{
}

/// Law: across any sequence of posted prices, the spread is monotonically
/// non-decreasing; whatever prices arrive, a successful fold never ends
/// below the spread it started from.
pub proof fn lemma_spread_monotone(price0: u128, spread0: u64, prices: Seq<u128>)
    ensures
        posted_spread(price0, spread0, prices) matches Ok(s) ==> s >= spread0,
    decreases prices.len(),
{
    if prices.len() > 0 {
        lemma_spread_step_monotone(price0, spread0, prices[0]);
        match update_spread_spec(price0, spread0, prices[0]) {
            Err(_) => {},
            Ok(s1) => {
                lemma_spread_monotone(prices[0], s1, prices.drop_first());
            },
        }
    }
}

/// Law: once the spread has saturated at 1e18 or above, every further
/// posting is a no-op and never fails.
pub proof fn lemma_spread_saturated(price0: u128, spread0: u64, prices: Seq<u128>)
    requires
        spread0 >= ONE_E18_U64,
    ensures
        posted_spread(price0, spread0, prices) == Ok::<u64, ErrorCode>(spread0),
    decreases prices.len(),
{
    if prices.len() > 0 {
        lemma_spread_saturated(prices[0], spread0, prices.drop_first());
    }
}

} // verus!
