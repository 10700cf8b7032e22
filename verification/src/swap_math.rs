use vstd::prelude::*;

use crate::constants::ONE_E18_U128;
use crate::decimals::Decimals;
use crate::errors::ErrorCode;
use crate::get_price::GetStateResult;
use crate::math::{checked_mul_div, mul_div_spec};
use crate::woopool::WooPool;

verus! {

/// Notional of a base-token sale in quote-currency units:
/// `base_amount * price / price_dec * quote_dec / base_dec`.
pub open spec fn sell_base_notional(
    base_amount: u128,
    dec: Decimals,
    state: GetStateResult,
) -> Result<u128, ErrorCode> {
    match mul_div_spec(base_amount, state.price_out, dec.price_dec as u128, false) {
        Err(e) => Err(e),
        Ok(calc_a) => mul_div_spec(calc_a, dec.quote_dec as u128, dec.base_dec as u128, false),
    }
}

/// Curve-impact term of a base-token sale, scale 1e18:
/// `base_amount * price / price_dec * coeff / base_dec`.
pub open spec fn sell_base_gamma(base_amount: u128, dec: Decimals, state: GetStateResult) -> Result<
    u128,
    ErrorCode,
> {
    match mul_div_spec(base_amount, state.price_out, dec.price_dec as u128, false) {
        Err(e) => Err(e),
        Ok(calc_a) => mul_div_spec(calc_a, state.coeff as u128, dec.base_dec as u128, false),
    }
}

/// Curve-impact term of a quote-token sale, scale 1e18:
/// `quote_amount * coeff / quote_dec`.
pub open spec fn sell_quote_gamma(
    quote_amount: u128,
    dec: Decimals,
    state: GetStateResult,
) -> Result<u128, ErrorCode> {
    mul_div_spec(quote_amount, state.coeff as u128, dec.quote_dec as u128, false)
}

/// Exact outcome of selling base tokens for quote tokens: the quote
/// amount `a * (1e18 - gamma - spread) / 1e18 * quote_dec / base_dec`
/// with `a = base_amount * price / price_dec`, and the impact-adjusted
/// price `(1e18 - gamma) * price / 1e18`, guarded in order by the
/// feasibility, price, notional-cap, gamma-cap and underflow checks.
pub open spec fn sell_base_spec(
    base_amount: u128,
    pool: WooPool,
    dec: Decimals,
    state: GetStateResult,
) -> Result<(u128, u128), ErrorCode> {
    if !state.feasible_out {
        Err(ErrorCode::WooOracleNotFeasible)
    } else if state.price_out == 0 {
        Err(ErrorCode::WooOraclePriceNotValid)
    } else {
        match mul_div_spec(base_amount, state.price_out, dec.price_dec as u128, false) {
            Err(e) => Err(e),
            Ok(calc_a) => match mul_div_spec(
                calc_a,
                dec.quote_dec as u128,
                dec.base_dec as u128,
                false,
            ) {
                Err(e) => Err(e),
                Ok(notional_swap) => if notional_swap > pool.max_notional_swap {
                    Err(ErrorCode::WooPoolExceedMaxNotionalValue)
                } else {
                    match mul_div_spec(calc_a, state.coeff as u128, dec.base_dec as u128, false) {
                        Err(e) => Err(e),
                        Ok(gamma) => if gamma > pool.max_gamma {
                            Err(ErrorCode::WooPoolExceedMaxGamma)
                        } else if ONE_E18_U128 < gamma {
                            Err(ErrorCode::MathOverflow)
                        } else if ONE_E18_U128 - gamma < state.spread {
                            Err(ErrorCode::MathOverflow)
                        } else {
                            let calc_b = (ONE_E18_U128 - gamma - state.spread) as u128;
                            match mul_div_spec(calc_a, calc_b, ONE_E18_U128, false) {
                                Err(e) => Err(e),
                                Ok(calc_c) => match mul_div_spec(
                                    calc_c,
                                    dec.quote_dec as u128,
                                    dec.base_dec as u128,
                                    false,
                                ) {
                                    Err(e) => Err(e),
                                    Ok(quote_amount) => match mul_div_spec(
                                        (ONE_E18_U128 - gamma) as u128,
                                        state.price_out,
                                        ONE_E18_U128,
                                        false,
                                    ) {
                                        Err(e) => Err(e),
                                        Ok(new_price) => Ok((quote_amount, new_price)),
                                    },
                                },
                            }
                        },
                    }
                },
            },
        }
    }
}

/// Exact outcome of selling quote tokens for base tokens: the base amount
/// `quote_amount * base_dec * price_dec / price * (1e18 - gamma - spread)
/// / 1e18 / quote_dec` and the impact-adjusted price
/// `1e18 * price / (1e18 - gamma)`, guarded in order by the feasibility,
/// price, notional-cap, gamma-cap, overflow and underflow checks.
pub open spec fn sell_quote_spec(
    quote_amount: u128,
    pool: WooPool,
    dec: Decimals,
    state: GetStateResult,
) -> Result<(u128, u128), ErrorCode> {
    if !state.feasible_out {
        Err(ErrorCode::WooOracleNotFeasible)
    } else if state.price_out == 0 {
        Err(ErrorCode::WooOraclePriceNotValid)
    } else if quote_amount > pool.max_notional_swap {
        Err(ErrorCode::WooPoolExceedMaxNotionalValue)
    } else {
        match mul_div_spec(quote_amount, state.coeff as u128, dec.quote_dec as u128, false) {
            Err(e) => Err(e),
            Ok(gamma) => if gamma > pool.max_gamma {
                Err(ErrorCode::WooPoolExceedMaxGamma)
            } else if quote_amount * (dec.base_dec as u128) > u128::MAX {
                Err(ErrorCode::MathOverflow)
            } else {
                let calc_a = (quote_amount * (dec.base_dec as u128)) as u128;
                match mul_div_spec(calc_a, dec.price_dec as u128, state.price_out, false) {
                    Err(e) => Err(e),
                    Ok(calc_b) => if ONE_E18_U128 < gamma {
                        Err(ErrorCode::MathOverflow)
                    } else if ONE_E18_U128 - gamma < state.spread {
                        Err(ErrorCode::MathOverflow)
                    } else {
                        let calc_c = (ONE_E18_U128 - gamma - state.spread) as u128;
                        match mul_div_spec(calc_b, calc_c, ONE_E18_U128, false) {
                            Err(e) => Err(e),
                            Ok(calc_d) => if dec.quote_dec == 0 {
                                Err(ErrorCode::MathOverflow)
                            } else {
                                match mul_div_spec(
                                    ONE_E18_U128,
                                    state.price_out,
                                    (ONE_E18_U128 - gamma) as u128,
                                    false,
                                ) {
                                    Err(e) => Err(e),
                                    Ok(new_price) => Ok(
                                        ((calc_d as int / dec.quote_dec as int) as u128, new_price),
                                    ),
                                }
                            },
                        }
                    },
                }
            },
        }
    }
}

/// Sell `base_amount` base tokens for quote tokens, per `sell_base_spec`:
/// returns the quote amount and the price after impact.
pub fn calc_quote_amount_sell_base(
    base_amount: u128,
    woopool: &WooPool,
    decimals: &Decimals,
    state: &GetStateResult,
) -> (res: Result<(u128, u128), ErrorCode>)
    ensures
        res == sell_base_spec(base_amount, *woopool, *decimals, *state),
{
    if !state.feasible_out {
        return Err(ErrorCode::WooOracleNotFeasible);
    }
    if state.price_out == 0 {
        return Err(ErrorCode::WooOraclePriceNotValid);
    }
    let calc_a = match checked_mul_div(base_amount, state.price_out, decimals.price_dec as u128) {
        Ok(v) => v,
        Err(e) => {
            return Err(e);
        },
    };
    let notional_swap = match checked_mul_div(
        calc_a,
        decimals.quote_dec as u128,
        decimals.base_dec as u128,
    ) {
        Ok(v) => v,
        Err(e) => {
            return Err(e);
        },
    };
    if notional_swap > woopool.max_notional_swap {
        return Err(ErrorCode::WooPoolExceedMaxNotionalValue);
    }
    let gamma = match checked_mul_div(calc_a, state.coeff as u128, decimals.base_dec as u128) {
        Ok(v) => v,
        Err(e) => {
            return Err(e);
        },
    };
    if gamma > woopool.max_gamma {
        return Err(ErrorCode::WooPoolExceedMaxGamma);
    }
    let one_minus_gamma = match ONE_E18_U128.checked_sub(gamma) {
        Some(v) => v,
        None => {
            return Err(ErrorCode::MathOverflow);
        },
    };
    let calc_b = match one_minus_gamma.checked_sub(state.spread as u128) {
        Some(v) => v,
        None => {
            return Err(ErrorCode::MathOverflow);
        },
    };
    let calc_c = match checked_mul_div(calc_a, calc_b, ONE_E18_U128) {
        Ok(v) => v,
        Err(e) => {
            return Err(e);
        },
    };
    let quote_amount = match checked_mul_div(
        calc_c,
        decimals.quote_dec as u128,
        decimals.base_dec as u128,
    ) {
        Ok(v) => v,
        Err(e) => {
            return Err(e);
        },
    };
    let new_price = match checked_mul_div(one_minus_gamma, state.price_out, ONE_E18_U128) {
        Ok(v) => v,
        Err(e) => {
            return Err(e);
        },
    };
    Ok((quote_amount, new_price))
}

/// Sell `quote_amount` quote tokens for base tokens, per
/// `sell_quote_spec`: returns the base amount and the price after impact.
pub fn calc_base_amount_sell_quote(
    quote_amount: u128,
    woopool: &WooPool,
    decimals: &Decimals,
    state: &GetStateResult,
) -> (res: Result<(u128, u128), ErrorCode>)
    ensures
        res == sell_quote_spec(quote_amount, *woopool, *decimals, *state),
{
    if !state.feasible_out {
        return Err(ErrorCode::WooOracleNotFeasible);
    }
    if state.price_out == 0 {
        return Err(ErrorCode::WooOraclePriceNotValid);
    }
    if quote_amount > woopool.max_notional_swap {
        return Err(ErrorCode::WooPoolExceedMaxNotionalValue);
    }
    let gamma = match checked_mul_div(quote_amount, state.coeff as u128, decimals.quote_dec
        as u128) {
        Ok(v) => v,
        Err(e) => {
            return Err(e);
        },
    };
    if gamma > woopool.max_gamma {
        return Err(ErrorCode::WooPoolExceedMaxGamma);
    }
    let calc_a = match quote_amount.checked_mul(decimals.base_dec as u128) {
        Some(v) => v,
        None => {
            return Err(ErrorCode::MathOverflow);
        },
    };
    let calc_b = match checked_mul_div(calc_a, decimals.price_dec as u128, state.price_out) {
        Ok(v) => v,
        Err(e) => {
            return Err(e);
        },
    };
    let one_minus_gamma = match ONE_E18_U128.checked_sub(gamma) {
        Some(v) => v,
        None => {
            return Err(ErrorCode::MathOverflow);
        },
    };
    let calc_c = match one_minus_gamma.checked_sub(state.spread as u128) {
        Some(v) => v,
        None => {
            return Err(ErrorCode::MathOverflow);
        },
    };
    let calc_d = match checked_mul_div(calc_b, calc_c, ONE_E18_U128) {
        Ok(v) => v,
        Err(e) => {
            return Err(e);
        },
    };
    let base_amount = match calc_d.checked_div(decimals.quote_dec as u128) {
        Some(v) => v,
        None => {
            return Err(ErrorCode::MathOverflow);
        },
    };
    let new_price = match checked_mul_div(ONE_E18_U128, state.price_out, one_minus_gamma) {
        Ok(v) => v,
        Err(e) => {
            return Err(e);
        },
    };
    Ok((base_amount, new_price))
}

/// Law: a pool whose gamma cap is zero rejects every base-token sale with
/// a nonzero curve-impact term (a zero term arises only from a zero
/// coefficient or rounding to zero, where the cap is not binding).
pub proof fn lemma_gamma_cap_sell_base(
    base_amount: u128,
    pool: WooPool,
    dec: Decimals,
    state: GetStateResult,
)
    requires
        pool.max_gamma == 0,
        state.feasible_out,
        state.price_out > 0,
        sell_base_notional(base_amount, dec, state) matches Ok(n) && n <= pool.max_notional_swap,
        sell_base_gamma(base_amount, dec, state) matches Ok(g) && g > 0,
    ensures
        sell_base_spec(base_amount, pool, dec, state) == Err::<(u128, u128), ErrorCode>(
            ErrorCode::WooPoolExceedMaxGamma,
        ),
{
}

/// Law: a pool whose gamma cap is zero rejects every quote-token sale
/// with a nonzero curve-impact term.
pub proof fn lemma_gamma_cap_sell_quote(
    quote_amount: u128,
    pool: WooPool,
    dec: Decimals,
    state: GetStateResult,
)
    requires
        pool.max_gamma == 0,
        state.feasible_out,
        state.price_out > 0,
        quote_amount <= pool.max_notional_swap,
        sell_quote_gamma(quote_amount, dec, state) matches Ok(g) && g > 0,
    ensures
        sell_quote_spec(quote_amount, pool, dec, state) == Err::<(u128, u128), ErrorCode>(
            ErrorCode::WooPoolExceedMaxGamma,
        ),
{
}

} // verus!
