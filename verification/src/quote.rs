use vstd::prelude::*;

use crate::constants::ONE_E5_U128;
use crate::decimals::Decimals;
use crate::errors::{ErrorCode, QuoteError};
use crate::get_price::GetStateResult;
use crate::math::{checked_mul_div_round_up, mul_div_spec};
use crate::swap_math::{calc_base_amount_sell_quote, calc_quote_amount_sell_base, sell_base_spec,
    sell_quote_spec};
use crate::woopool::{balance, balance_spec, WooPool};

verus! {

/// A finished quote: amounts in and out, the fee taken (in the quote
/// currency), and the fee rate it was computed from.
#[derive(Clone, Copy, Debug, PartialEq, Eq, Structural)]
pub struct Quote {
    pub in_amount: u64,
    pub out_amount: u64,
    pub fee_amount: u64,
    pub fee_rate: u16,
}

/// The cached per-leg snapshot a quote is computed from: decimals and
/// resolved oracle state (absent until resolved), the pool limits, and
/// the leg vault's current token amount.
#[derive(Clone, Copy, Debug)]
pub struct QuoteLeg {
    pub decimals: Option<Decimals>,
    pub state: Option<GetStateResult>,
    pub woopool: Option<WooPool>,
    pub vault_balance: u128,
}

/// The quote returned without touching the formulas: nothing out, no fee.
pub open spec fn zero_quote(input_amount: u64, fee_rate: u16) -> Quote {
    Quote { in_amount: input_amount, out_amount: 0, fee_amount: 0, fee_rate }
}

/// The effective fee rate of a two-leg trade: the other leg's rate when
/// one side is the quote currency itself, else the larger of the two.
pub open spec fn select_fee_rate_spec(
    token_a_is_quote: bool,
    token_b_is_quote: bool,
    fee_a: u16,
    fee_b: u16,
) -> u16 {
    if token_a_is_quote {
        fee_b
    } else if token_b_is_quote {
        fee_a
    } else if fee_a >= fee_b {
        fee_a
    } else {
        fee_b
    }
}

/// Effective fee rate per `select_fee_rate_spec`; taking the maximum over
/// both legs keeps the quoted fee at least what the program charges.
pub fn select_fee_rate(token_a_is_quote: bool, token_b_is_quote: bool, fee_a: u16, fee_b: u16) -> (r:
    u16)
    ensures
        r == select_fee_rate_spec(token_a_is_quote, token_b_is_quote, fee_a, fee_b),
{
    if token_a_is_quote {
        fee_b
    } else if token_b_is_quote {
        fee_a
    } else if fee_a >= fee_b {
        fee_a
    } else {
        fee_b
    }
}

/// Quote-currency amount produced by the input leg: the input itself when
/// it already is the quote currency, otherwise a base sale through the
/// input leg's cached decimals and state.
pub open spec fn input_leg_quote_spec(
    input_amount: u64,
    input_is_quote: bool,
    pool_in: WooPool,
    leg_in: QuoteLeg,
) -> Result<u128, QuoteError> {
    if input_is_quote {
        Ok(input_amount as u128)
    } else {
        match (leg_in.decimals, leg_in.state) {
            (None, _) => Err(QuoteError::MissingDecimals),
            (Some(_), None) => Err(QuoteError::MissingState),
            (Some(d), Some(st)) => match sell_base_spec(input_amount as u128, pool_in, d, st) {
                Err(e) => Err(QuoteError::Code(e)),
                Ok(r) => Ok(r.0),
            },
        }
    }
}

/// Output amount paid by the output leg: the after-fee quote amount when
/// the output is the quote currency, otherwise a quote sale through the
/// output leg, whose own vault must cover what leaves it.
pub open spec fn output_leg_amount_spec(
    after_fee: u128,
    output_is_quote: bool,
    leg_out: QuoteLeg,
) -> Result<u128, QuoteError> {
    if output_is_quote {
        Ok(after_fee)
    } else {
        match leg_out.woopool {
            None => Err(QuoteError::MissingPool),
            Some(pool_out) => match (leg_out.decimals, leg_out.state) {
                (None, _) => Err(QuoteError::MissingDecimals),
                (Some(_), None) => Err(QuoteError::MissingState),
                (Some(d), Some(st)) => match sell_quote_spec(after_fee, pool_out, d, st) {
                    Err(e) => Err(QuoteError::Code(e)),
                    Ok(r) => match balance_spec(pool_out, leg_out.vault_balance) {
                        None => Err(QuoteError::Code(ErrorCode::MathOverflow)),
                        Some(bal_out) => if bal_out < r.0 {
                            Err(QuoteError::Code(ErrorCode::NotEnoughOut))
                        } else {
                            Ok(r.0)
                        },
                    },
                },
            },
        }
    }
}

/// Exact outcome of a whole quote request, in order: non-exact-input
/// requests and inputs at or below the input pool's minimum swap amount
/// yield a zero quote; the input-leg balance must stay under its cap; the
/// input leg converts to the quote currency; the round-up fee is taken;
/// the shared quote vault must cover the after-fee amount; the output leg
/// converts out of the quote currency; amounts must fit 64 bits.
pub open spec fn quote_spec(
    input_amount: u64,
    exact_in: bool,
    input_is_quote: bool,
    output_is_quote: bool,
    fee_rate: u16,
    leg_in: QuoteLeg,
    leg_out: QuoteLeg,
    quote_vault_balance: u128,
) -> Result<Quote, QuoteError> {
    if !exact_in {
        Ok(zero_quote(input_amount, fee_rate))
    } else {
        match leg_in.woopool {
            None => Err(QuoteError::MissingPool),
            Some(pool_in) => if input_amount <= pool_in.min_swap_amount {
                Ok(zero_quote(input_amount, fee_rate))
            } else {
                match balance_spec(pool_in, leg_in.vault_balance) {
                    None => Err(QuoteError::Code(ErrorCode::MathOverflow)),
                    Some(bal_in) => if bal_in + input_amount > pool_in.cap_bal {
                        Err(QuoteError::Code(ErrorCode::BalanceCapExceeds))
                    } else {
                        match input_leg_quote_spec(input_amount, input_is_quote, pool_in, leg_in) {
                            Err(e) => Err(e),
                            Ok(usdc_amount) => match mul_div_spec(
                                usdc_amount,
                                fee_rate as u128,
                                ONE_E5_U128,
                                true,
                            ) {
                                Err(e) => Err(QuoteError::Code(e)),
                                Ok(fee) => if fee > usdc_amount {
                                    Err(QuoteError::Code(ErrorCode::MathOverflow))
                                } else {
                                    let after_fee = (usdc_amount - fee) as u128;
                                    if quote_vault_balance < after_fee {
                                        Err(QuoteError::Code(ErrorCode::NotEnoughOut))
                                    } else {
                                        match output_leg_amount_spec(
                                            after_fee,
                                            output_is_quote,
                                            leg_out,
                                        ) {
                                            Err(e) => Err(e),
                                            Ok(to_amount) => if to_amount > u64::MAX {
                                                Err(QuoteError::Code(ErrorCode::NumberCastError))
                                            } else if fee > u64::MAX {
                                                Err(QuoteError::Code(ErrorCode::NumberCastError))
                                            } else {
                                                Ok(
                                                    Quote {
                                                        in_amount: input_amount,
                                                        out_amount: to_amount as u64,
                                                        fee_amount: fee as u64,
                                                        fee_rate,
                                                    },
                                                )
                                            },
                                        }
                                    }
                                },
                            },
                        }
                    },
                }
            },
        }
    }
}

/// Law: a 16-bit fee rate is necessarily below the parts-per-100_000
/// unit, so the rounded-up fee never exceeds the amount it is taken
/// from, and the fee subtraction in `quote_spec` cannot underflow.
pub proof fn lemma_fee_within_amount(usdc_amount: u128, fee_rate: u16)
    ensures
        mul_div_spec(usdc_amount, fee_rate as u128, ONE_E5_U128, true) matches Ok(fee) ==> fee
            <= usdc_amount,
{
    if mul_div_spec(usdc_amount, fee_rate as u128, ONE_E5_U128, true) is Ok {
        let u = usdc_amount as int;
        let r = fee_rate as int;
        let p = u * r;
        vstd::arithmetic::mul::lemma_mul_nonnegative(u, r);
        vstd::arithmetic::mul::lemma_mul_is_commutative(u, r);
        if p % 100_000 == 0 {
            vstd::arithmetic::mul::lemma_mul_inequality(r, 100_000, u);
            vstd::arithmetic::div_mod::lemma_multiply_divide_le(p, 100_000, u);
        } else {
            assert(p != 0);
            assert(u != 0);
            vstd::arithmetic::mul::lemma_mul_strict_inequality(r, 100_000, u);
            vstd::arithmetic::div_mod::lemma_multiply_divide_lt(p, 100_000, u);
        }
    }
}

/// Computes a quote over the cached snapshots, per `quote_spec`. The
/// minimum-swap short-circuit is stated again on its own: any exact-input
/// request at or below the input pool's minimum swap amount returns the
/// zero quote, whatever state the other leg is in.
pub fn quote(
    input_amount: u64,
    exact_in: bool,
    input_is_quote: bool,
    output_is_quote: bool,
    fee_rate: u16,
    leg_in: &QuoteLeg,
    leg_out: &QuoteLeg,
    quote_vault_balance: u128,
) -> (res: Result<Quote, QuoteError>)
    ensures
        res == quote_spec(
            input_amount,
            exact_in,
            input_is_quote,
            output_is_quote,
            fee_rate,
            *leg_in,
            *leg_out,
            quote_vault_balance,
        ),
        (leg_in.woopool matches Some(p) && exact_in && input_amount <= p.min_swap_amount) ==> res
            == Ok::<Quote, QuoteError>(zero_quote(input_amount, fee_rate)),
{
    if !exact_in {
        return Ok(Quote { in_amount: input_amount, out_amount: 0, fee_amount: 0, fee_rate });
    }
    let pool_in = match leg_in.woopool {
        Some(p) => p,
        None => {
            return Err(QuoteError::MissingPool);
        },
    };
    if input_amount as u128 <= pool_in.min_swap_amount {
        return Ok(Quote { in_amount: input_amount, out_amount: 0, fee_amount: 0, fee_rate });
    }
    let bal_in = match balance(&pool_in, leg_in.vault_balance) {
        Some(b) => b,
        None => {
            return Err(QuoteError::Code(ErrorCode::MathOverflow));
        },
    };
    match bal_in.checked_add(input_amount as u128) {
        None => {
            return Err(QuoteError::Code(ErrorCode::BalanceCapExceeds));
        },
        Some(new_bal) => {
            if new_bal > pool_in.cap_bal {
                return Err(QuoteError::Code(ErrorCode::BalanceCapExceeds));
            }
        },
    }

    let usdc_amount: u128 = if input_is_quote {
        input_amount as u128
    } else {
        let dec_in = match leg_in.decimals {
            Some(d) => d,
            None => {
                return Err(QuoteError::MissingDecimals);
            },
        };
        let state_in = match leg_in.state {
            Some(s) => s,
            None => {
                return Err(QuoteError::MissingState);
            },
        };
        match calc_quote_amount_sell_base(input_amount as u128, &pool_in, &dec_in, &state_in) {
            Ok(r) => r.0,
            Err(e) => {
                return Err(QuoteError::Code(e));
            },
        }
    };

    let swap_fee = match checked_mul_div_round_up(usdc_amount, fee_rate as u128, ONE_E5_U128) {
        Ok(f) => f,
        Err(e) => {
            return Err(QuoteError::Code(e));
        },
    };
    let after_fee = match usdc_amount.checked_sub(swap_fee) {
        Some(v) => v,
        None => {
            return Err(QuoteError::Code(ErrorCode::MathOverflow));
        },
    };
    if quote_vault_balance < after_fee {
        return Err(QuoteError::Code(ErrorCode::NotEnoughOut));
    }

    let to_amount: u128 = if output_is_quote {
        after_fee
    } else {
        let pool_out = match leg_out.woopool {
            Some(p) => p,
            None => {
                return Err(QuoteError::MissingPool);
            },
        };
        let dec_out = match leg_out.decimals {
            Some(d) => d,
            None => {
                return Err(QuoteError::MissingDecimals);
            },
        };
        let state_out = match leg_out.state {
            Some(s) => s,
            None => {
                return Err(QuoteError::MissingState);
            },
        };
        let out = match calc_base_amount_sell_quote(after_fee, &pool_out, &dec_out, &state_out) {
            Ok(r) => r.0,
            Err(e) => {
                return Err(QuoteError::Code(e));
            },
        };
        let bal_out = match balance(&pool_out, leg_out.vault_balance) {
            Some(b) => b,
            None => {
                return Err(QuoteError::Code(ErrorCode::MathOverflow));
            },
        };
        if bal_out < out {
            return Err(QuoteError::Code(ErrorCode::NotEnoughOut));
        }
        out
    };

    if to_amount > u64::MAX as u128 {
        return Err(QuoteError::Code(ErrorCode::NumberCastError));
    }
    if swap_fee > u64::MAX as u128 {
        return Err(QuoteError::Code(ErrorCode::NumberCastError));
    }
    Ok(
        Quote {
            in_amount: input_amount,
            out_amount: to_amount as u64,
            fee_amount: swap_fee as u64,
            fee_rate,
        },
    )
}

} // verus!
