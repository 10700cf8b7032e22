use woofi_jupiter::decimals::Decimals;
use woofi_jupiter::errors::{ErrorCode, QuoteError};
use woofi_jupiter::get_price::GetStateResult;
use woofi_jupiter::quote::{quote, select_fee_rate, Quote, QuoteLeg};
use woofi_jupiter::woopool::WooPool;

const ONE_E18: u64 = 1_000_000_000_000_000_000;

fn sol_usdc_decimals() -> Decimals {
    Decimals::new(8, 6, 9).unwrap()
}

fn state(price_out: u128, spread: u64, coeff: u64) -> GetStateResult {
    GetStateResult { price_out, spread, coeff, feasible_out: true }
}

fn pool(token_mint: u64) -> WooPool {
    WooPool {
        fee_rate: 25,
        max_gamma: ONE_E18 as u128,
        max_notional_swap: 1_000_000_000_000,
        cap_bal: u128::MAX,
        min_swap_amount: 0,
        unclaimed_fee: 0,
        token_mint,
        quote_token_mint: 0,
        base_decimals: 9,
    }
}

fn sol_leg() -> QuoteLeg {
    QuoteLeg {
        decimals: Some(sol_usdc_decimals()),
        state: Some(state(15_000_000_000, 0, 0)),
        woopool: Some(pool(1)),
        vault_balance: 1_000_000_000_000,
    }
}

fn empty_leg() -> QuoteLeg {
    QuoteLeg { decimals: None, state: None, woopool: None, vault_balance: 0 }
}

#[test]
fn quote_sol_for_usdc_end_to_end() {
    // 0.01 SOL at $150, 2.5 bp fee: $1.50 gross, 375 micro-USDC fee
    let r = quote(10_000_000, true, false, true, 25, &sol_leg(), &empty_leg(), 1_000_000_000_000);
    assert_eq!(
        r,
        Ok(Quote { in_amount: 10_000_000, out_amount: 1_499_625, fee_amount: 375, fee_rate: 25 })
    );
}

#[test]
fn quote_usdc_for_sol_end_to_end() {
    // $200 into SOL at $150: fee 50_000 micro-USDC, rest converted at $150
    let usdc_leg = QuoteLeg {
        decimals: None,
        state: None,
        woopool: Some(pool(0)),
        vault_balance: 1_000_000_000_000,
    };
    let r = quote(200_000_000, true, true, false, 25, &usdc_leg, &sol_leg(), 1_000_000_000_000);
    // fee = ceil(200_000_000 * 25 / 100_000) = 50_000; after = 199_950_000
    // base = 199_950_000 * 1e9 * 1e8 / 1.5e10 / 1e18-scale math = 1_333_000_000
    assert_eq!(
        r,
        Ok(Quote {
            in_amount: 200_000_000,
            out_amount: 1_333_000_000,
            fee_amount: 50_000,
            fee_rate: 25
        })
    );
}

#[test]
fn quote_cross_leg_uses_both_pools() {
    // SOL -> quote -> second token at $50: $1.499625 becomes 29_992_500
    // units of the output token (9 decimals)
    let out_leg = QuoteLeg {
        decimals: Some(sol_usdc_decimals()),
        state: Some(state(5_000_000_000, 0, 0)),
        woopool: Some(pool(2)),
        vault_balance: 1_000_000_000_000,
    };
    let r = quote(10_000_000, true, false, false, 25, &sol_leg(), &out_leg, 1_000_000_000_000);
    assert_eq!(
        r,
        Ok(Quote {
            in_amount: 10_000_000,
            out_amount: 29_992_500,
            fee_amount: 375,
            fee_rate: 25
        })
    );
}

#[test]
fn quote_non_exact_input_mode_is_zero() {
    let r = quote(10_000_000, false, false, true, 25, &sol_leg(), &empty_leg(), 0);
    assert_eq!(
        r,
        Ok(Quote { in_amount: 10_000_000, out_amount: 0, fee_amount: 0, fee_rate: 25 })
    );
}

#[test]
fn quote_min_swap_short_circuit() {
    // at or below min_swap_amount: zero quote, even with the other leg
    // entirely unresolved
    let mut leg = sol_leg();
    let mut p = pool(1);
    p.min_swap_amount = 10_000_000;
    leg.woopool = Some(p);
    leg.decimals = None; // even the input leg's state is not consulted
    leg.state = None;
    let r = quote(10_000_000, true, false, false, 25, &leg, &empty_leg(), 0);
    assert_eq!(
        r,
        Ok(Quote { in_amount: 10_000_000, out_amount: 0, fee_amount: 0, fee_rate: 25 })
    );
    // one above the minimum computes again (and now fails on missing state)
    let r2 = quote(10_000_001, true, false, false, 25, &leg, &empty_leg(), 0);
    assert_eq!(r2, Err(QuoteError::MissingDecimals));
}

#[test]
fn quote_balance_cap_exceeded() {
    let mut leg = sol_leg();
    let mut p = pool(1);
    p.cap_bal = 1_000_000_000_000; // vault already at the cap
    leg.woopool = Some(p);
    let r = quote(10_000_000, true, false, true, 25, &leg, &empty_leg(), 1_000_000_000_000);
    assert_eq!(r, Err(QuoteError::Code(ErrorCode::BalanceCapExceeds)));
}

#[test]
fn quote_vault_cannot_cover() {
    // quote vault short of the after-fee amount
    let r = quote(10_000_000, true, false, true, 25, &sol_leg(), &empty_leg(), 1_499_624);
    assert_eq!(r, Err(QuoteError::Code(ErrorCode::NotEnoughOut)));
    let r2 = quote(10_000_000, true, false, true, 25, &sol_leg(), &empty_leg(), 1_499_625);
    assert!(r2.is_ok());
}

#[test]
fn quote_output_vault_cannot_cover() {
    let mut out_leg = QuoteLeg {
        decimals: Some(sol_usdc_decimals()),
        state: Some(state(5_000_000_000, 0, 0)),
        woopool: Some(pool(2)),
        vault_balance: 29_992_499,
    };
    let r = quote(10_000_000, true, false, false, 25, &sol_leg(), &out_leg, 1_000_000_000_000);
    assert_eq!(r, Err(QuoteError::Code(ErrorCode::NotEnoughOut)));
    out_leg.vault_balance = 29_992_500;
    let r2 = quote(10_000_000, true, false, false, 25, &sol_leg(), &out_leg, 1_000_000_000_000);
    assert!(r2.is_ok());
}

#[test]
fn quote_missing_input_pool() {
    let r = quote(10_000_000, true, false, true, 25, &empty_leg(), &empty_leg(), 0);
    assert_eq!(r, Err(QuoteError::MissingPool));
}

#[test]
fn quote_missing_input_state() {
    let mut leg = sol_leg();
    leg.state = None;
    let r = quote(10_000_000, true, false, true, 25, &leg, &empty_leg(), 1_000_000_000_000);
    assert_eq!(r, Err(QuoteError::MissingState));
}

#[test]
fn quote_missing_output_pool() {
    let r = quote(10_000_000, true, false, false, 25, &sol_leg(), &empty_leg(), 1_000_000_000_000);
    assert_eq!(r, Err(QuoteError::MissingPool));
}

#[test]
fn quote_propagates_formula_error() {
    let mut leg = sol_leg();
    leg.state = Some(GetStateResult {
        price_out: 0,
        spread: 0,
        coeff: 0,
        feasible_out: false,
    });
    let r = quote(10_000_000, true, false, true, 25, &leg, &empty_leg(), 1_000_000_000_000);
    assert_eq!(r, Err(QuoteError::Code(ErrorCode::WooOracleNotFeasible)));
}

#[test]
fn quote_fee_rounds_up() {
    // 1_499 micro-USDC gross at 25/100_000: fee = ceil(0.37475) = 1
    let mut leg = sol_leg();
    leg.state = Some(state(15_000_000_000, 0, 0));
    // input chosen so the gross quote amount is 1_499
    let r = quote(9_999, true, false, true, 25, &leg, &empty_leg(), 1_000_000_000_000).unwrap();
    assert_eq!(r.out_amount + r.fee_amount, 1_499);
    assert_eq!(r.fee_amount, 1);
}

#[test]
fn quote_output_beyond_u64_is_cast_error() {
    // an extreme price scale makes the quote amount outgrow 64 bits
    let leg = QuoteLeg {
        decimals: Some(Decimals::new(0, 6, 0).unwrap()),
        state: Some(state(1_000_000_000_000_000_000, 0, 0)),
        woopool: Some(WooPool { max_notional_swap: u128::MAX, ..pool(1) }),
        vault_balance: 1,
    };
    let r = quote(100, true, false, true, 0, &leg, &empty_leg(), u128::MAX);
    assert_eq!(r, Err(QuoteError::Code(ErrorCode::NumberCastError)));
}

#[test]
fn select_fee_rate_rules() {
    // leg A is the quote currency: the other pool's rate applies
    assert_eq!(select_fee_rate(true, false, 10, 20), 20);
    // leg B is the quote currency: this pool's rate applies
    assert_eq!(select_fee_rate(false, true, 10, 20), 10);
    // neither is: the conservative maximum
    assert_eq!(select_fee_rate(false, false, 10, 20), 20);
    assert_eq!(select_fee_rate(false, false, 30, 20), 30);
}
