use vstd::prelude::*;

use crate::errors::ErrorCode;

verus! {

/// `floor(n0*n1/d)`, or one more when rounding up and the division is
/// inexact. Meaningful only for `d != 0`.
pub open spec fn mul_div_val(n0: int, n1: int, d: int, round_up: bool) -> int {
    if round_up && (n0 * n1) % d != 0 {
        (n0 * n1) / d + 1
    } else {
        (n0 * n1) / d
    }
}

/// Exact outcome of the checked multiply-divide primitive: divide-by-zero
/// and 128-bit product overflow are reported, everything else yields
/// `mul_div_val`.
pub open spec fn mul_div_spec(n0: u128, n1: u128, d: u128, round_up: bool) -> Result<
    u128,
    ErrorCode,
> {
    if d == 0 {
        Err(ErrorCode::DivideByZero)
    } else if n0 * n1 > u128::MAX {
        Err(ErrorCode::MulDivOverflow)
    } else {
        Ok(mul_div_val(n0 as int, n1 as int, d as int, round_up) as u128)
    }
}

/// For a representable product, both rounding modes stay within `u128`.
pub proof fn lemma_mul_div_val_fits(n0: u128, n1: u128, d: u128, round_up: bool)
    requires
        d > 0,
        n0 * n1 <= u128::MAX,
    ensures
        0 <= mul_div_val(n0 as int, n1 as int, d as int, round_up) <= u128::MAX,
{
    let p = (n0 as int) * (n1 as int);
    vstd::arithmetic::mul::lemma_mul_nonnegative(n0 as int, n1 as int);
    vstd::arithmetic::div_mod::lemma_div_pos_is_pos(p, d as int);
    vstd::arithmetic::div_mod::lemma_div_nonincreasing(p, d as int);
    if round_up && p % (d as int) != 0 {
        vstd::arithmetic::div_mod::lemma_mod_division_less_than_divisor(p, d as int);
        // an inexact division means d >= 2, so the quotient leaves room for +1
        assert(d >= 2);
        vstd::arithmetic::div_mod::lemma_fundamental_div_mod(p, d as int);
        vstd::arithmetic::mul::lemma_mul_inequality(2, d as int, p / (d as int));
        assert(2 * (p / (d as int)) <= (d as int) * (p / (d as int))) by {
            vstd::arithmetic::mul::lemma_mul_is_commutative(d as int, p / (d as int));
        }
    }
}

/// Checked `n0 * n1 / d`: `DivideByZero` when `d == 0`, `MulDivOverflow`
/// when the product does not fit in 128 bits, otherwise the floor quotient,
/// bumped by one when `round_up` and the division is inexact.
pub fn checked_mul_div_round_up_if(n0: u128, n1: u128, d: u128, round_up: bool) -> (res: Result<
    u128,
    ErrorCode,
>)
    ensures
        res == mul_div_spec(n0, n1, d, round_up),
{
    if d == 0 {
        return Err(ErrorCode::DivideByZero);
    }
    let p = match n0.checked_mul(n1) {
        Some(p) => p,
        None => {
            return Err(ErrorCode::MulDivOverflow);
        },
    };
    let n = p / d;
    if round_up && p % d > 0 {
        proof {
            lemma_mul_div_val_fits(n0, n1, d, round_up);
        }
        Ok(n + 1)
    } else {
        Ok(n)
    }
}

/// `floor(n0 * n1 / d)` with the same failure cases as the rounding form.
pub fn checked_mul_div(n0: u128, n1: u128, d: u128) -> (res: Result<u128, ErrorCode>)
    ensures
        res == mul_div_spec(n0, n1, d, false),
{
    checked_mul_div_round_up_if(n0, n1, d, false)
}

/// `ceil(n0 * n1 / d)` with the same failure cases as the rounding form.
pub fn checked_mul_div_round_up(n0: u128, n1: u128, d: u128) -> (res: Result<u128, ErrorCode>)
    ensures
        res == mul_div_spec(n0, n1, d, true),
{
    checked_mul_div_round_up_if(n0, n1, d, true)
}

/// For any representable product and nonzero divisor, rounding up never
/// yields less than rounding down, and the two agree exactly when `d`
/// divides `n0 * n1`.
pub proof fn lemma_round_up_dominates(n0: u128, n1: u128, d: u128)
    requires
        d > 0,
        n0 * n1 <= u128::MAX,
    ensures
        mul_div_spec(n0, n1, d, false) is Ok,
        mul_div_spec(n0, n1, d, true) is Ok,
        mul_div_spec(n0, n1, d, false)->Ok_0 <= mul_div_spec(n0, n1, d, true)->Ok_0,
        (mul_div_spec(n0, n1, d, false)->Ok_0 == mul_div_spec(n0, n1, d, true)->Ok_0) <==> (n0 * n1)
            % (d as int) == 0,
{
    lemma_mul_div_val_fits(n0, n1, d, false);
    lemma_mul_div_val_fits(n0, n1, d, true);
}

/// A zero divisor is always reported as division by zero, in both
/// rounding modes and for every pair of factors.
pub proof fn lemma_mul_div_zero_divisor(n0: u128, n1: u128, round_up: bool)
    ensures
        mul_div_spec(n0, n1, 0, round_up) == Err::<u128, ErrorCode>(ErrorCode::DivideByZero),
{
}

/// `10^e` as a `u128`, or `None` when that power does not fit in 128 bits
/// (any exponent of 39 or more).
pub fn checked_pow10_u128(e: u32) -> (r: Option<u128>)
    ensures
        r is Some <==> vstd::arithmetic::power::pow(10, e as nat) <= u128::MAX,
        r matches Some(v) ==> v == vstd::arithmetic::power::pow(10, e as nat),
{
    let mut acc: u128 = 1;
    let mut i: u32 = 0;
    proof {
        vstd::arithmetic::power::lemma_pow0(10);
    }
    while i < e
        invariant
            i <= e,
            acc == vstd::arithmetic::power::pow(10, i as nat),
        decreases e - i,
    {
        proof {
            vstd::arithmetic::power::lemma_pow_adds(10, i as nat, 1);
            vstd::arithmetic::power::lemma_pow1(10);
        }
        if acc > u128::MAX / 10 {
            proof {
                vstd::arithmetic::power::lemma_pow_increases(10, (i + 1) as nat, e as nat);
            }
            return None;
        }
        acc = acc * 10;
        i = i + 1;
    }
    Some(acc)
}

} // verus!
