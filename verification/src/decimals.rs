use vstd::prelude::*;

use vstd::arithmetic::power::pow;

verus! {

/// The three power-of-ten scaling factors used to normalize cross-decimal
/// arithmetic: oracle price scale, quote-token scale and base-token scale.
#[derive(Clone, Copy, Debug, PartialEq, Eq, Structural)]
pub struct Decimals {
    /// `10^price_decimals`, e.g. `10^8`
    pub price_dec: u64,
    /// `10^quote_decimals`, e.g. `10^6` for native USDC
    pub quote_dec: u64,
    /// `10^base_decimals`, e.g. `10^9` or `10^8`
    pub base_dec: u64,
}

/// `10^e` as a `u64`, or `None` when that power does not fit in 64 bits
/// (any exponent of 20 or more).
pub fn checked_pow10_u64(e: u32) -> (r: Option<u64>)
    ensures
        r is Some <==> pow(10, e as nat) <= u64::MAX,
        r matches Some(v) ==> v == pow(10, e as nat),
{
    let mut acc: u64 = 1;
    let mut i: u32 = 0;
    proof {
        vstd::arithmetic::power::lemma_pow0(10);
    }
    while i < e
        invariant
            i <= e,
            acc == pow(10, i as nat),
        decreases e - i,
    {
        proof {
            vstd::arithmetic::power::lemma_pow_adds(10, i as nat, 1);
            vstd::arithmetic::power::lemma_pow1(10);
            assert(pow(10, (i + 1) as nat) == 10 * pow(10, i as nat));
        }
        if acc > u64::MAX / 10 {
            proof {
                vstd::arithmetic::power::lemma_pow_increases(10, (i + 1) as nat, e as nat);
            }
            return None;
        }
        acc = acc * 10;
        i = i + 1;
    }
    Some(acc)
}

impl Decimals {
    /// Derives the three scaling factors from the pool pair's decimal
    /// exponents, or `None` when any power of ten overflows 64 bits.
    pub fn new(price: u32, quote: u32, base: u32) -> (r: Option<Decimals>)
        ensures
            r is Some <==> (pow(10, price as nat) <= u64::MAX && pow(10, quote as nat) <= u64::MAX
                && pow(10, base as nat) <= u64::MAX),
            r matches Some(d) ==> d.price_dec == pow(10, price as nat) && d.quote_dec == pow(
                10,
                quote as nat,
            ) && d.base_dec == pow(10, base as nat),
    {
        let price_dec = match checked_pow10_u64(price) {
            Some(v) => v,
            None => {
                return None;
            },
        };
        let quote_dec = match checked_pow10_u64(quote) {
            Some(v) => v,
            None => {
                return None;
            },
        };
        let base_dec = match checked_pow10_u64(base) {
            Some(v) => v,
            None => {
                return None;
            },
        };
        Some(Decimals { price_dec, quote_dec, base_dec })
    }
}

} // verus!
