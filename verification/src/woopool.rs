use vstd::prelude::*;

verus! {

/// Per-pair pool limits and identities, read-only for quoting. Mints are
/// carried as opaque numeric identities: equality is all the engine reads
/// of them, and the fetching collaborator assigns the numbers.
#[derive(Clone, Copy, Debug)]
pub struct WooPool {
    /// Fee rate in parts per 100_000 (10 = 1 bp).
    pub fee_rate: u16,
    /// Cap on the curve-impact term `gamma`, scaled by 1e18.
    pub max_gamma: u128,
    /// Cap on the quote-currency notional of a single swap.
    pub max_notional_swap: u128,
    /// Cap on the pool's vault balance, in token amount.
    pub cap_bal: u128,
    /// Largest input amount that is quoted as zero output.
    pub min_swap_amount: u128,
    /// Protocol fee accrued in the vault but not yet claimed.
    pub unclaimed_fee: u128,
    /// Identity of the pool's own token mint.
    pub token_mint: u64,
    /// Identity of the shared quote-currency mint.
    pub quote_token_mint: u64,
    /// Decimal exponent of the pool token.
    pub base_decimals: u8,
}

/// The vault amount available to trade: for the quote-currency pool the
/// unclaimed protocol fee is set aside first; `None` when the fee exceeds
/// the vault.
pub open spec fn balance_spec(woopool: WooPool, token_vault_amount: u128) -> Option<u128> {
    if woopool.token_mint == woopool.quote_token_mint {
        if token_vault_amount >= woopool.unclaimed_fee {
            Some((token_vault_amount - woopool.unclaimed_fee) as u128)
        } else {
            None
        }
    } else {
        Some(token_vault_amount)
    }
}

/// Available balance of a pool vault, per `balance_spec`.
pub fn balance(woopool: &WooPool, token_vault_amount: u128) -> (r: Option<u128>)
    ensures
        r == balance_spec(*woopool, token_vault_amount),
{
    if woopool.token_mint == woopool.quote_token_mint {
        token_vault_amount.checked_sub(woopool.unclaimed_fee)
    } else {
        Some(token_vault_amount)
    }
}

} // verus!
