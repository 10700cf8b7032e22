use vstd::prelude::*;

verus! {

/// Failure kinds of the pricing engine, mirroring the on-chain program's
/// error codes.
#[derive(Clone, Copy, Debug, PartialEq, Eq, Structural)]
pub enum ErrorCode {
    DivideByZero,
    NumberCastError,
    FeeRateMaxExceeded,
    MathOverflow,
    MulDivOverflow,
    ProtocolFeeMaxExceeded,
    ProtocolFeeNotEnough,
    RebateFeeMaxExceeded,
    RebateFeeNotEnough,
    ReserveMaxExceeded,
    ReserveNotEnough,
    ReserveLessThanFee,
    TooManyAuthorities,
    WooOracleBoundLimit,
    WooOracleNotFeasible,
    WooOraclePriceNotValid,
    WooOraclePriceRangeMin,
    WooOraclePriceRangeMax,
    WooOracleSpreadExceed,
    WooPoolExceedMaxNotionalValue,
    WooPoolExceedMaxGamma,
    NotEnoughBalance,
    NotEnoughOut,
    AmountOutBelowMinimum,
    BalanceCapExceeds,
    SwapPoolInvalid,
    InvalidAuthority,
}

/// Failure of a whole quote request: either an arithmetic, oracle or pool
/// error code, or a named piece of upstream state that was missing.
#[derive(Clone, Copy, Debug, PartialEq, Eq, Structural)]
pub enum QuoteError {
    /// An arithmetic, oracle or pool-limit error.
    Code(ErrorCode),
    /// An external feed reading was absent or older than the allowed age.
    PriceUpdateFailed,
    /// The cached decimals for a leg were never resolved.
    MissingDecimals,
    /// The cached oracle state for a leg was never resolved.
    MissingState,
    /// The cached pool snapshot for a leg was never resolved.
    MissingPool,
}

} // verus!
