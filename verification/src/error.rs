//! Error types.

use vstd::prelude::*;

verus! {

/// Why a lending operation was refused.
#[derive(Clone, Copy, Debug, PartialEq, Eq, Structural)]
pub enum LendingError {
    /// An account that must be uninitialized already holds a version.
    AlreadyInitialized,
    /// An amount is zero or larger than the operation can take.
    InvalidAmount,
    /// A configuration value lies outside its range.
    InvalidConfig,
    /// An account handed in is not the one the state refers to.
    InvalidAccountInput,
    /// An arithmetic result does not fit, a subtraction went below zero, or a
    /// division had a zero divisor.
    MathOverflow,
    /// The reserve holds less liquidity than the operation takes out.
    InsufficientLiquidity,
    /// The reserve was not refreshed at the current slot.
    ReserveStale,
    /// The withdrawal would leave too little collateral for the debt.
    WithdrawTooLarge,
    /// The amount borrowed is too small to leave anything after fees.
    BorrowTooSmall,
    /// The borrow would exceed the value the collateral allows.
    BorrowTooLarge,
    /// The liquidation would settle less than one unit of debt.
    LiquidateObligationZero,
    /// The obligation is not unhealthy, so it cannot be liquidated.
    ObligationHealthy,
    /// The obligation was not refreshed at the current slot.
    ObligationStale,
    /// The obligation already refers to as many reserves as it may.
    ObligationReserveLimit,
    /// The obligation has no deposits.
    ObligationDepositsEmpty,
    /// The obligation's deposits are worth nothing.
    ObligationDepositsZero,
    /// The obligation's borrows are worth nothing.
    ObligationBorrowsZero,
    /// The obligation holds no collateral of the reserve.
    InvalidObligationCollateral,
    /// The obligation owes nothing to the reserve.
    InvalidObligationLiquidity,
    /// The collateral entry is empty.
    ObligationCollateralEmpty,
    /// The liquidity entry is empty.
    ObligationLiquidityEmpty,
    /// The oracle price is stale, negative or too uncertain.
    InvalidOracleConfig,
    /// The oracle account is the null key.
    NullOracleConfig,
    /// The deposit would take the reserve above its deposit limit.
    DepositLimitExceeded,
    /// The borrow would take the reserve above its borrow limit.
    BorrowLimitExceeded,
    /// The outflow would exceed what the rate limiter allows in its window.
    OutflowRateLimitExceeded,
    /// A flash borrow is already outstanding on the reserve.
    MultipleFlashBorrows,
    /// The flash repay does not match the flash borrow it answers.
    InvalidFlashRepay,
    /// No flash repay follows the flash borrow.
    NoFlashRepayFound,
    /// The flash borrow was reached through a nested call.
    FlashBorrowCpi,
    /// The flash repay was reached through a nested call.
    FlashRepayCpi,
    /// Flash loans are switched off for the reserve.
    FlashLoansDisabled,
    /// The bytes do not hold a value of the expected kind.
    FailedToDeserialize,
    /// The value cannot be written in the version asked for.
    FailedToSerialize,
    /// The instruction bytes are malformed.
    InstructionUnpackError,
}

} // verus!
