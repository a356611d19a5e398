//! The operations of the protocol, as transitions of reserves and
//! obligations. Every operation either applies in full or fails and leaves
//! the state as it was.

use crate::amount::Amount;
use crate::error::LendingError;
use crate::liquidation::{
    calculate_liquidation, calculate_liquidation_spec,
    lemma_liquidation_is_proportional_or_exhausts, CalculateLiquidationResult,
    LIQUIDATION_CLOSE_FACTOR,
};
use crate::math::decimal::{scaled, Decimal, PERCENT_SCALER, WAD};
use crate::pubkey::Pubkey;
use crate::state::last_update::LastUpdate;
use crate::state::obligation::{
    collateral_index_from, lemma_collateral_index, lemma_liquidity_index, liquidity_index_from,
    Obligation, ObligationCollateral, ObligationLiquidity, ObligationView,
};
use crate::state::reserve::{
    CalculateBorrowResult, CalculateRepayResult, InitReserveParams, Reserve, ReserveConfig,
    ReserveLiquidity, SLOTS_PER_YEAR,
};
use vstd::prelude::*;
use vstd::std_specs::convert::FromSpec;

verus! {

broadcast use crate::math::decimal::lemma_scaled_view;

/// Settings that hold for a whole market.
#[derive(Clone, Copy, Debug, PartialEq, Eq, Structural)]
pub struct MarketParams {
    /// Slots in a year, over which yearly borrow rates are spread.
    pub slots_per_year: u64,
    /// Part of a debt that one liquidation may close while the obligation is
    /// not severely unhealthy, in percent.
    pub liquidation_close_factor: u8,
    /// Margin over the value from which an obligation can be liquidated at
    /// which it counts as severely unhealthy, in percent; zero for none.
    pub severe_margin: u8,
    /// Slots that may have passed since a reserve was refreshed when an
    /// obligation is refreshed from it.
    pub refresh_slack: u64,
}

impl Default for MarketParams {
    fn default() -> (r: MarketParams)
        ensures
            r == (MarketParams {
                slots_per_year: SLOTS_PER_YEAR,
                liquidation_close_factor: LIQUIDATION_CLOSE_FACTOR,
                severe_margin: 0,
                refresh_slack: 0,
            }),
    {
        MarketParams {
            slots_per_year: SLOTS_PER_YEAR,
            liquidation_close_factor: LIQUIDATION_CLOSE_FACTOR,
            severe_margin: 0,
            refresh_slack: 0,
        }
    }
}

/// `Ok` where the marker is fresh at `slot`, `stale_error` where it is
/// stale, `MathOverflow` where `slot` lies before the last refresh.
pub open spec fn check_fresh_spec(last_update: LastUpdate, slot: u64, stale_error: LendingError) -> Result<
    (),
    LendingError,
> {
    match last_update.is_stale_spec(slot, 0) {
        Err(e) => Err(e),
        Ok(stale) => if stale {
            Err(stale_error)
        } else {
            Ok(())
        },
    }
}

/// `Ok` where the marker is fresh at `slot`, `stale_error` where it is
/// stale, `MathOverflow` where `slot` lies before the last refresh.
pub fn check_fresh(last_update: &LastUpdate, slot: u64, stale_error: LendingError) -> (r: Result<
    (),
    LendingError,
>)
    ensures
        r == check_fresh_spec(*last_update, slot, stale_error),
{
    match last_update.is_stale(slot, 0) {
        Err(e) => Err(e),
        Ok(stale) => if stale {
            Err(stale_error)
        } else {
            Ok(())
        },
    }
}

/// The reserve after a refresh at `current_slot` with the prices that the
/// oracle gave: interest is accrued, the prices are taken over, and the
/// reserve is fresh.
pub open spec fn refresh_reserve_spec(
    reserve: Reserve,
    market_price: Decimal,
    smoothed_market_price: Decimal,
    current_slot: u64,
    slots_per_year: u64,
) -> Result<Reserve, LendingError> {
    match reserve.accrue_interest_spec(current_slot, slots_per_year) {
        Err(e) => Err(e),
        Ok(accrued) => Ok(
            Reserve {
                liquidity: ReserveLiquidity {
                    market_price,
                    smoothed_market_price,
                    ..accrued.liquidity
                },
                last_update: LastUpdate { slot: current_slot, stale: false },
                ..accrued
            },
        ),
    }
}

/// Refreshes a reserve at `current_slot`: accrues interest and takes over
/// the prices that the oracle gave. On an error the reserve is left as it
/// was.
pub fn refresh_reserve(
    reserve: &mut Reserve,
    market_price: Decimal,
    smoothed_market_price: Decimal,
    current_slot: u64,
    params: &MarketParams,
) -> (r: Result<(), LendingError>)
    ensures
        match refresh_reserve_spec(
            *old(reserve),
            market_price,
            smoothed_market_price,
            current_slot,
            params.slots_per_year,
        ) {
            Ok(after) => r is Ok && *final(reserve) == after,
            Err(e) => r == Err::<(), LendingError>(e) && *final(reserve) == *old(reserve),
        },
{
    match reserve.accrue_interest(current_slot, params.slots_per_year) {
        Ok(_) => {},
        Err(e) => {
            return Err(e);
        },
    }
    reserve.liquidity.market_price = market_price;
    reserve.liquidity.smoothed_market_price = smoothed_market_price;
    reserve.last_update.update_slot(current_slot);
    Ok(())
}

/// The obligation and the reserve after a borrow of `amount` at
/// `current_slot`, and what the borrow came to.
pub open spec fn borrow_obligation_liquidity_spec(
    obligation: ObligationView,
    borrow_reserve: Pubkey,
    reserve: Reserve,
    amount: Amount,
    current_slot: u64,
) -> Result<(ObligationView, Reserve, CalculateBorrowResult), LendingError> {
    match check_fresh_spec(reserve.last_update, current_slot, LendingError::ReserveStale) {
        Err(e) => Err(e),
        Ok(_) => match check_fresh_spec(
            obligation.last_update,
            current_slot,
            LendingError::ObligationStale,
        ) {
            Err(e) => Err(e),
            Ok(_) => if obligation.deposits.len() == 0 {
                Err(LendingError::ObligationDepositsEmpty)
            } else if obligation.deposited_value@ == 0 {
                Err(LendingError::ObligationDepositsZero)
            } else if obligation.remaining_borrow_value()@ == 0 {
                Err(LendingError::BorrowTooLarge)
            } else {
                match reserve.calculate_borrow_spec(amount, obligation.remaining_borrow_value()) {
                    Err(e) => Err(e),
                    Ok(calc) => match reserve.borrow_spec(calc.borrow_amount, current_slot) {
                        Err(e) => Err(e),
                        Ok(lent) => match obligation.borrow_spec(
                            borrow_reserve,
                            reserve.liquidity.cumulative_borrow_rate_wads,
                            calc.borrow_amount,
                            calc.borrow_value,
                        ) {
                            Err(e) => Err(e),
                            Ok(owing) => Ok((owing, lent, calc)),
                        },
                    },
                }
            },
        },
    }
}

/// Borrows `amount` from the reserve `borrow_reserve` against the
/// obligation's collateral. Reserve and obligation have to be fresh at
/// `current_slot`. `BorrowTooLarge` where the value of the debt would exceed
/// what the collateral still allows. On an error obligation and reserve are
/// left as they were.
pub fn borrow_obligation_liquidity(
    obligation: &mut Obligation,
    borrow_reserve: Pubkey,
    reserve: &mut Reserve,
    amount: Amount,
    current_slot: u64,
) -> (r: Result<CalculateBorrowResult, LendingError>)
    ensures
        match borrow_obligation_liquidity_spec(
            old(obligation)@,
            borrow_reserve,
            *old(reserve),
            amount,
            current_slot,
        ) {
            Ok((owing, lent, calc)) => r == Ok::<CalculateBorrowResult, LendingError>(calc)
                && final(obligation)@ == owing && *final(reserve) == lent,
            Err(e) => r == Err::<CalculateBorrowResult, LendingError>(e) && final(obligation)@
                == old(obligation)@ && *final(reserve) == *old(reserve),
        },
        old(obligation)@.well_formed() ==> final(obligation)@.well_formed(),
{
    match check_fresh(&reserve.last_update, current_slot, LendingError::ReserveStale) {
        Ok(_) => {},
        Err(e) => {
            return Err(e);
        },
    }
    match check_fresh(&obligation.last_update, current_slot, LendingError::ObligationStale) {
        Ok(_) => {},
        Err(e) => {
            return Err(e);
        },
    }
    if obligation.deposits.len() == 0 {
        return Err(LendingError::ObligationDepositsEmpty);
    }
    if obligation.deposited_value.is_zero() {
        return Err(LendingError::ObligationDepositsZero);
    }
    let remaining = obligation.remaining_borrow_value();
    if remaining.is_zero() {
        return Err(LendingError::BorrowTooLarge);
    }
    let calc = match reserve.calculate_borrow(amount, remaining) {
        Ok(v) => v,
        Err(e) => {
            return Err(e);
        },
    };
    let mut lent = *reserve;
    match lent.borrow(calc.borrow_amount, current_slot) {
        Ok(_) => {},
        Err(e) => {
            return Err(e);
        },
    }
    match obligation.borrow(
        borrow_reserve,
        reserve.liquidity.cumulative_borrow_rate_wads,
        calc.borrow_amount,
        calc.borrow_value,
    ) {
        Ok(_) => {},
        Err(e) => {
            return Err(e);
        },
    }
    *reserve = lent;
    Ok(calc)
}

/// After a borrow that succeeded, the value of the obligation's debt is no
/// more than the value that its collateral allows, and the reserve gave out
/// no more than it had.
pub proof fn lemma_borrow_keeps_solvent(
    obligation: ObligationView,
    borrow_reserve: Pubkey,
    reserve: Reserve,
    amount: Amount,
    current_slot: u64,
)
    requires
        borrow_obligation_liquidity_spec(obligation, borrow_reserve, reserve, amount, current_slot)
            is Ok,
    ensures
        ({
            let after = borrow_obligation_liquidity_spec(
                obligation,
                borrow_reserve,
                reserve,
                amount,
                current_slot,
            )->Ok_0;
            &&& after.0.borrowed_value@ <= after.0.allowed_borrow_value@
            &&& after.0.allowed_borrow_value == obligation.allowed_borrow_value
            &&& after.0.borrowed_value@ == obligation.borrowed_value@ + after.2.borrow_value@
            &&& after.1.liquidity.available_amount <= reserve.liquidity.available_amount
        }),
{
}

/// The number of shares that a withdrawal of `amount` takes out of
/// `collateral`: an exact amount as far as shares are there; for `Max` the
/// shares whose value the obligation can spare, rounded down.
pub open spec fn withdraw_amount_spec(
    obligation: ObligationView,
    collateral: ObligationCollateral,
    ltv: u8,
    amount: Amount,
) -> Result<u64, LendingError> {
    match amount {
        Amount::Exact(asked) => Ok(
            if asked <= collateral.deposited_amount {
                asked
            } else {
                collateral.deposited_amount
            },
        ),
        Amount::Max => if collateral.market_value@ == 0 {
            Ok(collateral.deposited_amount)
        } else {
            match obligation.max_withdraw_value(ltv) {
                Err(e) => Err(e),
                Ok(spare) => match spare.min_spec(collateral.market_value).try_div_spec(
                    collateral.market_value,
                ) {
                    Err(e) => Err(e),
                    Ok(part) => match part.try_mul_u64_spec(collateral.deposited_amount) {
                        Err(e) => Err(e),
                        Ok(shares) => match shares.try_floor_u64_spec() {
                            Err(e) => Err(e),
                            Ok(whole) => Ok(
                                if whole <= collateral.deposited_amount {
                                    whole
                                } else {
                                    collateral.deposited_amount
                                },
                            ),
                        },
                    },
                },
            }
        },
    }
}

/// The value of `shares` out of `collateral`: their part of its value.
pub open spec fn withdraw_value_spec(collateral: ObligationCollateral, shares: u64) -> Result<
    Decimal,
    LendingError,
> {
    match Decimal::from_spec(shares).try_div_spec(Decimal::from_spec(collateral.deposited_amount)) {
        Err(e) => Err(e),
        Ok(part) => collateral.market_value.try_mul_spec(part),
    }
}

/// `value` times `percent` hundredths.
pub open spec fn percent_of_spec(value: Decimal, percent: u8) -> Result<Decimal, LendingError> {
    value.try_mul_spec(scaled((percent as nat) * (PERCENT_SCALER as nat)))
}

/// `value` times `percent` hundredths.
pub fn percent_of(value: Decimal, percent: u8) -> (r: Result<Decimal, LendingError>)
    ensures
        r == percent_of_spec(value, percent),
{
    value.try_mul(Decimal::from_percent(percent))
}

/// The obligation after a withdrawal of `amount` of the collateral in
/// `withdraw_reserve` at `current_slot`, and the shares withdrawn. The
/// values that the collateral gave the obligation go down with it.
pub open spec fn withdraw_obligation_collateral_spec(
    obligation: ObligationView,
    withdraw_reserve: Pubkey,
    reserve: Reserve,
    amount: Amount,
    current_slot: u64,
) -> Result<(ObligationView, u64), LendingError> {
    if amount == Amount::Exact(0) {
        Err(LendingError::InvalidAmount)
    } else {
        match check_fresh_spec(reserve.last_update, current_slot, LendingError::ReserveStale) {
            Err(e) => Err(e),
            Ok(_) => match check_fresh_spec(
                obligation.last_update,
                current_slot,
                LendingError::ObligationStale,
            ) {
                Err(e) => Err(e),
                Ok(_) => match collateral_index_from(obligation.deposits, withdraw_reserve, 0) {
                    None => Err(LendingError::InvalidObligationCollateral),
                    Some(i) => withdraw_at_spec(
                        obligation,
                        i as int,
                        reserve,
                        amount,
                    ),
                },
            },
        }
    }
}

/// The withdrawal from the collateral at `index`.
pub open spec fn withdraw_at_spec(
    obligation: ObligationView,
    index: int,
    reserve: Reserve,
    amount: Amount,
) -> Result<(ObligationView, u64), LendingError> {
    let collateral = obligation.deposits[index];
    let config = reserve.config;
    if collateral.deposited_amount == 0 {
        Err(LendingError::ObligationCollateralEmpty)
    } else {
        match withdraw_amount_spec(obligation, collateral, config.loan_to_value_ratio, amount) {
            Err(e) => Err(e),
            Ok(shares) => if shares == 0 {
                Err(LendingError::WithdrawTooLarge)
            } else {
                match withdraw_value_spec(collateral, shares) {
                    Err(e) => Err(e),
                    Ok(value) => match percent_of_spec(value, config.loan_to_value_ratio) {
                        Err(e) => Err(e),
                        Ok(allowed_drop) => match percent_of_spec(
                            value,
                            config.liquidation_threshold,
                        ) {
                            Err(e) => Err(e),
                            Ok(unhealthy_drop) => match percent_of_spec(
                                value,
                                config.max_liquidation_threshold,
                            ) {
                                Err(e) => Err(e),
                                Ok(super_drop) => if obligation.borrowed_value@
                                    > obligation.allowed_borrow_value.saturating_sub_spec(
                                    allowed_drop,
                                )@ {
                                    Err(LendingError::WithdrawTooLarge)
                                } else {
                                    Ok(
                                        (
                                            ObligationView {
                                                deposits: obligation.deposits_after_withdraw(
                                                    index,
                                                    shares,
                                                    value,
                                                ),
                                                deposited_value: obligation.deposited_value.saturating_sub_spec(
                                                value),
                                                allowed_borrow_value: obligation.allowed_borrow_value.saturating_sub_spec(
                                                allowed_drop),
                                                unhealthy_borrow_value: obligation.unhealthy_borrow_value.saturating_sub_spec(
                                                unhealthy_drop),
                                                super_unhealthy_borrow_value: obligation.super_unhealthy_borrow_value.saturating_sub_spec(
                                                super_drop),
                                                last_update: LastUpdate {
                                                    slot: obligation.last_update.slot,
                                                    stale: true,
                                                },
                                                ..obligation
                                            },
                                            shares,
                                        ),
                                    )
                                },
                            },
                        },
                    },
                }
            },
        }
    }
}

/// The number of shares that a withdrawal of `amount` takes out of the
/// collateral at `index`.
fn withdraw_amount(obligation: &Obligation, index: usize, ltv: u8, amount: Amount) -> (r: Result<
    u64,
    LendingError,
>)
    requires
        index < obligation@.deposits.len(),
    ensures
        r == withdraw_amount_spec(obligation@, obligation@.deposits[index as int], ltv, amount),
{
    let collateral = obligation.deposits[index];
    match amount {
        Amount::Exact(asked) => Ok(
            if asked <= collateral.deposited_amount {
                asked
            } else {
                collateral.deposited_amount
            },
        ),
        Amount::Max => {
            if collateral.market_value.is_zero() {
                return Ok(collateral.deposited_amount);
            }
            let spare = match obligation.max_withdraw_value(ltv) {
                Ok(v) => v,
                Err(e) => {
                    return Err(e);
                },
            };
            let part = match spare.min(collateral.market_value).try_div(collateral.market_value) {
                Ok(v) => v,
                Err(e) => {
                    return Err(e);
                },
            };
            let shares = match part.try_mul_u64(collateral.deposited_amount) {
                Ok(v) => v,
                Err(e) => {
                    return Err(e);
                },
            };
            let whole = match shares.try_floor_u64() {
                Ok(v) => v,
                Err(e) => {
                    return Err(e);
                },
            };
            Ok(
                if whole <= collateral.deposited_amount {
                    whole
                } else {
                    collateral.deposited_amount
                },
            )
        },
    }
}

/// Withdraws `amount` of the collateral that the obligation holds in
/// `withdraw_reserve`. Reserve and obligation have to be fresh at
/// `current_slot`. `WithdrawTooLarge` where the debt would exceed what the
/// remaining collateral allows, or where `Max` finds nothing to withdraw.
/// On an error the obligation is left as it was.
pub fn withdraw_obligation_collateral(
    obligation: &mut Obligation,
    withdraw_reserve: Pubkey,
    reserve: &Reserve,
    amount: Amount,
    current_slot: u64,
) -> (r: Result<u64, LendingError>)
    ensures
        match withdraw_obligation_collateral_spec(
            old(obligation)@,
            withdraw_reserve,
            *reserve,
            amount,
            current_slot,
        ) {
            Ok((after, shares)) => r == Ok::<u64, LendingError>(shares) && final(obligation)@
                == after,
            Err(e) => r == Err::<u64, LendingError>(e) && final(obligation)@ == old(obligation)@,
        },
        old(obligation)@.well_formed() ==> final(obligation)@.well_formed(),
{
    match amount {
        Amount::Exact(asked) => {
            if asked == 0 {
                return Err(LendingError::InvalidAmount);
            }
        },
        Amount::Max => {},
    }
    match check_fresh(&reserve.last_update, current_slot, LendingError::ReserveStale) {
        Ok(_) => {},
        Err(e) => {
            return Err(e);
        },
    }
    match check_fresh(&obligation.last_update, current_slot, LendingError::ObligationStale) {
        Ok(_) => {},
        Err(e) => {
            return Err(e);
        },
    }
    let index = match obligation.find_collateral_index(&withdraw_reserve) {
        Some(i) => i,
        None => {
            return Err(LendingError::InvalidObligationCollateral);
        },
    };
    let collateral = obligation.deposits[index];
    if collateral.deposited_amount == 0 {
        return Err(LendingError::ObligationCollateralEmpty);
    }
    let shares = match withdraw_amount(obligation, index, reserve.config.loan_to_value_ratio, amount) {
        Ok(v) => v,
        Err(e) => {
            return Err(e);
        },
    };
    if shares == 0 {
        return Err(LendingError::WithdrawTooLarge);
    }
    let part = match Decimal::from(shares).try_div(Decimal::from(collateral.deposited_amount)) {
        Ok(v) => v,
        Err(e) => {
            return Err(e);
        },
    };
    let value = match collateral.market_value.try_mul(part) {
        Ok(v) => v,
        Err(e) => {
            return Err(e);
        },
    };
    let allowed_drop = match percent_of(value, reserve.config.loan_to_value_ratio) {
        Ok(v) => v,
        Err(e) => {
            return Err(e);
        },
    };
    let unhealthy_drop = match percent_of(value, reserve.config.liquidation_threshold) {
        Ok(v) => v,
        Err(e) => {
            return Err(e);
        },
    };
    let super_drop = match percent_of(value, reserve.config.max_liquidation_threshold) {
        Ok(v) => v,
        Err(e) => {
            return Err(e);
        },
    };
    let allowed = obligation.allowed_borrow_value.saturating_sub(allowed_drop);
    if obligation.borrowed_value.gt(&allowed) {
        return Err(LendingError::WithdrawTooLarge);
    }
    obligation.withdraw(index, shares, value);
    obligation.deposited_value = obligation.deposited_value.saturating_sub(value);
    obligation.allowed_borrow_value = allowed;
    obligation.unhealthy_borrow_value = obligation.unhealthy_borrow_value.saturating_sub(
        unhealthy_drop,
    );
    obligation.super_unhealthy_borrow_value =
    obligation.super_unhealthy_borrow_value.saturating_sub(super_drop);
    obligation.last_update.mark_stale();
    Ok(shares)
}

/// After a withdrawal that succeeded, the value of the obligation's debt is
/// no more than the value that the remaining collateral allows.
pub proof fn lemma_withdraw_keeps_solvent(
    obligation: ObligationView,
    withdraw_reserve: Pubkey,
    reserve: Reserve,
    amount: Amount,
    current_slot: u64,
)
    requires
        withdraw_obligation_collateral_spec(
            obligation,
            withdraw_reserve,
            reserve,
            amount,
            current_slot,
        ) is Ok,
    ensures
        ({
            let after = withdraw_obligation_collateral_spec(
                obligation,
                withdraw_reserve,
                reserve,
                amount,
                current_slot,
            )->Ok_0;
            &&& after.0.borrowed_value@ <= after.0.allowed_borrow_value@
            &&& after.0.borrowed_value == obligation.borrowed_value
            &&& after.1 >= 1
        }),
{
}


/// Adds `collateral_amount` shares of `deposit_reserve` to the obligation's
/// collateral. `InvalidAmount` for no shares, `ObligationReserveLimit` where
/// the obligation holds collateral in as many reserves as it may. On an
/// error the obligation is left as it was.
pub fn deposit_obligation_collateral(
    obligation: &mut Obligation,
    deposit_reserve: Pubkey,
    collateral_amount: u64,
) -> (r: Result<(), LendingError>)
    ensures
        match old(obligation)@.deposit_spec(deposit_reserve, collateral_amount) {
            Ok(after) => r is Ok && final(obligation)@ == after,
            Err(e) => r == Err::<(), LendingError>(e) && final(obligation)@ == old(obligation)@,
        },
        old(obligation)@.well_formed() ==> final(obligation)@.well_formed(),
{
    obligation.deposit(deposit_reserve, collateral_amount)
}

/// The obligation and the reserve after a repayment of `amount` at
/// `current_slot`, and what the repayment came to. Interest on the debt is
/// accrued up to the reserve's cumulative rate first.
pub open spec fn repay_obligation_liquidity_spec(
    obligation: ObligationView,
    repay_reserve: Pubkey,
    reserve: Reserve,
    amount: Amount,
    current_slot: u64,
) -> Result<(ObligationView, Reserve, CalculateRepayResult), LendingError> {
    if amount == Amount::Exact(0) {
        Err(LendingError::InvalidAmount)
    } else {
        match check_fresh_spec(reserve.last_update, current_slot, LendingError::ReserveStale) {
            Err(e) => Err(e),
            Ok(_) => match liquidity_index_from(obligation.borrows, repay_reserve, 0) {
                None => Err(LendingError::InvalidObligationLiquidity),
                Some(i) => repay_at_spec(obligation, i as int, reserve, amount),
            },
        }
    }
}

/// The repayment of the debt at `index`.
pub open spec fn repay_at_spec(
    obligation: ObligationView,
    index: int,
    reserve: Reserve,
    amount: Amount,
) -> Result<(ObligationView, Reserve, CalculateRepayResult), LendingError> {
    if obligation.borrows[index].borrowed_amount_wads@ == 0 {
        Err(LendingError::ObligationLiquidityEmpty)
    } else {
        match obligation.borrows[index].accrue_interest_spec(
            reserve.liquidity.cumulative_borrow_rate_wads,
        ) {
            Err(e) => Err(e),
            Ok(accrued) => match Reserve::calculate_repay_spec(
                amount,
                accrued.borrowed_amount_wads,
            ) {
                Err(e) => Err(e),
                Ok(calc) => match reserve.weighted_value_spec(calc.settle_amount) {
                    Err(e) => Err(e),
                    Ok(settle_value) => match reserve.repay_spec(
                        calc.repay_amount,
                        calc.settle_amount,
                    ) {
                        Err(e) => Err(e),
                        Ok(repaid) => {
                            let with_interest = ObligationView {
                                borrows: obligation.borrows.update(index, accrued),
                                ..obligation
                            };
                            Ok(
                                (
                                    ObligationView {
                                        borrows: with_interest.borrows_after_repay(
                                            index,
                                            calc.settle_amount,
                                            settle_value,
                                        ),
                                        borrowed_value: obligation.borrowed_value.saturating_sub_spec(
                                        settle_value),
                                        last_update: LastUpdate {
                                            slot: obligation.last_update.slot,
                                            stale: true,
                                        },
                                        ..obligation
                                    },
                                    repaid,
                                    calc,
                                ),
                            )
                        },
                    },
                },
            },
        }
    }
}

/// Repays `amount` of the obligation's debt to `repay_reserve`; `Max` repays
/// all of it. The reserve has to be fresh at `current_slot`. A repayment
/// never fails for want of liquidity. On an error obligation and reserve are
/// left as they were.
pub fn repay_obligation_liquidity(
    obligation: &mut Obligation,
    repay_reserve: Pubkey,
    reserve: &mut Reserve,
    amount: Amount,
    current_slot: u64,
) -> (r: Result<CalculateRepayResult, LendingError>)
    ensures
        match repay_obligation_liquidity_spec(
            old(obligation)@,
            repay_reserve,
            *old(reserve),
            amount,
            current_slot,
        ) {
            Ok((after, repaid, calc)) => r == Ok::<CalculateRepayResult, LendingError>(calc)
                && final(obligation)@ == after && *final(reserve) == repaid,
            Err(e) => r == Err::<CalculateRepayResult, LendingError>(e) && final(obligation)@
                == old(obligation)@ && *final(reserve) == *old(reserve),
        },
        old(obligation)@.well_formed() ==> final(obligation)@.well_formed(),
{
    match amount {
        Amount::Exact(asked) => {
            if asked == 0 {
                return Err(LendingError::InvalidAmount);
            }
        },
        Amount::Max => {},
    }
    match check_fresh(&reserve.last_update, current_slot, LendingError::ReserveStale) {
        Ok(_) => {},
        Err(e) => {
            return Err(e);
        },
    }
    let index = match obligation.find_liquidity_index(&repay_reserve) {
        Some(i) => i,
        None => {
            return Err(LendingError::InvalidObligationLiquidity);
        },
    };
    let mut accrued = obligation.borrows[index];
    if accrued.borrowed_amount_wads.is_zero() {
        return Err(LendingError::ObligationLiquidityEmpty);
    }
    match accrued.accrue_interest(reserve.liquidity.cumulative_borrow_rate_wads) {
        Ok(_) => {},
        Err(e) => {
            return Err(e);
        },
    }
    let calc = match Reserve::calculate_repay(amount, accrued.borrowed_amount_wads) {
        Ok(v) => v,
        Err(e) => {
            return Err(e);
        },
    };
    let settle_value = match reserve.weighted_value(calc.settle_amount) {
        Ok(v) => v,
        Err(e) => {
            return Err(e);
        },
    };
    let mut repaid = *reserve;
    match repaid.repay(calc.repay_amount, calc.settle_amount) {
        Ok(_) => {},
        Err(e) => {
            return Err(e);
        },
    }
    proof {
        lemma_liquidity_index(obligation@.borrows, repay_reserve, 0);
    }
    obligation.borrows[index] = accrued;
    obligation.repay(index, calc.settle_amount, settle_value);
    obligation.borrowed_value = obligation.borrowed_value.saturating_sub(settle_value);
    obligation.last_update.mark_stale();
    *reserve = repaid;
    Ok(calc)
}

/// The obligation and the reserve that is repaid after a liquidation of
/// `amount` at `current_slot`, and what the liquidation came to.
pub open spec fn liquidate_obligation_spec(
    obligation: ObligationView,
    repay_reserve_key: Pubkey,
    repay_reserve: Reserve,
    withdraw_reserve_key: Pubkey,
    withdraw_reserve: Reserve,
    amount: Amount,
    current_slot: u64,
    close_factor: u8,
    severe_margin: u8,
) -> Result<(ObligationView, Reserve, CalculateLiquidationResult), LendingError> {
    if amount == Amount::Exact(0) {
        Err(LendingError::InvalidAmount)
    } else {
        match check_fresh_spec(repay_reserve.last_update, current_slot, LendingError::ReserveStale) {
            Err(e) => Err(e),
            Ok(_) => match check_fresh_spec(
                withdraw_reserve.last_update,
                current_slot,
                LendingError::ReserveStale,
            ) {
                Err(e) => Err(e),
                Ok(_) => match check_fresh_spec(
                    obligation.last_update,
                    current_slot,
                    LendingError::ObligationStale,
                ) {
                    Err(e) => Err(e),
                    Ok(_) => if obligation.deposited_value@ == 0 {
                        Err(LendingError::ObligationDepositsZero)
                    } else if obligation.borrowed_value@ == 0 {
                        Err(LendingError::ObligationBorrowsZero)
                    } else if obligation.borrowed_value@ <= obligation.unhealthy_borrow_value@ {
                        Err(LendingError::ObligationHealthy)
                    } else {
                        match liquidity_index_from(obligation.borrows, repay_reserve_key, 0) {
                            None => Err(LendingError::InvalidObligationLiquidity),
                            Some(li) => if obligation.borrows[li as int].market_value@ == 0 {
                                Err(LendingError::ObligationLiquidityEmpty)
                            } else {
                                match collateral_index_from(
                                    obligation.deposits,
                                    withdraw_reserve_key,
                                    0,
                                ) {
                                    None => Err(LendingError::InvalidObligationCollateral),
                                    Some(ci) => if obligation.deposits[ci as int].market_value@
                                        == 0 {
                                        Err(LendingError::ObligationCollateralEmpty)
                                    } else {
                                        liquidate_at_spec(
                                            obligation,
                                            li as int,
                                            repay_reserve,
                                            ci as int,
                                            withdraw_reserve,
                                            amount,
                                            close_factor,
                                            severe_margin,
                                        )
                                    },
                                }
                            },
                        }
                    },
                },
            },
        }
    }
}

/// The liquidation of the debt at `liquidity_index` against the collateral
/// at `collateral_index`.
pub open spec fn liquidate_at_spec(
    obligation: ObligationView,
    liquidity_index: int,
    repay_reserve: Reserve,
    collateral_index: int,
    withdraw_reserve: Reserve,
    amount: Amount,
    close_factor: u8,
    severe_margin: u8,
) -> Result<(ObligationView, Reserve, CalculateLiquidationResult), LendingError> {
    match calculate_liquidation_spec(
        amount,
        obligation,
        obligation.borrows[liquidity_index],
        obligation.deposits[collateral_index],
        withdraw_reserve.config,
        close_factor,
        severe_margin,
    ) {
        Err(e) => Err(e),
        Ok(calc) => if calc.withdraw_amount > obligation.deposits[collateral_index].deposited_amount {
            Err(LendingError::MathOverflow)
        } else {
            match repay_reserve.repay_spec(calc.repay_amount, calc.settle_amount) {
                Err(e) => Err(e),
                Ok(repaid) => Ok(
                    (
                        ObligationView {
                            borrows: obligation.borrows_after_repay(
                                liquidity_index,
                                calc.settle_amount,
                                calc.settle_value,
                            ),
                            deposits: obligation.deposits_after_withdraw(
                                collateral_index,
                                calc.withdraw_amount,
                                calc.withdraw_value,
                            ),
                            borrowed_value: obligation.borrowed_value.saturating_sub_spec(
                                calc.settle_value,
                            ),
                            deposited_value: obligation.deposited_value.saturating_sub_spec(
                                calc.withdraw_value,
                            ),
                            last_update: LastUpdate {
                                slot: obligation.last_update.slot,
                                stale: true,
                            },
                            ..obligation
                        },
                        repaid,
                        calc,
                    ),
                ),
            }
        },
    }
}

/// Liquidates part of an unhealthy obligation: the liquidator repays debt to
/// `repay_reserve` and gets collateral of `withdraw_reserve` worth that debt
/// plus a bonus. Both reserves and the obligation have to be fresh at
/// `current_slot`. `ObligationHealthy` unless the value of the debt exceeds
/// the value from which the obligation can be liquidated. On an error the
/// obligation and the reserve are left as they were.
pub fn liquidate_obligation(
    obligation: &mut Obligation,
    repay_reserve_key: Pubkey,
    repay_reserve: &mut Reserve,
    withdraw_reserve_key: Pubkey,
    withdraw_reserve: &Reserve,
    amount: Amount,
    current_slot: u64,
    params: &MarketParams,
) -> (r: Result<CalculateLiquidationResult, LendingError>)
    ensures
        match liquidate_obligation_spec(
            old(obligation)@,
            repay_reserve_key,
            *old(repay_reserve),
            withdraw_reserve_key,
            *withdraw_reserve,
            amount,
            current_slot,
            params.liquidation_close_factor,
            params.severe_margin,
        ) {
            Ok((after, repaid, calc)) => r == Ok::<CalculateLiquidationResult, LendingError>(calc)
                && final(obligation)@ == after && *final(repay_reserve) == repaid,
            Err(e) => r == Err::<CalculateLiquidationResult, LendingError>(e)
                && final(obligation)@ == old(obligation)@ && *final(repay_reserve) == *old(
                repay_reserve,
            ),
        },
        old(obligation)@.well_formed() ==> final(obligation)@.well_formed(),
{
    match amount {
        Amount::Exact(asked) => {
            if asked == 0 {
                return Err(LendingError::InvalidAmount);
            }
        },
        Amount::Max => {},
    }
    match check_fresh(&repay_reserve.last_update, current_slot, LendingError::ReserveStale) {
        Ok(_) => {},
        Err(e) => {
            return Err(e);
        },
    }
    match check_fresh(&withdraw_reserve.last_update, current_slot, LendingError::ReserveStale) {
        Ok(_) => {},
        Err(e) => {
            return Err(e);
        },
    }
    match check_fresh(&obligation.last_update, current_slot, LendingError::ObligationStale) {
        Ok(_) => {},
        Err(e) => {
            return Err(e);
        },
    }
    if obligation.deposited_value.is_zero() {
        return Err(LendingError::ObligationDepositsZero);
    }
    if obligation.borrowed_value.is_zero() {
        return Err(LendingError::ObligationBorrowsZero);
    }
    if obligation.borrowed_value.le(&obligation.unhealthy_borrow_value) {
        return Err(LendingError::ObligationHealthy);
    }
    let liquidity_index = match obligation.find_liquidity_index(&repay_reserve_key) {
        Some(i) => i,
        None => {
            return Err(LendingError::InvalidObligationLiquidity);
        },
    };
    if obligation.borrows[liquidity_index].market_value.is_zero() {
        return Err(LendingError::ObligationLiquidityEmpty);
    }
    let collateral_index = match obligation.find_collateral_index(&withdraw_reserve_key) {
        Some(i) => i,
        None => {
            return Err(LendingError::InvalidObligationCollateral);
        },
    };
    if obligation.deposits[collateral_index].market_value.is_zero() {
        return Err(LendingError::ObligationCollateralEmpty);
    }
    let calc = match calculate_liquidation(
        amount,
        obligation,
        liquidity_index,
        collateral_index,
        &withdraw_reserve.config,
        params.liquidation_close_factor,
        params.severe_margin,
    ) {
        Ok(v) => v,
        Err(e) => {
            return Err(e);
        },
    };
    if calc.withdraw_amount > obligation.deposits[collateral_index].deposited_amount {
        return Err(LendingError::MathOverflow);
    }
    let mut repaid = *repay_reserve;
    match repaid.repay(calc.repay_amount, calc.settle_amount) {
        Ok(_) => {},
        Err(e) => {
            return Err(e);
        },
    }
    obligation.repay(liquidity_index, calc.settle_amount, calc.settle_value);
    obligation.withdraw(collateral_index, calc.withdraw_amount, calc.withdraw_value);
    obligation.borrowed_value = obligation.borrowed_value.saturating_sub(calc.settle_value);
    obligation.deposited_value = obligation.deposited_value.saturating_sub(calc.withdraw_value);
    obligation.last_update.mark_stale();
    *repay_reserve = repaid;
    Ok(calc)
}

/// A liquidation succeeds only on an obligation whose debt is worth more
/// than the value from which it can be liquidated. It then either seizes
/// collateral worth the value of the settled debt times one plus the bonus,
/// or it seizes all the collateral that the obligation holds in the reserve.
/// The debt of the obligation and of the reserve go down by what was
/// settled.
pub proof fn lemma_liquidation_invariant(
    obligation: ObligationView,
    repay_reserve_key: Pubkey,
    repay_reserve: Reserve,
    withdraw_reserve_key: Pubkey,
    withdraw_reserve: Reserve,
    amount: Amount,
    current_slot: u64,
    close_factor: u8,
    severe_margin: u8,
)
    requires
        liquidate_obligation_spec(
            obligation,
            repay_reserve_key,
            repay_reserve,
            withdraw_reserve_key,
            withdraw_reserve,
            amount,
            current_slot,
            close_factor,
            severe_margin,
        ) is Ok,
    ensures
        obligation.borrowed_value@ > obligation.unhealthy_borrow_value@,
        ({
            let after = liquidate_obligation_spec(
                obligation,
                repay_reserve_key,
                repay_reserve,
                withdraw_reserve_key,
                withdraw_reserve,
                amount,
                current_slot,
                close_factor,
                severe_margin,
            )->Ok_0;
            let calc = after.2;
            let collateral = obligation.deposits[collateral_index_from(
                obligation.deposits,
                withdraw_reserve_key,
                0,
            )->0 as int];
            &&& (calc.withdraw_amount == collateral.deposited_amount
                || calc.settle_value.try_mul_spec(calc.bonus_rate) == Ok::<Decimal, LendingError>(
                calc.withdraw_value,
            ))
            &&& calc.withdraw_amount <= collateral.deposited_amount
            &&& after.0.borrowed_value == obligation.borrowed_value.saturating_sub_spec(
                calc.settle_value,
            )
            &&& after.1.liquidity.borrowed_amount_wads
                == repay_reserve.liquidity.borrowed_amount_wads.saturating_sub_spec(
                calc.settle_amount,
            )
            &&& after.1.liquidity.available_amount == repay_reserve.liquidity.available_amount
                + calc.repay_amount
        }),
{
    let li = liquidity_index_from(obligation.borrows, repay_reserve_key, 0)->0 as int;
    let ci = collateral_index_from(obligation.deposits, withdraw_reserve_key, 0)->0 as int;
    lemma_liquidation_is_proportional_or_exhausts(
        amount,
        obligation,
        obligation.borrows[li],
        obligation.deposits[ci],
        withdraw_reserve.config,
        close_factor,
        severe_margin,
    );
}


/// The reserve that `params` describe after its first deposit of
/// `liquidity_amount`, and the collateral shares minted for that deposit.
pub open spec fn init_reserve_spec(params: InitReserveParams, liquidity_amount: u64) -> Result<
    (Reserve, u64),
    LendingError,
> {
    if !params.config.is_valid() {
        Err(LendingError::InvalidConfig)
    } else {
        Reserve::new_spec(params).deposit_liquidity_spec(liquidity_amount)
    }
}

/// Makes a reserve and takes its first deposit. `InvalidConfig` where the
/// terms are not ones a reserve can have, `InvalidAmount` for a first
/// deposit of nothing.
pub fn init_reserve(params: InitReserveParams, liquidity_amount: u64) -> (r: Result<
    (Reserve, u64),
    LendingError,
>)
    ensures
        r == init_reserve_spec(params, liquidity_amount),
        r is Ok ==> r->Ok_0.0.at_par() && r->Ok_0.1 == liquidity_amount,
{
    match params.config.validate() {
        Ok(_) => {},
        Err(e) => {
            return Err(e);
        },
    }
    let mut reserve = Reserve::new(params);
    proof {
        if Reserve::new_spec(params).deposit_liquidity_spec(liquidity_amount) is Ok {
            crate::state::reserve::lemma_deposit_at_par(
                Reserve::new_spec(params),
                liquidity_amount,
            );
        }
    }
    match reserve.deposit_liquidity(liquidity_amount) {
        Ok(shares) => Ok((reserve, shares)),
        Err(e) => Err(e),
    }
}

/// Gives the reserve new terms. `InvalidConfig` where they are not ones a
/// reserve can have, and the reserve is then left as it was.
pub fn update_reserve_config(reserve: &mut Reserve, config: ReserveConfig) -> (r: Result<
    (),
    LendingError,
>)
    ensures
        r == (if config.is_valid() {
            Ok::<(), LendingError>(())
        } else {
            Err(LendingError::InvalidConfig)
        }),
        config.is_valid() ==> *final(reserve) == (Reserve {
            config,
            last_update: LastUpdate { slot: old(reserve).last_update.slot, stale: true },
            ..*old(reserve)
        }),
        !config.is_valid() ==> *final(reserve) == *old(reserve),
{
    match config.validate() {
        Ok(_) => {},
        Err(e) => {
            return Err(e);
        },
    }
    reserve.config = config;
    reserve.last_update.mark_stale();
    Ok(())
}

} // verus!
