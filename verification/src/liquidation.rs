//! What a liquidation repays and what it seizes.

use crate::amount::Amount;
use crate::error::LendingError;
use crate::math::decimal::{scaled, Decimal, PERCENT_SCALER, WAD};
use crate::math::uint192::modulus;
use crate::state::obligation::{
    Obligation, ObligationCollateral, ObligationLiquidity, ObligationView,
};
use crate::state::reserve::ReserveConfig;
use vstd::prelude::*;
use vstd::std_specs::convert::FromSpec;

verus! {

broadcast use crate::math::decimal::lemma_scaled_view;

/// Part of a debt that one liquidation may close while the obligation is not
/// severely unhealthy, in percent.
pub const LIQUIDATION_CLOSE_FACTOR: u8 = 20;

/// What a liquidation comes to.
#[derive(Clone, Copy, Debug, PartialEq, Eq, Structural)]
pub struct CalculateLiquidationResult {
    /// Debt that is settled.
    pub settle_amount: Decimal,
    /// Liquidity the liquidator pays: the settled debt rounded up.
    pub repay_amount: u64,
    /// Collateral shares the liquidator gets, rounded down.
    pub withdraw_amount: u64,
    /// Value of the settled debt in the quote currency.
    pub settle_value: Decimal,
    /// Value of the collateral that is seized.
    pub withdraw_value: Decimal,
    /// One plus the bonus that applied.
    pub bonus_rate: Decimal,
}

/// Whether the obligation is severely unhealthy. It is where some reserve
/// sets an upper liquidation threshold above its liquidation threshold and
/// the debt has reached the value that these upper thresholds give. It also
/// is where a margin is set (`severe_margin` percent, zero for none) and the
/// debt has reached the value from which the obligation can be liquidated
/// plus that margin.
pub open spec fn is_severely_unhealthy(obligation: ObligationView, severe_margin: u8) -> bool {
    ||| (obligation.super_unhealthy_borrow_value@ > obligation.unhealthy_borrow_value@
        && obligation.borrowed_value@ >= obligation.super_unhealthy_borrow_value@)
    ||| (severe_margin > 0 && obligation.unhealthy_borrow_value@ * ((100 + severe_margin) as nat)
        < modulus() && obligation.borrowed_value@ >= obligation.unhealthy_borrow_value@ * ((100
        + severe_margin) as nat) / 100)
}

/// The part of a debt that one liquidation may close: all of it where the
/// obligation is severely unhealthy, else `close_factor` percent.
pub open spec fn close_factor_spec(
    obligation: ObligationView,
    close_factor: u8,
    severe_margin: u8,
) -> Decimal {
    if is_severely_unhealthy(obligation, severe_margin) {
        scaled(WAD as nat)
    } else {
        scaled((close_factor as nat) * (PERCENT_SCALER as nat))
    }
}

/// One plus the liquidator's bonus: the upper bonus of the reserve whose
/// collateral is seized where the obligation is severely unhealthy, else its
/// bonus.
pub open spec fn bonus_rate_spec(
    obligation: ObligationView,
    withdraw_config: ReserveConfig,
    severe_margin: u8,
) -> Decimal {
    if is_severely_unhealthy(obligation, severe_margin) {
        scaled((WAD + (withdraw_config.max_liquidation_bonus as nat) * (PERCENT_SCALER as nat)) as nat)
    } else {
        scaled((WAD + (withdraw_config.liquidation_bonus as nat) * (PERCENT_SCALER as nat)) as nat)
    }
}

/// The most debt that a liquidation asked for `amount` may settle: what was
/// asked for, but no more than the debt nor than the closeable part of it.
pub open spec fn max_liquidation_amount_spec(
    amount: Amount,
    obligation: ObligationView,
    liquidity: ObligationLiquidity,
    close_factor: u8,
    severe_margin: u8,
) -> Result<Decimal, LendingError> {
    match liquidity.borrowed_amount_wads.try_mul_spec(close_factor_spec(obligation, close_factor, severe_margin)) {
        Err(e) => Err(e),
        Ok(closeable) => {
            let cap = closeable.min_spec(liquidity.borrowed_amount_wads);
            match amount {
                Amount::Exact(asked) => Ok(Decimal::from_spec(asked).min_spec(cap)),
                Amount::Max => Ok(cap),
            }
        },
    }
}

/// What a liquidation of `amount` comes to, for the debt `liquidity` and the
/// collateral `collateral` of an obligation.
///
/// The debt to settle is valued at its share of the debt's market value;
/// the collateral to seize is worth that value times one plus the bonus.
/// Where the obligation holds less of this collateral, all of it is seized
/// and the debt settled is what that collateral's value pays for at the
/// bonus. The liquidator pays the settled debt rounded up and gets the
/// collateral shares rounded down.
pub open spec fn calculate_liquidation_spec(
    amount: Amount,
    obligation: ObligationView,
    liquidity: ObligationLiquidity,
    collateral: ObligationCollateral,
    withdraw_config: ReserveConfig,
    close_factor: u8,
    severe_margin: u8,
) -> Result<CalculateLiquidationResult, LendingError> {
    let bonus_rate = bonus_rate_spec(obligation, withdraw_config, severe_margin);
    match max_liquidation_amount_spec(
        amount,
        obligation,
        liquidity,
        close_factor,
        severe_margin,
    ) {
        Err(e) => Err(e),
        Ok(max_amount) => match max_amount.try_div_spec(liquidity.borrowed_amount_wads) {
            Err(e) => Err(e),
            Ok(share) => match liquidity.market_value.try_mul_spec(share) {
                Err(e) => Err(e),
                Ok(full_value) => match full_value.try_mul_spec(bonus_rate) {
                    Err(e) => Err(e),
                    Ok(full_withdraw) => if full_withdraw@ > collateral.market_value@ {
                        seize_all_spec(max_amount, liquidity, collateral, bonus_rate)
                    } else {
                        seize_part_spec(
                            max_amount,
                            full_value,
                            full_withdraw,
                            collateral,
                            bonus_rate,
                        )
                    },
                },
            },
        },
    }
}

/// The liquidation that seizes all of the collateral, worth less than the
/// debt that could be settled would pay for.
pub open spec fn seize_all_spec(
    max_amount: Decimal,
    liquidity: ObligationLiquidity,
    collateral: ObligationCollateral,
    bonus_rate: Decimal,
) -> Result<CalculateLiquidationResult, LendingError> {
    match collateral.market_value.try_div_spec(bonus_rate) {
        Err(e) => Err(e),
        Ok(settle_value) => match settle_value.try_div_spec(liquidity.market_value) {
            Err(e) => Err(e),
            Ok(part) => match liquidity.borrowed_amount_wads.try_mul_spec(part) {
                Err(e) => Err(e),
                Ok(settled) => finish_spec(
                    settled.min_spec(max_amount),
                    collateral.deposited_amount,
                    settle_value,
                    collateral.market_value,
                    bonus_rate,
                ),
            },
        },
    }
}

/// The liquidation that settles all it may and seizes the part of the
/// collateral that pays for it.
pub open spec fn seize_part_spec(
    max_amount: Decimal,
    settle_value: Decimal,
    withdraw_value: Decimal,
    collateral: ObligationCollateral,
    bonus_rate: Decimal,
) -> Result<CalculateLiquidationResult, LendingError> {
    match withdraw_value.try_div_spec(collateral.market_value) {
        Err(e) => Err(e),
        Ok(part) => match part.try_mul_u64_spec(collateral.deposited_amount) {
            Err(e) => Err(e),
            Ok(shares) => match shares.try_floor_u64_spec() {
                Err(e) => Err(e),
                Ok(whole) => finish_spec(
                    max_amount,
                    if whole <= collateral.deposited_amount {
                        whole
                    } else {
                        collateral.deposited_amount
                    },
                    settle_value,
                    withdraw_value,
                    bonus_rate,
                ),
            },
        },
    }
}

/// The result of a liquidation that settles `settle_amount`: refused where
/// that is less than one unit of debt.
pub open spec fn finish_spec(
    settle_amount: Decimal,
    withdraw_amount: u64,
    settle_value: Decimal,
    withdraw_value: Decimal,
    bonus_rate: Decimal,
) -> Result<CalculateLiquidationResult, LendingError> {
    if settle_amount@ < WAD {
        Err(LendingError::LiquidateObligationZero)
    } else {
        match settle_amount.try_ceil_u64_spec() {
            Err(e) => Err(e),
            Ok(repay_amount) => Ok(
                CalculateLiquidationResult {
                    settle_amount,
                    repay_amount,
                    withdraw_amount,
                    settle_value,
                    withdraw_value,
                    bonus_rate,
                },
            ),
        }
    }
}

/// Whether an obligation with these values is severely unhealthy, given
/// the margin `severe_margin` in percent.
pub fn severely_unhealthy(
    borrowed_value: Decimal,
    unhealthy_borrow_value: Decimal,
    super_unhealthy_borrow_value: Decimal,
    severe_margin: u8,
) -> (r: bool)
    ensures
        r == ((super_unhealthy_borrow_value@ > unhealthy_borrow_value@ && borrowed_value@
            >= super_unhealthy_borrow_value@) || (severe_margin > 0 && unhealthy_borrow_value@ * ((
        100 + severe_margin) as nat) < modulus() && borrowed_value@ >= unhealthy_borrow_value@ * ((
        100 + severe_margin) as nat) / 100)),
{
    if super_unhealthy_borrow_value.gt(&unhealthy_borrow_value) && borrowed_value.ge(
        &super_unhealthy_borrow_value,
    ) {
        return true;
    }
    if severe_margin == 0 {
        return false;
    }
    match unhealthy_borrow_value.try_mul_u64(100 + severe_margin as u64) {
        Ok(scaled_up) => match scaled_up.try_div_u64(100) {
            Ok(limit) => borrowed_value.ge(&limit),
            Err(_) => false,
        },
        Err(_) => false,
    }
}

fn finish(
    settle_amount: Decimal,
    withdraw_amount: u64,
    settle_value: Decimal,
    withdraw_value: Decimal,
    bonus_rate: Decimal,
) -> (r: Result<CalculateLiquidationResult, LendingError>)
    ensures
        r == finish_spec(settle_amount, withdraw_amount, settle_value, withdraw_value, bonus_rate),
{
    if settle_amount.lt(&Decimal::one()) {
        return Err(LendingError::LiquidateObligationZero);
    }
    match settle_amount.try_ceil_u64() {
        Err(e) => Err(e),
        Ok(repay_amount) => Ok(
            CalculateLiquidationResult {
                settle_amount,
                repay_amount,
                withdraw_amount,
                settle_value,
                withdraw_value,
                bonus_rate,
            },
        ),
    }
}

/// What a liquidation of `amount` comes to, for the debt at `liquidity_index`
/// and the collateral at `collateral_index` of the obligation.
/// `LiquidateObligationZero` where less than one unit of debt would be
/// settled, `MathOverflow` where the debt or the collateral is worth nothing
/// or a step does not fit.
pub fn calculate_liquidation(
    amount: Amount,
    obligation: &Obligation,
    liquidity_index: usize,
    collateral_index: usize,
    withdraw_config: &ReserveConfig,
    close_factor: u8,
    severe_margin: u8,
) -> (r: Result<CalculateLiquidationResult, LendingError>)
    requires
        liquidity_index < obligation@.borrows.len(),
        collateral_index < obligation@.deposits.len(),
    ensures
        r == calculate_liquidation_spec(
            amount,
            obligation@,
            obligation@.borrows[liquidity_index as int],
            obligation@.deposits[collateral_index as int],
            *withdraw_config,
            close_factor,
            severe_margin,
        ),
{
    let severe = severely_unhealthy(
        obligation.borrowed_value,
        obligation.unhealthy_borrow_value,
        obligation.super_unhealthy_borrow_value,
        severe_margin,
    );
    let liquidity = obligation.borrows[liquidity_index];
    let collateral = obligation.deposits[collateral_index];
    let factor = if severe {
        Decimal::one()
    } else {
        Decimal::from_percent(close_factor)
    };
    let bonus: u8 = if severe {
        withdraw_config.max_liquidation_bonus
    } else {
        withdraw_config.liquidation_bonus
    };
    let bonus_rate = Decimal::from_scaled_val(
        WAD as u128 + (bonus as u128) * (PERCENT_SCALER as u128),
    );
    let closeable = match liquidity.borrowed_amount_wads.try_mul(factor) {
        Ok(v) => v,
        Err(e) => {
            return Err(e);
        },
    };
    let cap = closeable.min(liquidity.borrowed_amount_wads);
    let max_amount = match amount {
        Amount::Exact(asked) => Decimal::from(asked).min(cap),
        Amount::Max => cap,
    };
    let share = match max_amount.try_div(liquidity.borrowed_amount_wads) {
        Ok(v) => v,
        Err(e) => {
            return Err(e);
        },
    };
    let full_value = match liquidity.market_value.try_mul(share) {
        Ok(v) => v,
        Err(e) => {
            return Err(e);
        },
    };
    let full_withdraw = match full_value.try_mul(bonus_rate) {
        Ok(v) => v,
        Err(e) => {
            return Err(e);
        },
    };
    if full_withdraw.gt(&collateral.market_value) {
        let settle_value = match collateral.market_value.try_div(bonus_rate) {
            Ok(v) => v,
            Err(e) => {
                return Err(e);
            },
        };
        let part = match settle_value.try_div(liquidity.market_value) {
            Ok(v) => v,
            Err(e) => {
                return Err(e);
            },
        };
        let settled = match liquidity.borrowed_amount_wads.try_mul(part) {
            Ok(v) => v,
            Err(e) => {
                return Err(e);
            },
        };
        finish(
            settled.min(max_amount),
            collateral.deposited_amount,
            settle_value,
            collateral.market_value,
            bonus_rate,
        )
    } else {
        let part = match full_withdraw.try_div(collateral.market_value) {
            Ok(v) => v,
            Err(e) => {
                return Err(e);
            },
        };
        let shares = match part.try_mul_u64(collateral.deposited_amount) {
            Ok(v) => v,
            Err(e) => {
                return Err(e);
            },
        };
        let whole = match shares.try_floor_u64() {
            Ok(v) => v,
            Err(e) => {
                return Err(e);
            },
        };
        let withdraw_amount = if whole <= collateral.deposited_amount {
            whole
        } else {
            collateral.deposited_amount
        };
        finish(max_amount, withdraw_amount, full_value, full_withdraw, bonus_rate)
    }
}

/// A liquidation either seizes collateral worth the settled debt's value
/// times one plus the bonus, or it seizes all the collateral of the reserve
/// that the obligation holds. It never settles more than it was asked to,
/// more than the debt, or more than the closeable part of the debt, and the
/// liquidator pays at least one unit.
pub proof fn lemma_liquidation_is_proportional_or_exhausts(
    amount: Amount,
    obligation: ObligationView,
    liquidity: ObligationLiquidity,
    collateral: ObligationCollateral,
    withdraw_config: ReserveConfig,
    close_factor: u8,
    severe_margin: u8,
)
    requires
        calculate_liquidation_spec(
            amount,
            obligation,
            liquidity,
            collateral,
            withdraw_config,
            close_factor,
            severe_margin,
        ) is Ok,
    ensures
        ({
            let result = calculate_liquidation_spec(
                amount,
                obligation,
                liquidity,
                collateral,
                withdraw_config,
                close_factor,
                severe_margin,
            )->Ok_0;
            &&& (result.withdraw_amount == collateral.deposited_amount
                || result.settle_value.try_mul_spec(result.bonus_rate) == Ok::<
                Decimal,
                LendingError,
            >(result.withdraw_value))
            &&& result.bonus_rate == bonus_rate_spec(obligation, withdraw_config, severe_margin)
            &&& result.withdraw_amount <= collateral.deposited_amount
            &&& result.withdraw_value@ <= collateral.market_value@
            &&& result.settle_amount@ <= liquidity.borrowed_amount_wads@
            &&& amount matches Amount::Exact(asked) ==> result.settle_amount@ <= (asked as nat)
                * (WAD as nat)
            &&& result.repay_amount >= 1
        }),
{
    crate::state::reserve::lemma_limit_below_modulus(
        match amount {
            Amount::Exact(asked) => asked,
            Amount::Max => 0,
        },
    );
}

} // verus!
