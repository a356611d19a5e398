//! Refreshing an obligation: revaluing its collateral and its debts from
//! the reserves they belong to.

use crate::error::LendingError;
use crate::math::decimal::{scaled, Decimal};
use crate::operations::{percent_of, percent_of_spec, MarketParams};
use crate::pubkey::Pubkey;
use crate::state::last_update::LastUpdate;
use crate::state::obligation::{
    Obligation, ObligationCollateral, ObligationLiquidity, ObligationView,
};
use crate::state::reserve::{Reserve, ReserveConfig};
use vstd::prelude::*;

verus! {

broadcast use crate::math::decimal::lemma_scaled_view;

/// A reserve together with the address of its account.
#[derive(Clone, Copy, Debug, PartialEq, Eq)]
pub struct KeyedReserve {
    /// Address of the reserve's account.
    pub key: Pubkey,
    /// The reserve.
    pub reserve: Reserve,
}

/// The values that an obligation has from its collateral.
#[derive(Clone, Copy, Debug, PartialEq, Eq, Structural)]
pub struct DepositTotals {
    /// Value of all collateral.
    pub deposited_value: Decimal,
    /// Sum of each deposit's value times its loan-to-value ratio.
    pub allowed_borrow_value: Decimal,
    /// Sum of each deposit's value times its liquidation threshold.
    pub unhealthy_borrow_value: Decimal,
    /// Sum of each deposit's value times its upper liquidation threshold.
    pub super_unhealthy_borrow_value: Decimal,
}

/// `Ok` where `reserve` is the reserve with address `expected` and is fresh
/// at `slot` but for `slack` slots; `InvalidAccountInput` for another
/// reserve, `ReserveStale` for a stale one.
pub open spec fn check_reserve_spec(keyed: KeyedReserve, expected: Pubkey, slot: u64, slack: u64) -> Result<
    (),
    LendingError,
> {
    if keyed.key != expected {
        Err(LendingError::InvalidAccountInput)
    } else {
        match keyed.reserve.last_update.is_stale_spec(slot, slack) {
            Err(e) => Err(e),
            Ok(stale) => if stale {
                Err(LendingError::ReserveStale)
            } else {
                Ok(())
            },
        }
    }
}

/// The collateral with its value brought up to date: its shares, in units
/// of liquidity at the reserve's exchange rate, at the reserve's price.
#[verifier::opaque]
pub open spec fn refreshed_collateral_spec(
    collateral: ObligationCollateral,
    keyed: KeyedReserve,
    slot: u64,
    slack: u64,
) -> Result<ObligationCollateral, LendingError> {
    match check_reserve_spec(keyed, collateral.deposit_reserve, slot, slack) {
        Err(e) => Err(e),
        Ok(_) => match keyed.reserve.liquidity_per_collateral_spec() {
            Err(e) => Err(e),
            Ok(rate) => match rate.try_mul_u64_spec(collateral.deposited_amount) {
                Err(e) => Err(e),
                Ok(liquidity) => match keyed.reserve.market_value_spec(liquidity) {
                    Err(e) => Err(e),
                    Ok(market_value) => Ok(ObligationCollateral { market_value, ..collateral }),
                },
            },
        },
    }
}

/// The debt with interest accrued up to the reserve's cumulative rate and
/// its value brought up to date: the debt at the reserve's price, with the
/// reserve's borrow weight.
#[verifier::opaque]
pub open spec fn refreshed_liquidity_spec(
    liquidity: ObligationLiquidity,
    keyed: KeyedReserve,
    slot: u64,
    slack: u64,
) -> Result<ObligationLiquidity, LendingError> {
    match check_reserve_spec(keyed, liquidity.borrow_reserve, slot, slack) {
        Err(e) => Err(e),
        Ok(_) => match liquidity.accrue_interest_spec(
            keyed.reserve.liquidity.cumulative_borrow_rate_wads,
        ) {
            Err(e) => Err(e),
            Ok(accrued) => match keyed.reserve.weighted_value_spec(accrued.borrowed_amount_wads) {
                Err(e) => Err(e),
                Ok(market_value) => Ok(ObligationLiquidity { market_value, ..accrued }),
            },
        },
    }
}

/// The totals with a deposit worth `value` added, under the terms `config`
/// of its reserve.
#[verifier::opaque]
pub open spec fn add_deposit_spec(totals: DepositTotals, value: Decimal, config: ReserveConfig) -> Result<
    DepositTotals,
    LendingError,
> {
    match totals.deposited_value.try_add_spec(value) {
        Err(e) => Err(e),
        Ok(deposited_value) => match percent_of_spec(value, config.loan_to_value_ratio) {
            Err(e) => Err(e),
            Ok(allowed) => match totals.allowed_borrow_value.try_add_spec(allowed) {
                Err(e) => Err(e),
                Ok(allowed_borrow_value) => match percent_of_spec(
                    value,
                    config.liquidation_threshold,
                ) {
                    Err(e) => Err(e),
                    Ok(unhealthy) => match totals.unhealthy_borrow_value.try_add_spec(unhealthy) {
                        Err(e) => Err(e),
                        Ok(unhealthy_borrow_value) => match percent_of_spec(
                            value,
                            config.max_liquidation_threshold,
                        ) {
                            Err(e) => Err(e),
                            Ok(severe) => match totals.super_unhealthy_borrow_value.try_add_spec(
                                severe,
                            ) {
                                Err(e) => Err(e),
                                Ok(super_unhealthy_borrow_value) => Ok(
                                    DepositTotals {
                                        deposited_value,
                                        allowed_borrow_value,
                                        unhealthy_borrow_value,
                                        super_unhealthy_borrow_value,
                                    },
                                ),
                            },
                        },
                    },
                },
            },
        },
    }
}

/// The first `n` deposits brought up to date from the first `n` reserves,
/// in order, and the totals over them.
pub open spec fn refresh_deposits_spec(
    deposits: Seq<ObligationCollateral>,
    reserves: Seq<KeyedReserve>,
    slot: u64,
    slack: u64,
    n: nat,
) -> Result<(Seq<ObligationCollateral>, DepositTotals), LendingError>
    decreases n,
{
    if n == 0 {
        Ok(
            (
                Seq::<ObligationCollateral>::empty(),
                DepositTotals {
                    deposited_value: scaled(0),
                    allowed_borrow_value: scaled(0),
                    unhealthy_borrow_value: scaled(0),
                    super_unhealthy_borrow_value: scaled(0),
                },
            ),
        )
    } else {
        match refresh_deposits_spec(deposits, reserves, slot, slack, (n - 1) as nat) {
            Err(e) => Err(e),
            Ok(before) => match refreshed_collateral_spec(
                deposits[n - 1],
                reserves[n - 1],
                slot,
                slack,
            ) {
                Err(e) => Err(e),
                Ok(collateral) => match add_deposit_spec(
                    before.1,
                    collateral.market_value,
                    reserves[n - 1].reserve.config,
                ) {
                    Err(e) => Err(e),
                    Ok(totals) => Ok((before.0.push(collateral), totals)),
                },
            },
        }
    }
}

/// The first `n` borrows brought up to date from the `n` reserves that
/// follow the first `offset` ones, in order, and the value of these debts.
pub open spec fn refresh_borrows_spec(
    borrows: Seq<ObligationLiquidity>,
    reserves: Seq<KeyedReserve>,
    offset: nat,
    slot: u64,
    slack: u64,
    n: nat,
) -> Result<(Seq<ObligationLiquidity>, Decimal), LendingError>
    decreases n,
{
    if n == 0 {
        Ok((Seq::<ObligationLiquidity>::empty(), scaled(0)))
    } else {
        match refresh_borrows_spec(borrows, reserves, offset, slot, slack, (n - 1) as nat) {
            Err(e) => Err(e),
            Ok(before) => match refreshed_liquidity_spec(
                borrows[n - 1],
                reserves[offset + n - 1],
                slot,
                slack,
            ) {
                Err(e) => Err(e),
                Ok(liquidity) => match before.1.try_add_spec(liquidity.market_value) {
                    Err(e) => Err(e),
                    Ok(total) => Ok((before.0.push(liquidity), total)),
                },
            },
        }
    }
}

/// The obligation after a refresh at `slot` from `reserves`: the reserves of
/// its deposits, in order, followed by the reserves of its borrows, in
/// order.
pub open spec fn refresh_obligation_spec(
    obligation: ObligationView,
    reserves: Seq<KeyedReserve>,
    slot: u64,
    slack: u64,
) -> Result<ObligationView, LendingError> {
    if reserves.len() != obligation.deposits.len() + obligation.borrows.len() {
        Err(LendingError::InvalidAccountInput)
    } else {
        match refresh_deposits_spec(
            obligation.deposits,
            reserves,
            slot,
            slack,
            obligation.deposits.len(),
        ) {
            Err(e) => Err(e),
            Ok(deposits) => match refresh_borrows_spec(
                obligation.borrows,
                reserves,
                obligation.deposits.len(),
                slot,
                slack,
                obligation.borrows.len(),
            ) {
                Err(e) => Err(e),
                Ok(borrows) => Ok(
                    ObligationView {
                        deposits: deposits.0,
                        borrows: borrows.0,
                        deposited_value: deposits.1.deposited_value,
                        borrowed_value: borrows.1,
                        allowed_borrow_value: deposits.1.allowed_borrow_value,
                        unhealthy_borrow_value: deposits.1.unhealthy_borrow_value,
                        super_unhealthy_borrow_value: deposits.1.super_unhealthy_borrow_value,
                        last_update: LastUpdate { slot, stale: false },
                        ..obligation
                    },
                ),
            },
        }
    }
}

/// Once the refresh of the deposits fails it fails for every longer prefix.
pub proof fn lemma_refresh_deposits_failure_stays(
    deposits: Seq<ObligationCollateral>,
    reserves: Seq<KeyedReserve>,
    slot: u64,
    slack: u64,
    k: nat,
    n: nat,
)
    requires
        k <= n,
        refresh_deposits_spec(deposits, reserves, slot, slack, k) is Err,
    ensures
        refresh_deposits_spec(deposits, reserves, slot, slack, n) == refresh_deposits_spec(
            deposits,
            reserves,
            slot,
            slack,
            k,
        ),
    decreases n,
{
    if n > k {
        lemma_refresh_deposits_failure_stays(deposits, reserves, slot, slack, k, (n - 1) as nat);
    }
}

/// Once the refresh of the borrows fails it fails for every longer prefix.
pub proof fn lemma_refresh_borrows_failure_stays(
    borrows: Seq<ObligationLiquidity>,
    reserves: Seq<KeyedReserve>,
    offset: nat,
    slot: u64,
    slack: u64,
    k: nat,
    n: nat,
)
    requires
        k <= n,
        refresh_borrows_spec(borrows, reserves, offset, slot, slack, k) is Err,
    ensures
        refresh_borrows_spec(borrows, reserves, offset, slot, slack, n) == refresh_borrows_spec(
            borrows,
            reserves,
            offset,
            slot,
            slack,
            k,
        ),
    decreases n,
{
    if n > k {
        lemma_refresh_borrows_failure_stays(
            borrows,
            reserves,
            offset,
            slot,
            slack,
            k,
            (n - 1) as nat,
        );
    }
}

/// A refresh keeps the deposits in their order, each with its reserve and
/// its shares.
pub proof fn lemma_refresh_deposits_shape(
    deposits: Seq<ObligationCollateral>,
    reserves: Seq<KeyedReserve>,
    slot: u64,
    slack: u64,
    n: nat,
)
    requires
        n <= deposits.len(),
        refresh_deposits_spec(deposits, reserves, slot, slack, n) is Ok,
    ensures
        ({
            let after = refresh_deposits_spec(deposits, reserves, slot, slack, n)->Ok_0.0;
            &&& after.len() == n
            &&& forall|i: int|
                0 <= i < n ==> (#[trigger] after[i]).deposit_reserve == deposits[i].deposit_reserve
                    && after[i].deposited_amount == deposits[i].deposited_amount
        }),
    decreases n,
{
    reveal(refreshed_collateral_spec);
    if n > 0 {
        lemma_refresh_deposits_shape(deposits, reserves, slot, slack, (n - 1) as nat);
    }
}

/// A refresh keeps the borrows in their order, each with its reserve.
pub proof fn lemma_refresh_borrows_shape(
    borrows: Seq<ObligationLiquidity>,
    reserves: Seq<KeyedReserve>,
    offset: nat,
    slot: u64,
    slack: u64,
    n: nat,
)
    requires
        n <= borrows.len(),
        refresh_borrows_spec(borrows, reserves, offset, slot, slack, n) is Ok,
    ensures
        ({
            let after = refresh_borrows_spec(borrows, reserves, offset, slot, slack, n)->Ok_0.0;
            &&& after.len() == n
            &&& forall|i: int|
                0 <= i < n ==> (#[trigger] after[i]).borrow_reserve == borrows[i].borrow_reserve
        }),
    decreases n,
{
    reveal(refreshed_liquidity_spec);
    if n > 0 {
        lemma_refresh_borrows_shape(borrows, reserves, offset, slot, slack, (n - 1) as nat);
    }
}

fn check_reserve(keyed: &KeyedReserve, expected: &Pubkey, slot: u64, slack: u64) -> (r: Result<
    (),
    LendingError,
>)
    ensures
        r == check_reserve_spec(*keyed, *expected, slot, slack),
{
    if !keyed.key.key_eq(expected) {
        return Err(LendingError::InvalidAccountInput);
    }
    match keyed.reserve.last_update.is_stale(slot, slack) {
        Err(e) => Err(e),
        Ok(stale) => if stale {
            Err(LendingError::ReserveStale)
        } else {
            Ok(())
        },
    }
}

/// Brings the value of `collateral` up to date from its reserve.
pub fn refreshed_collateral(
    collateral: &ObligationCollateral,
    keyed: &KeyedReserve,
    slot: u64,
    slack: u64,
) -> (r: Result<ObligationCollateral, LendingError>)
    ensures
        r == refreshed_collateral_spec(*collateral, *keyed, slot, slack),
{
    reveal(refreshed_collateral_spec);
    match check_reserve(keyed, &collateral.deposit_reserve, slot, slack) {
        Ok(_) => {},
        Err(e) => {
            return Err(e);
        },
    }
    let rate = match keyed.reserve.liquidity_per_collateral() {
        Ok(v) => v,
        Err(e) => {
            return Err(e);
        },
    };
    let liquidity = match rate.try_mul_u64(collateral.deposited_amount) {
        Ok(v) => v,
        Err(e) => {
            return Err(e);
        },
    };
    let market_value = match keyed.reserve.market_value(liquidity) {
        Ok(v) => v,
        Err(e) => {
            return Err(e);
        },
    };
    let mut after = *collateral;
    after.market_value = market_value;
    Ok(after)
}

/// Accrues interest on `liquidity` and brings its value up to date from its
/// reserve.
pub fn refreshed_liquidity(
    liquidity: &ObligationLiquidity,
    keyed: &KeyedReserve,
    slot: u64,
    slack: u64,
) -> (r: Result<ObligationLiquidity, LendingError>)
    ensures
        r == refreshed_liquidity_spec(*liquidity, *keyed, slot, slack),
{
    reveal(refreshed_liquidity_spec);
    match check_reserve(keyed, &liquidity.borrow_reserve, slot, slack) {
        Ok(_) => {},
        Err(e) => {
            return Err(e);
        },
    }
    let mut after = *liquidity;
    match after.accrue_interest(keyed.reserve.liquidity.cumulative_borrow_rate_wads) {
        Ok(_) => {},
        Err(e) => {
            return Err(e);
        },
    }
    let market_value = match keyed.reserve.weighted_value(after.borrowed_amount_wads) {
        Ok(v) => v,
        Err(e) => {
            return Err(e);
        },
    };
    after.market_value = market_value;
    Ok(after)
}

fn add_deposit(totals: &DepositTotals, value: Decimal, config: &ReserveConfig) -> (r: Result<
    DepositTotals,
    LendingError,
>)
    ensures
        r == add_deposit_spec(*totals, value, *config),
{
    reveal(add_deposit_spec);
    let deposited_value = match totals.deposited_value.try_add(value) {
        Ok(v) => v,
        Err(e) => {
            return Err(e);
        },
    };
    let allowed = match percent_of(value, config.loan_to_value_ratio) {
        Ok(v) => v,
        Err(e) => {
            return Err(e);
        },
    };
    let allowed_borrow_value = match totals.allowed_borrow_value.try_add(allowed) {
        Ok(v) => v,
        Err(e) => {
            return Err(e);
        },
    };
    let unhealthy = match percent_of(value, config.liquidation_threshold) {
        Ok(v) => v,
        Err(e) => {
            return Err(e);
        },
    };
    let unhealthy_borrow_value = match totals.unhealthy_borrow_value.try_add(unhealthy) {
        Ok(v) => v,
        Err(e) => {
            return Err(e);
        },
    };
    let severe = match percent_of(value, config.max_liquidation_threshold) {
        Ok(v) => v,
        Err(e) => {
            return Err(e);
        },
    };
    let super_unhealthy_borrow_value = match totals.super_unhealthy_borrow_value.try_add(severe) {
        Ok(v) => v,
        Err(e) => {
            return Err(e);
        },
    };
    Ok(
        DepositTotals {
            deposited_value,
            allowed_borrow_value,
            unhealthy_borrow_value,
            super_unhealthy_borrow_value,
        },
    )
}

/// Refreshes an obligation at `current_slot` from `reserves`: the reserves
/// of its deposits, in order, followed by the reserves of its borrows, in
/// order. Every deposit is revalued, interest is accrued on every debt and
/// the debt revalued, and the values of the obligation are summed up anew.
/// `InvalidAccountInput` where the reserves are not those of the obligation,
/// `ReserveStale` where one of them was not refreshed. On an error the
/// obligation is left as it was.
pub fn refresh_obligation(
    obligation: &mut Obligation,
    reserves: &Vec<KeyedReserve>,
    current_slot: u64,
    params: &MarketParams,
) -> (r: Result<(), LendingError>)
    ensures
        match refresh_obligation_spec(
            old(obligation)@,
            reserves@,
            current_slot,
            params.refresh_slack,
        ) {
            Ok(after) => r is Ok && final(obligation)@ == after,
            Err(e) => r == Err::<(), LendingError>(e) && final(obligation)@ == old(obligation)@,
        },
        old(obligation)@.well_formed() ==> final(obligation)@.well_formed(),
{
    let deposit_count = obligation.deposits.len();
    let borrow_count = obligation.borrows.len();
    if reserves.len() < deposit_count || reserves.len() - deposit_count != borrow_count {
        return Err(LendingError::InvalidAccountInput);
    }
    let slack = params.refresh_slack;
    let mut deposits: Vec<ObligationCollateral> = Vec::new();
    let mut totals = DepositTotals {
        deposited_value: Decimal::zero(),
        allowed_borrow_value: Decimal::zero(),
        unhealthy_borrow_value: Decimal::zero(),
        super_unhealthy_borrow_value: Decimal::zero(),
    };
    let mut i: usize = 0;
    while i < deposit_count
        invariant
            i <= deposit_count,
            deposit_count == obligation@.deposits.len(),
            borrow_count == obligation@.borrows.len(),
            deposit_count + borrow_count == reserves@.len(),
            slack == params.refresh_slack,
            *obligation == *old(obligation),
            refresh_deposits_spec(obligation@.deposits, reserves@, current_slot, slack, i as nat)
                == Ok::<(Seq<ObligationCollateral>, DepositTotals), LendingError>(
                (deposits@, totals),
            ),
        decreases deposit_count - i,
    {
        let step = refresh_deposit_at(obligation, reserves, i, &totals, current_slot, slack);
        match step {
            Ok(next) => {
                deposits.push(next.0);
                totals = next.1;
            },
            Err(e) => {
                proof {
                    lemma_refresh_deposits_failure_stays(
                        obligation@.deposits,
                        reserves@,
                        current_slot,
                        slack,
                        (i + 1) as nat,
                        deposit_count as nat,
                    );

                }
                return Err(e);
            },
        }
        i = i + 1;
    }
    let mut borrows: Vec<ObligationLiquidity> = Vec::new();
    let mut borrowed_value = Decimal::zero();
    let mut j: usize = 0;
    while j < borrow_count
        invariant
            j <= borrow_count,
            deposit_count == obligation@.deposits.len(),
            borrow_count == obligation@.borrows.len(),
            deposit_count + borrow_count == reserves@.len(),
            reserves@.len() <= usize::MAX,
            slack == params.refresh_slack,
            *obligation == *old(obligation),
            refresh_deposits_spec(
                obligation@.deposits,
                reserves@,
                current_slot,
                slack,
                deposit_count as nat,
            ) == Ok::<(Seq<ObligationCollateral>, DepositTotals), LendingError>(
                (deposits@, totals),
            ),
            refresh_borrows_spec(
                obligation@.borrows,
                reserves@,
                deposit_count as nat,
                current_slot,
                slack,
                j as nat,
            ) == Ok::<(Seq<ObligationLiquidity>, Decimal), LendingError>(
                (borrows@, borrowed_value),
            ),
        decreases borrow_count - j,
    {
        let step = refresh_borrow_at(obligation, reserves, j, borrowed_value, current_slot, slack);
        match step {
            Ok(next) => {
                borrows.push(next.0);
                borrowed_value = next.1;
            },
            Err(e) => {
                proof {
                    lemma_refresh_borrows_failure_stays(
                        obligation@.borrows,
                        reserves@,
                        deposit_count as nat,
                        current_slot,
                        slack,
                        (j + 1) as nat,
                        borrow_count as nat,
                    );

                }
                return Err(e);
            },
        }
        j = j + 1;
    }
    proof {
        lemma_refresh_deposits_shape(
            obligation@.deposits,
            reserves@,
            current_slot,
            slack,
            deposit_count as nat,
        );
        lemma_refresh_borrows_shape(
            obligation@.borrows,
            reserves@,
            deposit_count as nat,
            current_slot,
            slack,
            borrow_count as nat,
        );
    }
    obligation.deposits = deposits;
    obligation.borrows = borrows;
    obligation.deposited_value = totals.deposited_value;
    obligation.borrowed_value = borrowed_value;
    obligation.allowed_borrow_value = totals.allowed_borrow_value;
    obligation.unhealthy_borrow_value = totals.unhealthy_borrow_value;
    obligation.super_unhealthy_borrow_value = totals.super_unhealthy_borrow_value;
    obligation.last_update.update_slot(current_slot);
    Ok(())
}

/// One step of the refresh of the deposits: the deposit at `index` brought
/// up to date, and the totals with it added.
fn refresh_deposit_at(
    obligation: &Obligation,
    reserves: &Vec<KeyedReserve>,
    index: usize,
    totals: &DepositTotals,
    slot: u64,
    slack: u64,
) -> (r: Result<(ObligationCollateral, DepositTotals), LendingError>)
    requires
        index < obligation@.deposits.len(),
        index < reserves@.len(),
    ensures
        r == (match refreshed_collateral_spec(
            obligation@.deposits[index as int],
            reserves@[index as int],
            slot,
            slack,
        ) {
            Err(e) => Err::<(ObligationCollateral, DepositTotals), LendingError>(e),
            Ok(collateral) => match add_deposit_spec(
                *totals,
                collateral.market_value,
                reserves@[index as int].reserve.config,
            ) {
                Err(e) => Err(e),
                Ok(next) => Ok((collateral, next)),
            },
        }),
{
    let collateral = match refreshed_collateral(
        &obligation.deposits[index],
        &reserves[index],
        slot,
        slack,
    ) {
        Ok(v) => v,
        Err(e) => {
            return Err(e);
        },
    };
    match add_deposit(totals, collateral.market_value, &reserves[index].reserve.config) {
        Ok(next) => Ok((collateral, next)),
        Err(e) => Err(e),
    }
}

/// One step of the refresh of the borrows: the debt at `index` brought up
/// to date, and the value of the debts with it added.
fn refresh_borrow_at(
    obligation: &Obligation,
    reserves: &Vec<KeyedReserve>,
    index: usize,
    borrowed_value: Decimal,
    slot: u64,
    slack: u64,
) -> (r: Result<(ObligationLiquidity, Decimal), LendingError>)
    requires
        index < obligation@.borrows.len(),
        obligation@.deposits.len() + index < reserves@.len(),
    ensures
        r == (match refreshed_liquidity_spec(
            obligation@.borrows[index as int],
            reserves@[obligation@.deposits.len() + index],
            slot,
            slack,
        ) {
            Err(e) => Err::<(ObligationLiquidity, Decimal), LendingError>(e),
            Ok(liquidity) => match borrowed_value.try_add_spec(liquidity.market_value) {
                Err(e) => Err(e),
                Ok(total) => Ok((liquidity, total)),
            },
        }),
{
    let _count: usize = reserves.len();
    let liquidity = match refreshed_liquidity(
        &obligation.borrows[index],
        &reserves[obligation.deposits.len() + index],
        slot,
        slack,
    ) {
        Ok(v) => v,
        Err(e) => {
            return Err(e);
        },
    };
    match borrowed_value.try_add(liquidity.market_value) {
        Ok(total) => Ok((liquidity, total)),
        Err(e) => Err(e),
    }
}

} // verus!
