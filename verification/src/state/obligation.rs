//! An obligation: what one borrower has deposited as collateral and what the
//! borrower owes, across the reserves of one market.

use crate::error::LendingError;
use crate::math::decimal::{scaled, Decimal, PERCENT_SCALER, WAD};
use crate::pubkey::Pubkey;
use crate::state::last_update::LastUpdate;
use crate::state::PROGRAM_VERSION;
use vstd::prelude::*;
use vstd::std_specs::convert::FromSpec;

verus! {

broadcast use crate::math::decimal::lemma_scaled_view;

/// Most reserves an obligation may hold collateral in, and most it may
/// borrow from.
pub const MAX_OBLIGATION_RESERVES: usize = 10;

/// Collateral deposited in one reserve.
#[derive(Clone, Copy, Debug, PartialEq, Eq)]
pub struct ObligationCollateral {
    /// Reserve the collateral belongs to.
    pub deposit_reserve: Pubkey,
    /// Collateral shares deposited.
    pub deposited_amount: u64,
    /// Value of the collateral in the quote currency at the last refresh.
    pub market_value: Decimal,
}

/// Liquidity borrowed from one reserve.
#[derive(Clone, Copy, Debug, PartialEq, Eq)]
pub struct ObligationLiquidity {
    /// Reserve the liquidity was borrowed from.
    pub borrow_reserve: Pubkey,
    /// The reserve's cumulative borrow rate when interest was last accrued
    /// on this debt.
    pub cumulative_borrow_rate_wads: Decimal,
    /// Debt, with interest.
    pub borrowed_amount_wads: Decimal,
    /// Value of the debt in the quote currency at the last refresh, with the
    /// reserve's borrow weight.
    pub market_value: Decimal,
}

/// One borrower's position in a market.
#[derive(Clone, Debug, PartialEq, Eq)]
pub struct Obligation {
    /// Version of the layout.
    pub version: u8,
    /// When the obligation was last refreshed.
    pub last_update: LastUpdate,
    /// The market the obligation belongs to.
    pub lending_market: Pubkey,
    /// The borrower.
    pub owner: Pubkey,
    /// Collateral, in the order in which the reserves were first used.
    pub deposits: Vec<ObligationCollateral>,
    /// Debts, in the order in which the reserves were first used.
    pub borrows: Vec<ObligationLiquidity>,
    /// Value of all collateral.
    pub deposited_value: Decimal,
    /// Value of all debt, with borrow weights.
    pub borrowed_value: Decimal,
    /// Debt value that the collateral allows: the sum of each deposit's value
    /// times its reserve's loan-to-value ratio.
    pub allowed_borrow_value: Decimal,
    /// Debt value from which the obligation can be liquidated: the sum of
    /// each deposit's value times its reserve's liquidation threshold.
    pub unhealthy_borrow_value: Decimal,
    /// Debt value from which the obligation is severely unhealthy: the sum
    /// of each deposit's value times its reserve's upper liquidation
    /// threshold.
    pub super_unhealthy_borrow_value: Decimal,
}

/// An obligation as plain values.
pub struct ObligationView {
    pub version: u8,
    pub last_update: LastUpdate,
    pub lending_market: Pubkey,
    pub owner: Pubkey,
    pub deposits: Seq<ObligationCollateral>,
    pub borrows: Seq<ObligationLiquidity>,
    pub deposited_value: Decimal,
    pub borrowed_value: Decimal,
    pub allowed_borrow_value: Decimal,
    pub unhealthy_borrow_value: Decimal,
    pub super_unhealthy_borrow_value: Decimal,
}

impl View for Obligation {
    type V = ObligationView;

    open spec fn view(&self) -> ObligationView {
        ObligationView {
            version: self.version,
            last_update: self.last_update,
            lending_market: self.lending_market,
            owner: self.owner,
            deposits: self.deposits@,
            borrows: self.borrows@,
            deposited_value: self.deposited_value,
            borrowed_value: self.borrowed_value,
            allowed_borrow_value: self.allowed_borrow_value,
            unhealthy_borrow_value: self.unhealthy_borrow_value,
            super_unhealthy_borrow_value: self.super_unhealthy_borrow_value,
        }
    }
}

/// The first position from `from` on at which `deposits` holds collateral of
/// `reserve`.
pub open spec fn collateral_index_from(
    deposits: Seq<ObligationCollateral>,
    reserve: Pubkey,
    from: nat,
) -> Option<nat>
    decreases deposits.len() - from,
{
    if from >= deposits.len() {
        None
    } else if deposits[from as int].deposit_reserve == reserve {
        Some(from)
    } else {
        collateral_index_from(deposits, reserve, from + 1)
    }
}

/// The first position from `from` on at which `borrows` holds a debt to
/// `reserve`.
pub open spec fn liquidity_index_from(
    borrows: Seq<ObligationLiquidity>,
    reserve: Pubkey,
    from: nat,
) -> Option<nat>
    decreases borrows.len() - from,
{
    if from >= borrows.len() {
        None
    } else if borrows[from as int].borrow_reserve == reserve {
        Some(from)
    } else {
        liquidity_index_from(borrows, reserve, from + 1)
    }
}

/// What the search for collateral finds is a position that holds the
/// reserve, and no position before it does; it finds nothing only where no
/// position does.
pub proof fn lemma_collateral_index(deposits: Seq<ObligationCollateral>, reserve: Pubkey, from: nat)
    ensures
        match collateral_index_from(deposits, reserve, from) {
            Some(i) => from <= i < deposits.len() && deposits[i as int].deposit_reserve
                == reserve && forall|j: int|
                from <= j < i ==> deposits[j].deposit_reserve != reserve,
            None => forall|j: int|
                from <= j < deposits.len() ==> deposits[j].deposit_reserve != reserve,
        },
    decreases deposits.len() - from,
{
    if from < deposits.len() && deposits[from as int].deposit_reserve != reserve {
        lemma_collateral_index(deposits, reserve, from + 1);
    }
}

/// What the search for a debt finds is a position that holds the reserve,
/// and no position before it does; it finds nothing only where no position
/// does.
pub proof fn lemma_liquidity_index(borrows: Seq<ObligationLiquidity>, reserve: Pubkey, from: nat)
    ensures
        match liquidity_index_from(borrows, reserve, from) {
            Some(i) => from <= i < borrows.len() && borrows[i as int].borrow_reserve == reserve
                && forall|j: int| from <= j < i ==> borrows[j].borrow_reserve != reserve,
            None => forall|j: int|
                from <= j < borrows.len() ==> borrows[j].borrow_reserve != reserve,
        },
    decreases borrows.len() - from,
{
    if from < borrows.len() && borrows[from as int].borrow_reserve != reserve {
        lemma_liquidity_index(borrows, reserve, from + 1);
    }
}

impl ObligationLiquidity {
    /// A debt of nothing to `borrow_reserve`, taken at the cumulative rate
    /// `cumulative_borrow_rate_wads`.
    pub fn new(borrow_reserve: Pubkey, cumulative_borrow_rate_wads: Decimal) -> (r: Self)
        ensures
            r == (ObligationLiquidity {
                borrow_reserve,
                cumulative_borrow_rate_wads,
                borrowed_amount_wads: scaled(0),
                market_value: scaled(0),
            }),
    {
        ObligationLiquidity {
            borrow_reserve,
            cumulative_borrow_rate_wads,
            borrowed_amount_wads: Decimal::zero(),
            market_value: Decimal::zero(),
        }
    }

    /// The debt after interest was accrued up to the reserve's cumulative
    /// rate `cumulative_borrow_rate_wads`: it grows by the ratio of that rate
    /// to the rate stored with the debt. A rate below the stored one is an
    /// error.
    pub open spec fn accrue_interest_spec(self, cumulative_borrow_rate_wads: Decimal) -> Result<
        Self,
        LendingError,
    > {
        if cumulative_borrow_rate_wads@ < self.cumulative_borrow_rate_wads@ {
            Err(LendingError::MathOverflow)
        } else if cumulative_borrow_rate_wads@ == self.cumulative_borrow_rate_wads@ {
            Ok(self)
        } else {
            match cumulative_borrow_rate_wads.try_div_spec(self.cumulative_borrow_rate_wads) {
                Err(e) => Err(e),
                Ok(growth) => match self.borrowed_amount_wads.try_mul_spec(growth) {
                    Err(e) => Err(e),
                    Ok(borrowed) => Ok(
                        ObligationLiquidity {
                            borrowed_amount_wads: borrowed,
                            cumulative_borrow_rate_wads,
                            ..self
                        },
                    ),
                },
            }
        }
    }

    /// Accrues interest up to the reserve's cumulative rate. On an error the
    /// debt is left as it was.
    pub fn accrue_interest(&mut self, cumulative_borrow_rate_wads: Decimal) -> (r: Result<
        (),
        LendingError,
    >)
        ensures
            match old(self).accrue_interest_spec(cumulative_borrow_rate_wads) {
                Ok(after) => r is Ok && *final(self) == after,
                Err(e) => r == Err::<(), LendingError>(e) && *final(self) == *old(self),
            },
    {
        if cumulative_borrow_rate_wads.lt(&self.cumulative_borrow_rate_wads) {
            return Err(LendingError::MathOverflow);
        }
        if cumulative_borrow_rate_wads.gt(&self.cumulative_borrow_rate_wads) {
            let growth = match cumulative_borrow_rate_wads.try_div(
                self.cumulative_borrow_rate_wads,
            ) {
                Ok(v) => v,
                Err(e) => {
                    return Err(e);
                },
            };
            let borrowed = match self.borrowed_amount_wads.try_mul(growth) {
                Ok(v) => v,
                Err(e) => {
                    return Err(e);
                },
            };
            self.borrowed_amount_wads = borrowed;
            self.cumulative_borrow_rate_wads = cumulative_borrow_rate_wads;
        } else {
            proof {
                crate::math::decimal::lemma_scaled_of_view(cumulative_borrow_rate_wads);
                crate::math::decimal::lemma_scaled_of_view(self.cumulative_borrow_rate_wads);
            }
        }
        Ok(())
    }
}

impl ObligationCollateral {
    /// No collateral in `deposit_reserve`.
    pub fn new(deposit_reserve: Pubkey) -> (r: Self)
        ensures
            r == (ObligationCollateral {
                deposit_reserve,
                deposited_amount: 0,
                market_value: scaled(0),
            }),
    {
        ObligationCollateral {
            deposit_reserve,
            deposited_amount: 0,
            market_value: Decimal::zero(),
        }
    }
}

impl ObligationView {
    /// No reserve occurs twice among the deposits nor twice among the
    /// borrows, and neither list is longer than it may be.
    pub open spec fn well_formed(self) -> bool {
        &&& self.deposits.len() <= MAX_OBLIGATION_RESERVES
        &&& self.borrows.len() <= MAX_OBLIGATION_RESERVES
        &&& forall|i: int, j: int|
            0 <= i < j < self.deposits.len() ==> self.deposits[i].deposit_reserve
                != self.deposits[j].deposit_reserve
        &&& forall|i: int, j: int|
            0 <= i < j < self.borrows.len() ==> self.borrows[i].borrow_reserve
                != self.borrows[j].borrow_reserve
    }

    /// What the obligation may still borrow, in the quote currency.
    pub open spec fn remaining_borrow_value(self) -> Decimal {
        self.allowed_borrow_value.saturating_sub_spec(self.borrowed_value)
    }

    /// The most collateral value that can be withdrawn from a reserve with
    /// the loan-to-value ratio `ltv` percent while the debt stays within what
    /// the remaining collateral allows: the unused borrow value over that
    /// ratio, or all collateral where the ratio is zero.
    pub open spec fn max_withdraw_value(self, ltv: u8) -> Result<Decimal, LendingError> {
        if self.allowed_borrow_value@ <= self.borrowed_value@ {
            Ok(scaled(0))
        } else if ltv == 0 {
            Ok(self.deposited_value)
        } else {
            scaled((self.allowed_borrow_value@ - self.borrowed_value@) as nat).try_div_spec(
                scaled((ltv as nat) * (PERCENT_SCALER as nat)),
            )
        }
    }

    /// The obligation after `collateral_amount` shares of `deposit_reserve`
    /// were added to its collateral.
    pub open spec fn deposit_spec(self, deposit_reserve: Pubkey, collateral_amount: u64) -> Result<
        Self,
        LendingError,
    > {
        if collateral_amount == 0 {
            Err(LendingError::InvalidAmount)
        } else {
            match collateral_index_from(self.deposits, deposit_reserve, 0) {
                Some(i) => if self.deposits[i as int].deposited_amount + collateral_amount
                    > u64::MAX {
                    Err(LendingError::MathOverflow)
                } else {
                    Ok(
                        ObligationView {
                            deposits: self.deposits.update(
                                i as int,
                                ObligationCollateral {
                                    deposited_amount: (self.deposits[i as int].deposited_amount
                                        + collateral_amount) as u64,
                                    ..self.deposits[i as int]
                                },
                            ),
                            last_update: LastUpdate { slot: self.last_update.slot, stale: true },
                            ..self
                        },
                    )
                },
                None => if self.deposits.len() >= MAX_OBLIGATION_RESERVES {
                    Err(LendingError::ObligationReserveLimit)
                } else {
                    Ok(
                        ObligationView {
                            deposits: self.deposits.push(
                                ObligationCollateral {
                                    deposit_reserve,
                                    deposited_amount: collateral_amount,
                                    market_value: scaled(0),
                                },
                            ),
                            last_update: LastUpdate { slot: self.last_update.slot, stale: true },
                            ..self
                        },
                    )
                },
            }
        }
    }

    /// The obligation after `amount` of debt, worth `value`, was taken from
    /// `borrow_reserve`, whose cumulative borrow rate is
    /// `cumulative_borrow_rate_wads`: the debt is added to the reserve's
    /// entry, or to a new one at the end.
    pub open spec fn borrow_spec(
        self,
        borrow_reserve: Pubkey,
        cumulative_borrow_rate_wads: Decimal,
        amount: Decimal,
        value: Decimal,
    ) -> Result<Self, LendingError> {
        match self.borrowed_value.try_add_spec(value) {
            Err(e) => Err(e),
            Ok(total) => match liquidity_index_from(self.borrows, borrow_reserve, 0) {
                Some(i) => match self.borrows[i as int].borrowed_amount_wads.try_add_spec(amount) {
                    Err(e) => Err(e),
                    Ok(borrowed) => match self.borrows[i as int].market_value.try_add_spec(value) {
                        Err(e) => Err(e),
                        Ok(market_value) => Ok(
                            ObligationView {
                                borrows: self.borrows.update(
                                    i as int,
                                    ObligationLiquidity {
                                        borrowed_amount_wads: borrowed,
                                        market_value,
                                        ..self.borrows[i as int]
                                    },
                                ),
                                borrowed_value: total,
                                last_update: LastUpdate {
                                    slot: self.last_update.slot,
                                    stale: true,
                                },
                                ..self
                            },
                        ),
                    },
                },
                None => if self.borrows.len() >= MAX_OBLIGATION_RESERVES {
                    Err(LendingError::ObligationReserveLimit)
                } else {
                    Ok(
                        ObligationView {
                            borrows: self.borrows.push(
                                ObligationLiquidity {
                                    borrow_reserve,
                                    cumulative_borrow_rate_wads,
                                    borrowed_amount_wads: amount,
                                    market_value: value,
                                },
                            ),
                            borrowed_value: total,
                            last_update: LastUpdate { slot: self.last_update.slot, stale: true },
                            ..self
                        },
                    )
                },
            },
        }
    }

    /// The deposits after `withdraw_amount` shares, worth `withdraw_value`,
    /// left the position `index`: the entry goes where nothing stays in it.
    pub open spec fn deposits_after_withdraw(
        self,
        index: int,
        withdraw_amount: u64,
        withdraw_value: Decimal,
    ) -> Seq<ObligationCollateral>
        recommends
            0 <= index < self.deposits.len(),
            withdraw_amount <= self.deposits[index].deposited_amount,
    {
        if withdraw_amount == self.deposits[index].deposited_amount {
            self.deposits.remove(index)
        } else {
            self.deposits.update(
                index,
                ObligationCollateral {
                    deposited_amount: (self.deposits[index].deposited_amount
                        - withdraw_amount) as u64,
                    market_value: self.deposits[index].market_value.saturating_sub_spec(
                        withdraw_value,
                    ),
                    ..self.deposits[index]
                },
            )
        }
    }

    /// The borrows after `settle_amount` of debt, worth `settle_value`, was
    /// settled at the position `index`: the entry goes where the debt is
    /// cleared.
    pub open spec fn borrows_after_repay(
        self,
        index: int,
        settle_amount: Decimal,
        settle_value: Decimal,
    ) -> Seq<ObligationLiquidity>
        recommends
            0 <= index < self.borrows.len(),
    {
        if settle_amount@ >= self.borrows[index].borrowed_amount_wads@ {
            self.borrows.remove(index)
        } else {
            self.borrows.update(
                index,
                ObligationLiquidity {
                    borrowed_amount_wads: scaled(
                        (self.borrows[index].borrowed_amount_wads@ - settle_amount@) as nat,
                    ),
                    market_value: self.borrows[index].market_value.saturating_sub_spec(
                        settle_value,
                    ),
                    ..self.borrows[index]
                },
            )
        }
    }
}

impl Obligation {
    /// An obligation of `owner` in `lending_market` with no deposits and no
    /// borrows, which counts as stale until its first refresh.
    pub fn new(current_slot: u64, lending_market: Pubkey, owner: Pubkey) -> (r: Self)
        ensures
            r@.well_formed(),
            r@.version == PROGRAM_VERSION,
            r@.last_update == (LastUpdate { slot: current_slot, stale: true }),
            r@.lending_market == lending_market,
            r@.owner == owner,
            r@.deposits == Seq::<ObligationCollateral>::empty(),
            r@.borrows == Seq::<ObligationLiquidity>::empty(),
            r@.deposited_value == scaled(0),
            r@.borrowed_value == scaled(0),
            r@.allowed_borrow_value == scaled(0),
            r@.unhealthy_borrow_value == scaled(0),
            r@.super_unhealthy_borrow_value == scaled(0),
    {
        Obligation {
            version: PROGRAM_VERSION,
            last_update: LastUpdate::new(current_slot),
            lending_market,
            owner,
            deposits: Vec::new(),
            borrows: Vec::new(),
            deposited_value: Decimal::zero(),
            borrowed_value: Decimal::zero(),
            allowed_borrow_value: Decimal::zero(),
            unhealthy_borrow_value: Decimal::zero(),
            super_unhealthy_borrow_value: Decimal::zero(),
        }
    }

    /// The position of the collateral in `deposit_reserve`, if any.
    pub fn find_collateral_index(&self, deposit_reserve: &Pubkey) -> (r: Option<usize>)
        ensures
            match r {
                Some(i) => collateral_index_from(self@.deposits, *deposit_reserve, 0) == Some(
                    i as nat,
                ) && i < self@.deposits.len(),
                None => collateral_index_from(self@.deposits, *deposit_reserve, 0) is None,
            },
    {
        let mut i: usize = 0;
        while i < self.deposits.len()
            invariant
                i <= self.deposits@.len(),
                collateral_index_from(self@.deposits, *deposit_reserve, 0)
                    == collateral_index_from(self@.deposits, *deposit_reserve, i as nat),
            decreases self.deposits@.len() - i,
        {
            if self.deposits[i].deposit_reserve.key_eq(deposit_reserve) {
                return Some(i);
            }
            i = i + 1;
        }
        None
    }

    /// The position of the debt to `borrow_reserve`, if any.
    pub fn find_liquidity_index(&self, borrow_reserve: &Pubkey) -> (r: Option<usize>)
        ensures
            match r {
                Some(i) => liquidity_index_from(self@.borrows, *borrow_reserve, 0) == Some(
                    i as nat,
                ) && i < self@.borrows.len(),
                None => liquidity_index_from(self@.borrows, *borrow_reserve, 0) is None,
            },
    {
        let mut i: usize = 0;
        while i < self.borrows.len()
            invariant
                i <= self.borrows@.len(),
                liquidity_index_from(self@.borrows, *borrow_reserve, 0) == liquidity_index_from(
                    self@.borrows,
                    *borrow_reserve,
                    i as nat,
                ),
            decreases self.borrows@.len() - i,
        {
            if self.borrows[i].borrow_reserve.key_eq(borrow_reserve) {
                return Some(i);
            }
            i = i + 1;
        }
        None
    }

    /// What the obligation may still borrow, in the quote currency.
    pub fn remaining_borrow_value(&self) -> (r: Decimal)
        ensures
            r == self@.remaining_borrow_value(),
    {
        self.allowed_borrow_value.saturating_sub(self.borrowed_value)
    }

    /// The most collateral value that can be withdrawn from a reserve with
    /// the loan-to-value ratio `ltv` percent.
    pub fn max_withdraw_value(&self, ltv: u8) -> (r: Result<Decimal, LendingError>)
        ensures
            r == self@.max_withdraw_value(ltv),
    {
        if self.allowed_borrow_value.le(&self.borrowed_value) {
            return Ok(Decimal::zero());
        }
        if ltv == 0 {
            return Ok(self.deposited_value);
        }
        self.allowed_borrow_value.saturating_sub(self.borrowed_value).try_div(
            Decimal::from_percent(ltv),
        )
    }

    /// Adds `collateral_amount` shares of `deposit_reserve` to the
    /// collateral, in the reserve's entry or in a new one at the end.
    /// `InvalidAmount` for no shares, `ObligationReserveLimit` where a new
    /// entry would be one too many, `MathOverflow` where the amount does not
    /// fit. On an error the obligation is left as it was.
    pub fn deposit(&mut self, deposit_reserve: Pubkey, collateral_amount: u64) -> (r: Result<
        (),
        LendingError,
    >)
        ensures
            match old(self)@.deposit_spec(deposit_reserve, collateral_amount) {
                Ok(after) => r is Ok && final(self)@ == after,
                Err(e) => r == Err::<(), LendingError>(e) && final(self)@ == old(self)@,
            },
            old(self)@.well_formed() ==> final(self)@.well_formed(),
    {
        if collateral_amount == 0 {
            return Err(LendingError::InvalidAmount);
        }
        proof {
            lemma_collateral_index(self@.deposits, deposit_reserve, 0);
        }
        match self.find_collateral_index(&deposit_reserve) {
            Some(i) => {
                let mut entry = self.deposits[i];
                if collateral_amount > u64::MAX - entry.deposited_amount {
                    return Err(LendingError::MathOverflow);
                }
                entry.deposited_amount = entry.deposited_amount + collateral_amount;
                self.deposits[i] = entry;
                self.last_update.mark_stale();
                Ok(())
            },
            None => {
                if self.deposits.len() >= MAX_OBLIGATION_RESERVES {
                    return Err(LendingError::ObligationReserveLimit);
                }
                let mut entry = ObligationCollateral::new(deposit_reserve);
                entry.deposited_amount = collateral_amount;
                self.deposits.push(entry);
                self.last_update.mark_stale();
                Ok(())
            },
        }
    }
}


impl Obligation {
    /// Takes `amount` of debt, worth `value`, from `borrow_reserve`.
    /// `ObligationReserveLimit` where a new entry would be one too many,
    /// `MathOverflow` where a sum does not fit. On an error the obligation is
    /// left as it was.
    pub fn borrow(
        &mut self,
        borrow_reserve: Pubkey,
        cumulative_borrow_rate_wads: Decimal,
        amount: Decimal,
        value: Decimal,
    ) -> (r: Result<(), LendingError>)
        ensures
            match old(self)@.borrow_spec(
                borrow_reserve,
                cumulative_borrow_rate_wads,
                amount,
                value,
            ) {
                Ok(after) => r is Ok && final(self)@ == after,
                Err(e) => r == Err::<(), LendingError>(e) && final(self)@ == old(self)@,
            },
            old(self)@.well_formed() ==> final(self)@.well_formed(),
    {
        let total = match self.borrowed_value.try_add(value) {
            Ok(v) => v,
            Err(e) => {
                return Err(e);
            },
        };
        proof {
            lemma_liquidity_index(self@.borrows, borrow_reserve, 0);
        }
        match self.find_liquidity_index(&borrow_reserve) {
            Some(i) => {
                let mut entry = self.borrows[i];
                let borrowed = match entry.borrowed_amount_wads.try_add(amount) {
                    Ok(v) => v,
                    Err(e) => {
                        return Err(e);
                    },
                };
                let market_value = match entry.market_value.try_add(value) {
                    Ok(v) => v,
                    Err(e) => {
                        return Err(e);
                    },
                };
                entry.borrowed_amount_wads = borrowed;
                entry.market_value = market_value;
                self.borrows[i] = entry;
            },
            None => {
                if self.borrows.len() >= MAX_OBLIGATION_RESERVES {
                    return Err(LendingError::ObligationReserveLimit);
                }
                self.borrows.push(
                    ObligationLiquidity {
                        borrow_reserve,
                        cumulative_borrow_rate_wads,
                        borrowed_amount_wads: amount,
                        market_value: value,
                    },
                );
            },
        }
        self.borrowed_value = total;
        self.last_update.mark_stale();
        Ok(())
    }

    /// Takes `withdraw_amount` shares, worth `withdraw_value`, out of the
    /// collateral at `index`; the entry goes where nothing stays in it.
    pub fn withdraw(&mut self, index: usize, withdraw_amount: u64, withdraw_value: Decimal)
        requires
            index < old(self)@.deposits.len(),
            withdraw_amount <= old(self)@.deposits[index as int].deposited_amount,
        ensures
            final(self)@ == (ObligationView {
                deposits: old(self)@.deposits_after_withdraw(
                    index as int,
                    withdraw_amount,
                    withdraw_value,
                ),
                ..old(self)@
            }),
            old(self)@.well_formed() ==> final(self)@.well_formed(),
    {
        let mut entry = self.deposits[index];
        if withdraw_amount == entry.deposited_amount {
            self.deposits.remove(index);
        } else {
            entry.deposited_amount = entry.deposited_amount - withdraw_amount;
            entry.market_value = entry.market_value.saturating_sub(withdraw_value);
            self.deposits[index] = entry;
        }
    }

    /// Settles `settle_amount` of the debt at `index`, worth `settle_value`;
    /// the entry goes where the debt is cleared.
    pub fn repay(&mut self, index: usize, settle_amount: Decimal, settle_value: Decimal)
        requires
            index < old(self)@.borrows.len(),
        ensures
            final(self)@ == (ObligationView {
                borrows: old(self)@.borrows_after_repay(index as int, settle_amount, settle_value),
                ..old(self)@
            }),
            old(self)@.well_formed() ==> final(self)@.well_formed(),
    {
        let mut entry = self.borrows[index];
        if settle_amount.ge(&entry.borrowed_amount_wads) {
            self.borrows.remove(index);
        } else {
            entry.borrowed_amount_wads = entry.borrowed_amount_wads.saturating_sub(settle_amount);
            entry.market_value = entry.market_value.saturating_sub(settle_value);
            self.borrows[index] = entry;
        }
    }
}

} // verus!
