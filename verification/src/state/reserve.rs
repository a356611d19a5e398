//! A reserve: the pool of one token, its collateral shares and its terms.

use crate::error::LendingError;
use crate::amount::Amount;
use crate::math::decimal::{lemma_scaled_view, scaled, Decimal, BPS_SCALER, PERCENT_SCALER, WAD};
use crate::math::uint192::modulus;
use crate::pubkey::Pubkey;
use crate::state::last_update::LastUpdate;
use crate::state::rate_limiter::RateLimiter;
use vstd::prelude::*;
use vstd::std_specs::convert::FromSpec;

verus! {

broadcast use crate::math::decimal::lemma_scaled_view;

/// Collateral shares minted per unit of liquidity while a reserve has no
/// shares outstanding.
pub const INITIAL_COLLATERAL_RATIO: u64 = 1;

/// Slots in a year, at two slots a second.
pub const SLOTS_PER_YEAR: u64 = 63_072_000;

/// Fees of a reserve.
#[derive(Clone, Copy, Debug, PartialEq, Eq, Structural)]
pub struct ReserveFees {
    /// Fee on a borrow, as a fraction of the amount scaled by 10^18.
    pub borrow_fee_wad: u64,
    /// Fee on a flash loan, as a fraction of the amount scaled by 10^18.
    pub flash_loan_fee_wad: u64,
    /// Share of a fee that goes to the host, in percent.
    pub host_fee_percentage: u8,
}

/// Terms of a reserve.
#[derive(Clone, Copy, Debug, PartialEq, Eq)]
pub struct ReserveConfig {
    /// Utilization at which the borrow rate is the optimal rate, in percent.
    pub optimal_utilization_rate: u8,
    /// Borrow value allowed per value of collateral, in percent.
    pub loan_to_value_ratio: u8,
    /// Bonus a liquidator gets, in percent.
    pub liquidation_bonus: u8,
    /// Bonus a liquidator gets on a severely unhealthy obligation, in percent.
    pub max_liquidation_bonus: u8,
    /// Borrow value per value of collateral from which an obligation can be
    /// liquidated, in percent.
    pub liquidation_threshold: u8,
    /// Borrow value per value of collateral from which an obligation counts
    /// as severely unhealthy, in percent.
    pub max_liquidation_threshold: u8,
    /// Borrow rate at no utilization, in percent a year.
    pub min_borrow_rate: u16,
    /// Borrow rate at the optimal utilization, in percent a year.
    pub optimal_borrow_rate: u16,
    /// Borrow rate at full utilization, in percent a year.
    pub max_borrow_rate: u16,
    /// Fees.
    pub fees: ReserveFees,
    /// Most liquidity the reserve takes in deposits.
    pub deposit_limit: u64,
    /// Most liquidity the reserve lends.
    pub borrow_limit: u64,
    /// Account that receives the protocol's share of fees.
    pub fee_receiver: Pubkey,
    /// What a borrow from this reserve counts more than its value, in basis
    /// points.
    pub added_borrow_weight_bps: u64,
}

/// The liquidity side of a reserve.
#[derive(Clone, Copy, Debug, PartialEq, Eq)]
pub struct ReserveLiquidity {
    /// Mint of the token.
    pub mint_pubkey: Pubkey,
    /// Decimal places of the token.
    pub mint_decimals: u8,
    /// Liquidity on hand.
    pub available_amount: u64,
    /// Liquidity lent out, with interest.
    pub borrowed_amount_wads: Decimal,
    /// Cumulative borrow rate index.
    pub cumulative_borrow_rate_wads: Decimal,
    /// Protocol fees that were not yet claimed.
    pub accumulated_protocol_fees_wads: Decimal,
    /// Price of one whole token in the quote currency.
    pub market_price: Decimal,
    /// Smoothed price of one whole token in the quote currency.
    pub smoothed_market_price: Decimal,
}

/// The collateral side of a reserve.
#[derive(Clone, Copy, Debug, PartialEq, Eq)]
pub struct ReserveCollateral {
    /// Mint of the collateral shares.
    pub mint_pubkey: Pubkey,
    /// Shares outstanding.
    pub mint_total_supply: u64,
}

/// One token's pool in a lending market.
#[derive(Clone, Copy, Debug, PartialEq, Eq)]
pub struct Reserve {
    /// Version of the layout.
    pub version: u8,
    /// When the reserve was last refreshed.
    pub last_update: LastUpdate,
    /// The market the reserve belongs to.
    pub lending_market: Pubkey,
    /// Liquidity.
    pub liquidity: ReserveLiquidity,
    /// Collateral.
    pub collateral: ReserveCollateral,
    /// Terms.
    pub config: ReserveConfig,
    /// Limit on the outflow.
    pub rate_limiter: RateLimiter,
}

/// `base` multiplied `n` times onto one, each product rounded down.
pub open spec fn compound_spec(base: Decimal, n: nat) -> Result<Decimal, LendingError>
    decreases n,
{
    if n == 0 {
        Ok(scaled(WAD as nat))
    } else {
        match compound_spec(base, (n - 1) as nat) {
            Ok(acc) => acc.try_mul_spec(base),
            Err(e) => Err(e),
        }
    }
}

/// Once the compounding fails it fails for every larger count.
pub proof fn lemma_compound_failure_stays(base: Decimal, k: nat, n: nat)
    requires
        k <= n,
        compound_spec(base, k) is Err,
    ensures
        compound_spec(base, n) == compound_spec(base, k),
    decreases n,
{
    if n > k {
        lemma_compound_failure_stays(base, k, (n - 1) as nat);
    }
}

/// A product with a factor of at least one, rounded down, is not below the
/// other factor.
pub proof fn lemma_mul_at_least_one(a: nat, b: nat)
    requires
        b >= WAD,
    ensures
        a * b / (WAD as nat) >= a,
{
    assert(a * b >= a * (WAD as nat)) by (nonlinear_arith)
        requires
            b >= WAD as nat,
    ;
    vstd::arithmetic::div_mod::lemma_div_is_ordered((a * (WAD as nat)) as int, (a * b) as int, WAD as int);
    vstd::arithmetic::div_mod::lemma_div_multiples_vanish(a as int, WAD as int);
    assert(a * (WAD as nat) == (WAD as int) * (a as int)) by (nonlinear_arith);
}

/// Compounding a factor of at least one gives at least one.
pub proof fn lemma_compound_at_least_one(base: Decimal, n: nat)
    requires
        base@ >= WAD,
        compound_spec(base, n) is Ok,
    ensures
        compound_spec(base, n)->Ok_0@ >= WAD,
    decreases n,
{
    if n > 0 {
        let prev = compound_spec(base, (n - 1) as nat);
        lemma_compound_at_least_one(base, (n - 1) as nat);
        lemma_mul_at_least_one(prev->Ok_0@, base@);
    }
}

/// `base` multiplied `n` times onto one, each product rounded down;
/// `MathOverflow` where a product does not fit.
pub fn compound(base: Decimal, n: u64) -> (r: Result<Decimal, LendingError>)
    ensures
        r == compound_spec(base, n as nat),
{
    let mut acc = Decimal::one();
    let mut i: u64 = 0;
    while i < n
        invariant
            i <= n,
            compound_spec(base, i as nat) == Ok::<Decimal, LendingError>(acc),
        decreases n - i,
    {
        match acc.try_mul(base) {
            Ok(v) => {
                acc = v;
            },
            Err(e) => {
                proof {
                    lemma_compound_failure_stays(base, (i + 1) as nat, n as nat);
                }
                return Err(e);
            },
        }
        i = i + 1;
    }
    Ok(acc)
}

impl ReserveLiquidity {
    /// All liquidity of the reserve: on hand and lent out.
    pub open spec fn total_supply_spec(self) -> Result<Decimal, LendingError> {
        Decimal::from_spec(self.available_amount).try_add_spec(self.borrowed_amount_wads)
    }

    /// The part of the liquidity that is lent out; zero for an empty reserve.
    pub open spec fn utilization_rate_spec(self) -> Result<Decimal, LendingError> {
        match self.total_supply_spec() {
            Ok(total) => if total@ == 0 {
                Ok(scaled(0))
            } else {
                self.borrowed_amount_wads.try_div_spec(total)
            },
            Err(e) => Err(e),
        }
    }

    /// The liquidity after interest at `borrow_rate` a year was compounded
    /// over `slots_elapsed` slots: the rate per slot is compounded once per
    /// slot, the cumulative rate is multiplied by the result, and the amount
    /// lent out grows as the cumulative rate did.
    pub open spec fn compound_interest_spec(
        self,
        borrow_rate: Decimal,
        slots_elapsed: u64,
        slots_per_year: u64,
    ) -> Result<Self, LendingError> {
        match borrow_rate.try_div_u64_spec(slots_per_year) {
            Err(e) => Err(e),
            Ok(slot_rate) => match scaled(WAD as nat).try_add_spec(slot_rate) {
                Err(e) => Err(e),
                Ok(base) => match compound_spec(base, slots_elapsed as nat) {
                    Err(e) => Err(e),
                    Ok(factor) => match self.cumulative_borrow_rate_wads.try_mul_spec(factor) {
                        Err(e) => Err(e),
                        Ok(new_rate) => match new_rate.try_div_spec(
                            self.cumulative_borrow_rate_wads,
                        ) {
                            Err(e) => Err(e),
                            Ok(growth) => match self.borrowed_amount_wads.try_mul_spec(growth) {
                                Err(e) => Err(e),
                                Ok(new_borrowed) => Ok(
                                    ReserveLiquidity {
                                        cumulative_borrow_rate_wads: new_rate,
                                        borrowed_amount_wads: new_borrowed,
                                        ..self
                                    },
                                ),
                            },
                        },
                    },
                },
            },
        }
    }

    /// All liquidity of the reserve: on hand and lent out.
    pub fn total_supply(&self) -> (r: Result<Decimal, LendingError>)
        ensures
            r == self.total_supply_spec(),
    {
        Decimal::from(self.available_amount).try_add(self.borrowed_amount_wads)
    }

    /// The part of the liquidity that is lent out; zero for an empty reserve.
    pub fn utilization_rate(&self) -> (r: Result<Decimal, LendingError>)
        ensures
            r == self.utilization_rate_spec(),
    {
        let total = match self.total_supply() {
            Ok(v) => v,
            Err(e) => {
                return Err(e);
            },
        };
        if total.is_zero() {
            Ok(Decimal::zero())
        } else {
            self.borrowed_amount_wads.try_div(total)
        }
    }

    /// Compounds interest at `borrow_rate` a year over `slots_elapsed` slots.
    /// On an error the liquidity is left as it was.
    pub fn compound_interest(
        &mut self,
        borrow_rate: Decimal,
        slots_elapsed: u64,
        slots_per_year: u64,
    ) -> (r: Result<(), LendingError>)
        ensures
            match old(self).compound_interest_spec(borrow_rate, slots_elapsed, slots_per_year) {
                Ok(after) => r is Ok && *final(self) == after,
                Err(e) => r == Err::<(), LendingError>(e) && *final(self) == *old(self),
            },
    {
        let slot_rate = match borrow_rate.try_div_u64(slots_per_year) {
            Ok(v) => v,
            Err(e) => {
                return Err(e);
            },
        };
        let base = match Decimal::one().try_add(slot_rate) {
            Ok(v) => v,
            Err(e) => {
                return Err(e);
            },
        };
        let factor = match compound(base, slots_elapsed) {
            Ok(v) => v,
            Err(e) => {
                return Err(e);
            },
        };
        let new_rate = match self.cumulative_borrow_rate_wads.try_mul(factor) {
            Ok(v) => v,
            Err(e) => {
                return Err(e);
            },
        };
        let growth = match new_rate.try_div(self.cumulative_borrow_rate_wads) {
            Ok(v) => v,
            Err(e) => {
                return Err(e);
            },
        };
        let new_borrowed = match self.borrowed_amount_wads.try_mul(growth) {
            Ok(v) => v,
            Err(e) => {
                return Err(e);
            },
        };
        self.cumulative_borrow_rate_wads = new_rate;
        self.borrowed_amount_wads = new_borrowed;
        Ok(())
    }
}

impl Reserve {
    /// The borrow rate a year at the current utilization. Below the optimal
    /// utilization it runs in a line from the minimum rate to the optimal
    /// rate, from there on in a line from the optimal to the maximum rate.
    /// With an optimal utilization of 100% it is the minimum rate below full
    /// utilization and the maximum rate at it.
    pub open spec fn current_borrow_rate_spec(self) -> Result<Decimal, LendingError> {
        let config = self.config;
        match self.liquidity.utilization_rate_spec() {
            Err(e) => Err(e),
            Ok(utilization) => if config.optimal_utilization_rate > 100 || config.min_borrow_rate
                > config.optimal_borrow_rate || config.optimal_borrow_rate
                > config.max_borrow_rate {
                Err(LendingError::InvalidConfig)
            } else if config.optimal_utilization_rate == 100 {
                if utilization@ < WAD {
                    Ok(scaled((config.min_borrow_rate as nat) * (PERCENT_SCALER as nat)))
                } else {
                    Ok(scaled((config.max_borrow_rate as nat) * (PERCENT_SCALER as nat)))
                }
            } else {
                let optimal = scaled(
                    (config.optimal_utilization_rate as nat) * (PERCENT_SCALER as nat),
                );
                if utilization@ < optimal@ {
                    interpolate_spec(
                        utilization,
                        optimal,
                        config.min_borrow_rate,
                        config.optimal_borrow_rate,
                    )
                } else {
                    interpolate_spec(
                        scaled((utilization@ - optimal@) as nat),
                        scaled(((100 - config.optimal_utilization_rate) as nat) * (
                        PERCENT_SCALER as nat)),
                        config.optimal_borrow_rate,
                        config.max_borrow_rate,
                    )
                }
            },
        }
    }

    /// The reserve after interest was accrued up to `current_slot`. With no
    /// slot elapsed the reserve is unchanged.
    pub open spec fn accrue_interest_spec(self, current_slot: u64, slots_per_year: u64) -> Result<
        Self,
        LendingError,
    > {
        match self.last_update.slots_elapsed_spec(current_slot) {
            Err(e) => Err(e),
            Ok(slots_elapsed) => if slots_elapsed == 0 {
                Ok(self)
            } else {
                match self.current_borrow_rate_spec() {
                    Err(e) => Err(e),
                    Ok(rate) => match self.liquidity.compound_interest_spec(
                        rate,
                        slots_elapsed,
                        slots_per_year,
                    ) {
                        Err(e) => Err(e),
                        Ok(liquidity) => Ok(Reserve { liquidity, ..self }),
                    },
                }
            },
        }
    }

    /// The borrow rate a year at the current utilization; `InvalidConfig`
    /// where the rates are not in order or the optimal utilization exceeds
    /// 100%.
    pub fn current_borrow_rate(&self) -> (r: Result<Decimal, LendingError>)
        ensures
            r == self.current_borrow_rate_spec(),
    {
        let utilization = match self.liquidity.utilization_rate() {
            Ok(v) => v,
            Err(e) => {
                return Err(e);
            },
        };
        if self.config.optimal_utilization_rate > 100 || self.config.min_borrow_rate
            > self.config.optimal_borrow_rate || self.config.optimal_borrow_rate
            > self.config.max_borrow_rate {
            return Err(LendingError::InvalidConfig);
        }
        if self.config.optimal_utilization_rate == 100 {
            if utilization.lt(&Decimal::one()) {
                return Ok(Decimal::from_percent_u64(self.config.min_borrow_rate as u64));
            } else {
                return Ok(Decimal::from_percent_u64(self.config.max_borrow_rate as u64));
            }
        }
        let optimal = Decimal::from_percent(self.config.optimal_utilization_rate);
        if utilization.lt(&optimal) {
            interpolate(
                utilization,
                optimal,
                self.config.min_borrow_rate,
                self.config.optimal_borrow_rate,
            )
        } else {
            let above = utilization.saturating_sub(optimal);
            interpolate(
                above,
                Decimal::from_percent(100 - self.config.optimal_utilization_rate),
                self.config.optimal_borrow_rate,
                self.config.max_borrow_rate,
            )
        }
    }

    /// Accrues interest up to `current_slot`; `MathOverflow` where that slot
    /// lies before the last refresh or a step of the compounding does not
    /// fit. On an error the reserve is left as it was.
    pub fn accrue_interest(&mut self, current_slot: u64, slots_per_year: u64) -> (r: Result<
        (),
        LendingError,
    >)
        ensures
            match old(self).accrue_interest_spec(current_slot, slots_per_year) {
                Ok(after) => r is Ok && *final(self) == after,
                Err(e) => r == Err::<(), LendingError>(e) && *final(self) == *old(self),
            },
    {
        let slots_elapsed = match self.last_update.slots_elapsed(current_slot) {
            Ok(v) => v,
            Err(e) => {
                return Err(e);
            },
        };
        if slots_elapsed > 0 {
            let rate = match self.current_borrow_rate() {
                Ok(v) => v,
                Err(e) => {
                    return Err(e);
                },
            };
            self.liquidity.compound_interest(rate, slots_elapsed, slots_per_year)
        } else {
            Ok(())
        }
    }
}

/// The rate at `position` of `span` on the line from `low` percent to `high`
/// percent: `low + position / span * (high - low)`. A line that falls is
/// `InvalidConfig`.
pub open spec fn interpolate_spec(position: Decimal, span: Decimal, low: u16, high: u16) -> Result<
    Decimal,
    LendingError,
> {
    if low > high {
        Err(LendingError::InvalidConfig)
    } else {
        match position.try_div_spec(span) {
            Err(e) => Err(e),
            Ok(normalized) => match normalized.try_mul_spec(
                scaled(((high - low) as nat) * (PERCENT_SCALER as nat)),
            ) {
                Err(e) => Err(e),
                Ok(rise) => rise.try_add_spec(scaled((low as nat) * (PERCENT_SCALER as nat))),
            },
        }
    }
}

/// The rate at `position` of `span` on the line from `low` percent to `high`
/// percent; `InvalidConfig` where `low` exceeds `high`, `MathOverflow` where
/// `span` is zero or a step does not fit.
pub fn interpolate(position: Decimal, span: Decimal, low: u16, high: u16) -> (r: Result<
    Decimal,
    LendingError,
>)
    ensures
        r == interpolate_spec(position, span, low, high),
{
    if low > high {
        return Err(LendingError::InvalidConfig);
    }
    let normalized = match position.try_div(span) {
        Ok(v) => v,
        Err(e) => {
            return Err(e);
        },
    };
    let rise = match normalized.try_mul(Decimal::from_percent_u64((high - low) as u64)) {
        Ok(v) => v,
        Err(e) => {
            return Err(e);
        },
    };
    rise.try_add(Decimal::from_percent_u64(low as u64))
}

/// At the optimal utilization the borrow rate is exactly the optimal rate,
/// so the two lines of the rate curve meet there.
pub proof fn lemma_borrow_rate_at_optimal_utilization(reserve: Reserve)
    requires
        reserve.config.optimal_utilization_rate < 100,
        reserve.config.min_borrow_rate <= reserve.config.optimal_borrow_rate
            <= reserve.config.max_borrow_rate,
        reserve.liquidity.utilization_rate_spec() is Ok,
        reserve.liquidity.utilization_rate_spec()->Ok_0@ == (
        reserve.config.optimal_utilization_rate as nat) * (PERCENT_SCALER as nat),
    ensures
        reserve.current_borrow_rate_spec() == Ok::<Decimal, LendingError>(
            scaled((reserve.config.optimal_borrow_rate as nat) * (PERCENT_SCALER as nat)),
        ),
{
    let config = reserve.config;
    let span = ((100 - config.optimal_utilization_rate) as nat) * (PERCENT_SCALER as nat);
    let rise = ((config.max_borrow_rate - config.optimal_borrow_rate) as nat) * (
    PERCENT_SCALER as nat);
    let base = (config.optimal_borrow_rate as nat) * (PERCENT_SCALER as nat);
    assert(0 < span <= 100 * 10_000_000_000_000_000) by (nonlinear_arith)
        requires
            span == ((100 - config.optimal_utilization_rate) as nat) * (PERCENT_SCALER as nat),
            config.optimal_utilization_rate < 100,
            PERCENT_SCALER == 10_000_000_000_000_000,
    ;
    assert(rise <= 65535 * 10_000_000_000_000_000 && base <= 65535 * 10_000_000_000_000_000)
        by (nonlinear_arith)
        requires
            rise == ((config.max_borrow_rate - config.optimal_borrow_rate) as nat) * (
            PERCENT_SCALER as nat),
            base == (config.optimal_borrow_rate as nat) * (PERCENT_SCALER as nat),
            config.optimal_borrow_rate <= config.max_borrow_rate <= 65535,
            PERCENT_SCALER == 10_000_000_000_000_000,
    ;
    assert(0nat * (WAD as nat) / span == 0) by (nonlinear_arith)
        requires
            span > 0,
    ;
    assert(0nat * rise / (WAD as nat) == 0) by (nonlinear_arith);
    assert(0nat * rise == 0) by (nonlinear_arith);
}

/// Accrued interest never lowers the cumulative borrow rate nor the amount
/// lent out, and accrual at the slot of the last refresh changes nothing.
pub proof fn lemma_accrual_monotonic(reserve: Reserve, current_slot: u64, slots_per_year: u64)
    requires
        reserve.accrue_interest_spec(current_slot, slots_per_year) is Ok,
    ensures
        reserve.accrue_interest_spec(
            current_slot,
            slots_per_year,
        )->Ok_0.liquidity.cumulative_borrow_rate_wads@
            >= reserve.liquidity.cumulative_borrow_rate_wads@,
        reserve.accrue_interest_spec(current_slot, slots_per_year)->Ok_0.liquidity.borrowed_amount_wads@
            >= reserve.liquidity.borrowed_amount_wads@,
        current_slot == reserve.last_update.slot ==> reserve.accrue_interest_spec(
            current_slot,
            slots_per_year,
        ) == Ok::<Reserve, LendingError>(reserve),
{
    let elapsed = reserve.last_update.slots_elapsed_spec(current_slot)->Ok_0;
    if elapsed != 0 {
        let rate = reserve.current_borrow_rate_spec()->Ok_0;
        let liq = reserve.liquidity;
        let slot_rate = rate.try_div_u64_spec(slots_per_year)->Ok_0;
        let base = scaled(WAD as nat).try_add_spec(slot_rate)->Ok_0;
        let factor = compound_spec(base, elapsed as nat)->Ok_0;
        let new_rate = liq.cumulative_borrow_rate_wads.try_mul_spec(factor)->Ok_0;
        let growth = new_rate.try_div_spec(liq.cumulative_borrow_rate_wads)->Ok_0;
        lemma_compound_at_least_one(base, elapsed as nat);
        lemma_mul_at_least_one(liq.cumulative_borrow_rate_wads@, factor@);
        let c = liq.cumulative_borrow_rate_wads@;
        assert(c > 0);
        assert(new_rate@ * (WAD as nat) >= c * (WAD as nat)) by (nonlinear_arith)
            requires
                new_rate@ >= c,
        ;
        vstd::arithmetic::div_mod::lemma_div_is_ordered(
            (c * (WAD as nat)) as int,
            (new_rate@ * (WAD as nat)) as int,
            c as int,
        );
        vstd::arithmetic::div_mod::lemma_div_multiples_vanish(WAD as int, c as int);
        assert(c * (WAD as nat) == (c as int) * (WAD as int)) by (nonlinear_arith);
        assert(growth@ >= WAD);
        lemma_mul_at_least_one(liq.borrowed_amount_wads@, growth@);
    }
}


impl Reserve {
    /// Collateral shares per unit of liquidity: the shares outstanding over
    /// all liquidity, or the initial ratio while no shares are outstanding.
    pub open spec fn collateral_per_liquidity_spec(self) -> Result<Decimal, LendingError> {
        if self.collateral.mint_total_supply == 0 {
            Ok(Decimal::from_spec(INITIAL_COLLATERAL_RATIO))
        } else {
            match self.liquidity.total_supply_spec() {
                Ok(total) => Decimal::from_spec(self.collateral.mint_total_supply).try_div_spec(
                    total,
                ),
                Err(e) => Err(e),
            }
        }
    }

    /// Liquidity per collateral share: all liquidity over the shares
    /// outstanding, or the inverse of the initial ratio while no shares are
    /// outstanding.
    pub open spec fn liquidity_per_collateral_spec(self) -> Result<Decimal, LendingError> {
        if self.collateral.mint_total_supply == 0 {
            scaled(WAD as nat).try_div_spec(Decimal::from_spec(INITIAL_COLLATERAL_RATIO))
        } else {
            match self.liquidity.total_supply_spec() {
                Ok(total) => total.try_div_spec(
                    Decimal::from_spec(self.collateral.mint_total_supply),
                ),
                Err(e) => Err(e),
            }
        }
    }

    /// The shares minted for `liquidity_amount`, rounded down.
    pub open spec fn liquidity_to_collateral_spec(self, liquidity_amount: u64) -> Result<
        u64,
        LendingError,
    > {
        match self.collateral_per_liquidity_spec() {
            Ok(rate) => match rate.try_mul_u64_spec(liquidity_amount) {
                Ok(shares) => shares.try_floor_u64_spec(),
                Err(e) => Err(e),
            },
            Err(e) => Err(e),
        }
    }

    /// The liquidity paid out for `collateral_amount` shares, rounded down.
    pub open spec fn collateral_to_liquidity_spec(self, collateral_amount: u64) -> Result<
        u64,
        LendingError,
    > {
        match self.liquidity_per_collateral_spec() {
            Ok(rate) => match rate.try_mul_u64_spec(collateral_amount) {
                Ok(liquidity) => liquidity.try_floor_u64_spec(),
                Err(e) => Err(e),
            },
            Err(e) => Err(e),
        }
    }

    /// The reserve after a deposit of `liquidity_amount`, and the shares
    /// minted for it.
    pub open spec fn deposit_liquidity_spec(self, liquidity_amount: u64) -> Result<
        (Self, u64),
        LendingError,
    > {
        if liquidity_amount == 0 {
            Err(LendingError::InvalidAmount)
        } else {
            match self.liquidity.total_supply_spec() {
                Err(e) => Err(e),
                Ok(total) => if total@ + (liquidity_amount as nat) * (WAD as nat) > (
                self.config.deposit_limit as nat) * (WAD as nat) {
                    Err(LendingError::DepositLimitExceeded)
                } else {
                    match self.liquidity_to_collateral_spec(liquidity_amount) {
                        Err(e) => Err(e),
                        Ok(shares) => if self.liquidity.available_amount + liquidity_amount
                            > u64::MAX || self.collateral.mint_total_supply + shares > u64::MAX {
                            Err(LendingError::MathOverflow)
                        } else {
                            Ok(
                                (
                                    Reserve {
                                        liquidity: ReserveLiquidity {
                                            available_amount: (self.liquidity.available_amount
                                                + liquidity_amount) as u64,
                                            ..self.liquidity
                                        },
                                        collateral: ReserveCollateral {
                                            mint_total_supply: (self.collateral.mint_total_supply
                                                + shares) as u64,
                                            ..self.collateral
                                        },
                                        last_update: LastUpdate {
                                            slot: self.last_update.slot,
                                            stale: true,
                                        },
                                        ..self
                                    },
                                    shares,
                                ),
                            )
                        },
                    }
                },
            }
        }
    }

    /// The reserve after `collateral_amount` shares were redeemed at
    /// `current_slot`, and the liquidity paid out for them.
    pub open spec fn redeem_collateral_spec(self, collateral_amount: u64, current_slot: u64) -> Result<
        (Self, u64),
        LendingError,
    > {
        if collateral_amount == 0 || collateral_amount > self.collateral.mint_total_supply {
            Err(LendingError::InvalidAmount)
        } else {
            match self.collateral_to_liquidity_spec(collateral_amount) {
                Err(e) => Err(e),
                Ok(liquidity) => if liquidity > self.liquidity.available_amount {
                    Err(LendingError::InsufficientLiquidity)
                } else {
                    let limited = self.rate_limiter.try_update_spec(
                        current_slot,
                        Decimal::from_spec(liquidity),
                    );
                    match limited.1 {
                        Err(e) => Err(e),
                        Ok(_) => Ok(
                            (
                                Reserve {
                                    liquidity: ReserveLiquidity {
                                        available_amount: (self.liquidity.available_amount
                                            - liquidity) as u64,
                                        ..self.liquidity
                                    },
                                    collateral: ReserveCollateral {
                                        mint_total_supply: (self.collateral.mint_total_supply
                                            - collateral_amount) as u64,
                                        ..self.collateral
                                    },
                                    last_update: LastUpdate {
                                        slot: self.last_update.slot,
                                        stale: true,
                                    },
                                    rate_limiter: limited.0,
                                    ..self
                                },
                                liquidity,
                            ),
                        ),
                    }
                },
            }
        }
    }

    /// Collateral shares per unit of liquidity.
    pub fn collateral_per_liquidity(&self) -> (r: Result<Decimal, LendingError>)
        ensures
            r == self.collateral_per_liquidity_spec(),
    {
        if self.collateral.mint_total_supply == 0 {
            Ok(Decimal::from(INITIAL_COLLATERAL_RATIO))
        } else {
            match self.liquidity.total_supply() {
                Ok(total) => Decimal::from(self.collateral.mint_total_supply).try_div(total),
                Err(e) => Err(e),
            }
        }
    }

    /// Liquidity per collateral share.
    pub fn liquidity_per_collateral(&self) -> (r: Result<Decimal, LendingError>)
        ensures
            r == self.liquidity_per_collateral_spec(),
    {
        if self.collateral.mint_total_supply == 0 {
            Decimal::one().try_div(Decimal::from(INITIAL_COLLATERAL_RATIO))
        } else {
            match self.liquidity.total_supply() {
                Ok(total) => total.try_div(Decimal::from(self.collateral.mint_total_supply)),
                Err(e) => Err(e),
            }
        }
    }

    /// The shares minted for `liquidity_amount`, rounded down.
    pub fn liquidity_to_collateral(&self, liquidity_amount: u64) -> (r: Result<u64, LendingError>)
        ensures
            r == self.liquidity_to_collateral_spec(liquidity_amount),
    {
        match self.collateral_per_liquidity() {
            Ok(rate) => match rate.try_mul_u64(liquidity_amount) {
                Ok(shares) => shares.try_floor_u64(),
                Err(e) => Err(e),
            },
            Err(e) => Err(e),
        }
    }

    /// The liquidity paid out for `collateral_amount` shares, rounded down.
    pub fn collateral_to_liquidity(&self, collateral_amount: u64) -> (r: Result<u64, LendingError>)
        ensures
            r == self.collateral_to_liquidity_spec(collateral_amount),
    {
        match self.liquidity_per_collateral() {
            Ok(rate) => match rate.try_mul_u64(collateral_amount) {
                Ok(liquidity) => liquidity.try_floor_u64(),
                Err(e) => Err(e),
            },
            Err(e) => Err(e),
        }
    }

    /// Takes a deposit of `liquidity_amount` and returns the collateral
    /// shares to mint for it. `InvalidAmount` for a deposit of nothing,
    /// `DepositLimitExceeded` where the reserve would hold more than its
    /// deposit limit, `MathOverflow` where an amount does not fit. On an
    /// error the reserve is left as it was.
    pub fn deposit_liquidity(&mut self, liquidity_amount: u64) -> (r: Result<u64, LendingError>)
        ensures
            match old(self).deposit_liquidity_spec(liquidity_amount) {
                Ok((after, shares)) => r == Ok::<u64, LendingError>(shares) && *final(self)
                    == after,
                Err(e) => r == Err::<u64, LendingError>(e) && *final(self) == *old(self),
            },
    {
        if liquidity_amount == 0 {
            return Err(LendingError::InvalidAmount);
        }
        let total = match self.liquidity.total_supply() {
            Ok(v) => v,
            Err(e) => {
                return Err(e);
            },
        };
        let after = match Decimal::from(liquidity_amount).try_add(total) {
            Ok(v) => v,
            Err(_) => {
                proof {
                    lemma_limit_below_modulus(self.config.deposit_limit);
                }
                return Err(LendingError::DepositLimitExceeded);
            },
        };
        if after.gt(&Decimal::from(self.config.deposit_limit)) {
            return Err(LendingError::DepositLimitExceeded);
        }
        let shares = match self.liquidity_to_collateral(liquidity_amount) {
            Ok(v) => v,
            Err(e) => {
                return Err(e);
            },
        };
        if liquidity_amount > u64::MAX - self.liquidity.available_amount || shares > u64::MAX
            - self.collateral.mint_total_supply {
            return Err(LendingError::MathOverflow);
        }
        self.liquidity.available_amount = self.liquidity.available_amount + liquidity_amount;
        self.collateral.mint_total_supply = self.collateral.mint_total_supply + shares;
        self.last_update.mark_stale();
        Ok(shares)
    }

    /// Redeems `collateral_amount` shares at `current_slot` and returns the
    /// liquidity to pay out. `InvalidAmount` for no shares or more than are
    /// outstanding, `InsufficientLiquidity` where the reserve has less on
    /// hand than it would pay, `OutflowRateLimitExceeded` where the rate
    /// limiter refuses the outflow. On an error the reserve is left as it
    /// was.
    pub fn redeem_collateral(&mut self, collateral_amount: u64, current_slot: u64) -> (r: Result<
        u64,
        LendingError,
    >)
        ensures
            match old(self).redeem_collateral_spec(collateral_amount, current_slot) {
                Ok((after, liquidity)) => r == Ok::<u64, LendingError>(liquidity) && *final(self)
                    == after,
                Err(e) => r == Err::<u64, LendingError>(e) && *final(self) == *old(self),
            },
    {
        if collateral_amount == 0 || collateral_amount > self.collateral.mint_total_supply {
            return Err(LendingError::InvalidAmount);
        }
        let liquidity = match self.collateral_to_liquidity(collateral_amount) {
            Ok(v) => v,
            Err(e) => {
                return Err(e);
            },
        };
        if liquidity > self.liquidity.available_amount {
            return Err(LendingError::InsufficientLiquidity);
        }
        let mut limiter = self.rate_limiter;
        match limiter.try_update(current_slot, Decimal::from(liquidity)) {
            Ok(_) => {},
            Err(e) => {
                return Err(e);
            },
        }
        self.liquidity.available_amount = self.liquidity.available_amount - liquidity;
        self.collateral.mint_total_supply = self.collateral.mint_total_supply - collateral_amount;
        self.rate_limiter = limiter;
        self.last_update.mark_stale();
        Ok(liquidity)
    }

    /// A reserve that only ever saw deposits and redemptions: nothing is
    /// lent out, and one share stands for one unit of liquidity.
    pub open spec fn at_par(self) -> bool {
        &&& self.liquidity.borrowed_amount_wads@ == 0
        &&& self.collateral.mint_total_supply == self.liquidity.available_amount
    }
}

/// A whole number of tokens, as a decimal, fits in 192 bits.
pub proof fn lemma_limit_below_modulus(limit: u64)
    ensures
        (limit as nat) * (WAD as nat) < modulus(),
        Decimal::from_spec(limit)@ == (limit as nat) * (WAD as nat),
{
    assert((limit as nat) * (WAD as nat) <= 0xFFFF_FFFF_FFFF_FFFF * 1_000_000_000_000_000_000)
        by (nonlinear_arith)
        requires
            limit <= 0xFFFF_FFFF_FFFF_FFFF,
            WAD == 1_000_000_000_000_000_000,
    ;
}

/// At par a deposit mints one share per unit, and the reserve stays at par.
pub proof fn lemma_deposit_at_par(reserve: Reserve, liquidity_amount: u64)
    requires
        reserve.at_par(),
        reserve.deposit_liquidity_spec(liquidity_amount) is Ok,
    ensures
        reserve.deposit_liquidity_spec(liquidity_amount)->Ok_0.1 == liquidity_amount,
        reserve.deposit_liquidity_spec(liquidity_amount)->Ok_0.0.at_par(),
        reserve.deposit_liquidity_spec(liquidity_amount)->Ok_0.0.liquidity.available_amount
            == reserve.liquidity.available_amount + liquidity_amount,
{
    lemma_par_rates(reserve);
    lemma_whole_times_one(liquidity_amount);
}

/// At par a redemption pays one unit per share, and the reserve stays at par.
pub proof fn lemma_redeem_at_par(reserve: Reserve, collateral_amount: u64, current_slot: u64)
    requires
        reserve.at_par(),
        reserve.redeem_collateral_spec(collateral_amount, current_slot) is Ok,
    ensures
        reserve.redeem_collateral_spec(collateral_amount, current_slot)->Ok_0.1
            == collateral_amount,
        reserve.redeem_collateral_spec(collateral_amount, current_slot)->Ok_0.0.at_par(),
        reserve.redeem_collateral_spec(
            collateral_amount,
            current_slot,
        )->Ok_0.0.liquidity.available_amount == reserve.liquidity.available_amount
            - collateral_amount,
{
    lemma_par_rates(reserve);
    lemma_whole_times_one(collateral_amount);
}

/// With nothing lent out in between, a deposit and the redemption of the
/// shares minted for it are inverse to each other: from a reserve at par, the
/// redemption pays out exactly what was deposited, and the liquidity on hand
/// and the shares outstanding are again what they were.
pub proof fn lemma_deposit_redeem_conserves(
    reserve: Reserve,
    liquidity_amount: u64,
    current_slot: u64,
)
    requires
        reserve.at_par(),
        reserve.deposit_liquidity_spec(liquidity_amount) is Ok,
        reserve.deposit_liquidity_spec(liquidity_amount)->Ok_0.0.redeem_collateral_spec(
            reserve.deposit_liquidity_spec(liquidity_amount)->Ok_0.1,
            current_slot,
        ) is Ok,
    ensures
        ({
            let deposited = reserve.deposit_liquidity_spec(liquidity_amount)->Ok_0;
            let redeemed = deposited.0.redeem_collateral_spec(deposited.1, current_slot)->Ok_0;
            &&& redeemed.1 == liquidity_amount
            &&& redeemed.0.liquidity.available_amount == reserve.liquidity.available_amount
            &&& redeemed.0.collateral.mint_total_supply == reserve.collateral.mint_total_supply
            &&& redeemed.0.liquidity.borrowed_amount_wads
                == reserve.liquidity.borrowed_amount_wads
            &&& redeemed.0.at_par()
        }),
{
    lemma_deposit_at_par(reserve, liquidity_amount);
    let deposited = reserve.deposit_liquidity_spec(liquidity_amount)->Ok_0;
    lemma_redeem_at_par(deposited.0, deposited.1, current_slot);
}

/// The arithmetic behind `lemma_redeem_never_exceeds_deposit`: shares
/// minted at a rate rounded down, and paid out at a rate rounded down, are
/// worth no more than what was put in for them.
pub proof fn lemma_round_trip_bound(
    w: int,
    total: int,
    supply: int,
    x: int,
    rate_in: int,
    shares: int,
    rate_out: int,
    y: int,
)
    requires
        0 < w,
        0 < total,
        0 < supply,
        0 <= x,
        0 <= shares,
        0 <= y,
        0 <= rate_in,
        0 <= rate_out,
        rate_in * total <= supply * w * w,
        shares * w <= rate_in * x,
        rate_out * ((supply + shares) * w) <= (total + x * w) * w,
        y * w <= rate_out * shares,
    ensures
        y <= x,
{
    assert(shares * w * total <= supply * w * w * x) by (nonlinear_arith)
        requires
            rate_in * total <= supply * w * w,
            shares * w <= rate_in * x,
            0 <= x,
            0 < total,
            0 <= rate_in,
    ;
    assert(shares * total <= supply * w * x) by (nonlinear_arith)
        requires
            shares * w * total <= supply * w * w * x,
            0 < w,
    ;
    assert(rate_out * (supply + shares) <= total + x * w) by (nonlinear_arith)
        requires
            rate_out * ((supply + shares) * w) <= (total + x * w) * w,
            0 < w,
    ;
    assert(y * w * (supply + shares) <= (total + x * w) * shares) by (nonlinear_arith)
        requires
            y * w <= rate_out * shares,
            rate_out * (supply + shares) <= total + x * w,
            0 <= shares,
            0 < supply,
            0 <= rate_out,
    ;
    assert(y * w * (supply + shares) <= x * w * (supply + shares)) by (nonlinear_arith)
        requires
            y * w * (supply + shares) <= (total + x * w) * shares,
            shares * total <= supply * w * x,
    ;
    assert(y <= x) by (nonlinear_arith)
        requires
            y * w * (supply + shares) <= x * w * (supply + shares),
            0 < w,
            0 < supply,
            0 <= shares,
    ;
}

/// Whatever the exchange rate, redeeming the shares that a deposit minted
/// never pays out more than was deposited, and the liquidity on hand moves
/// by the deposit and back by what is paid out. This holds for every
/// reserve with shares outstanding; a reserve that holds liquidity but has
/// no shares outstanding hands that liquidity to the first depositor.
pub proof fn lemma_redeem_never_exceeds_deposit(
    reserve: Reserve,
    liquidity_amount: u64,
    current_slot: u64,
)
    requires
        reserve.collateral.mint_total_supply > 0,
        reserve.deposit_liquidity_spec(liquidity_amount) is Ok,
        reserve.deposit_liquidity_spec(liquidity_amount)->Ok_0.0.redeem_collateral_spec(
            reserve.deposit_liquidity_spec(liquidity_amount)->Ok_0.1,
            current_slot,
        ) is Ok,
    ensures
        ({
            let deposited = reserve.deposit_liquidity_spec(liquidity_amount)->Ok_0;
            let redeemed = deposited.0.redeem_collateral_spec(deposited.1, current_slot)->Ok_0;
            &&& redeemed.1 <= liquidity_amount
            &&& redeemed.0.liquidity.available_amount == reserve.liquidity.available_amount
                + liquidity_amount - redeemed.1
            &&& redeemed.0.collateral.mint_total_supply == reserve.collateral.mint_total_supply
            &&& redeemed.0.liquidity.borrowed_amount_wads
                == reserve.liquidity.borrowed_amount_wads
        }),
{
    let w = WAD as nat;
    let x = liquidity_amount as nat;
    let supply = reserve.collateral.mint_total_supply as nat;
    let deposited = reserve.deposit_liquidity_spec(liquidity_amount)->Ok_0;
    let shares = deposited.1 as nat;
    let redeemed = deposited.0.redeem_collateral_spec(deposited.1, current_slot)->Ok_0;
    let y = redeemed.1 as nat;
    lemma_limit_below_modulus(reserve.collateral.mint_total_supply);
    lemma_limit_below_modulus(reserve.liquidity.available_amount);
    lemma_limit_below_modulus(deposited.0.collateral.mint_total_supply);
    lemma_limit_below_modulus(deposited.0.liquidity.available_amount);
    let total = reserve.liquidity.total_supply_spec()->Ok_0@;
    let rate_in = reserve.collateral_per_liquidity_spec()->Ok_0@;
    let total_after = deposited.0.liquidity.total_supply_spec()->Ok_0@;
    let rate_out = deposited.0.liquidity_per_collateral_spec()->Ok_0@;
    assert(total > 0);
    assert(total_after == total + x * w) by (nonlinear_arith)
        requires
            total == (reserve.liquidity.available_amount as nat) * w
                + reserve.liquidity.borrowed_amount_wads@,
            total_after == ((reserve.liquidity.available_amount + liquidity_amount) as nat) * w
                + reserve.liquidity.borrowed_amount_wads@,
            x == liquidity_amount as nat,
    ;
    // rate_in == supply * w * w / total
    vstd::arithmetic::div_mod::lemma_fundamental_div_mod((supply * w * w) as int, total as int);
    vstd::arithmetic::div_mod::lemma_mod_pos_bound((supply * w * w) as int, total as int);
    assert(rate_in * total <= supply * w * w) by (nonlinear_arith)
        requires
            rate_in == (supply * w * w) / total,
            supply * w * w == total * ((supply * w * w) / total) + (supply * w * w) % total,
            0 <= (supply * w * w) % total,
    ;
    // shares == rate_in * x / w
    vstd::arithmetic::div_mod::lemma_fundamental_div_mod((rate_in * x) as int, w as int);
    vstd::arithmetic::div_mod::lemma_mod_pos_bound((rate_in * x) as int, w as int);
    assert(shares * w <= rate_in * x) by (nonlinear_arith)
        requires
            shares == (rate_in * x) / w,
            rate_in * x == w * ((rate_in * x) / w) + (rate_in * x) % w,
            0 <= (rate_in * x) % w,
    ;
    // rate_out == total_after * w / ((supply + shares) * w)
    let after_supply = (supply + shares) * w;
    assert(after_supply > 0) by (nonlinear_arith)
        requires
            after_supply == (supply + shares) * w,
            supply > 0,
            w > 0,
    ;
    vstd::arithmetic::div_mod::lemma_fundamental_div_mod(
        (total_after * w) as int,
        after_supply as int,
    );
    vstd::arithmetic::div_mod::lemma_mod_pos_bound((total_after * w) as int, after_supply as int);
    assert(rate_out * after_supply <= total_after * w) by (nonlinear_arith)
        requires
            rate_out == (total_after * w) / after_supply,
            total_after * w == after_supply * ((total_after * w) / after_supply) + (total_after
                * w) % after_supply,
            0 <= (total_after * w) % after_supply,
    ;
    // y == rate_out * shares / w
    vstd::arithmetic::div_mod::lemma_fundamental_div_mod((rate_out * shares) as int, w as int);
    vstd::arithmetic::div_mod::lemma_mod_pos_bound((rate_out * shares) as int, w as int);
    assert(y * w <= rate_out * shares) by (nonlinear_arith)
        requires
            y == (rate_out * shares) / w,
            rate_out * shares == w * ((rate_out * shares) / w) + (rate_out * shares) % w,
            0 <= (rate_out * shares) % w,
    ;
    lemma_round_trip_bound(
        w as int,
        total as int,
        supply as int,
        x as int,
        rate_in as int,
        shares as int,
        rate_out as int,
        y as int,
    );
}

/// At par both exchange rates are exactly one.
pub proof fn lemma_par_rates(reserve: Reserve)
    requires
        reserve.at_par(),
    ensures
        reserve.collateral_per_liquidity_spec() == Ok::<Decimal, LendingError>(
            scaled(WAD as nat),
        ),
        reserve.liquidity_per_collateral_spec() == Ok::<Decimal, LendingError>(
            scaled(WAD as nat),
        ),
{
    let supply = reserve.collateral.mint_total_supply;
    lemma_limit_below_modulus(supply);
    lemma_limit_below_modulus(1);
    let w = WAD as nat;
    if supply == 0 {
        assert(w * w / w == w) by (nonlinear_arith)
            requires
                w == 1_000_000_000_000_000_000,
        ;
        assert(w * w < modulus()) by (nonlinear_arith)
            requires
                w == 1_000_000_000_000_000_000,
        ;
        assert(Decimal::from_spec(INITIAL_COLLATERAL_RATIO)@ == w);
    } else {
        let t = (supply as nat) * w;
        assert(reserve.liquidity.total_supply_spec() == Ok::<Decimal, LendingError>(scaled(t)));
        assert(t * w < modulus()) by (nonlinear_arith)
            requires
                t <= 0xFFFF_FFFF_FFFF_FFFF * 1_000_000_000_000_000_000,
                w == 1_000_000_000_000_000_000,
        ;
        assert(t * w / t == w) by (nonlinear_arith)
            requires
                t > 0,
        ;
    }
}

/// A whole number times one, rounded down, is the number.
pub proof fn lemma_whole_times_one(amount: u64)
    ensures
        scaled(WAD as nat).try_mul_u64_spec(amount) == Ok::<Decimal, LendingError>(
            scaled((WAD as nat) * (amount as nat)),
        ),
        scaled((WAD as nat) * (amount as nat)).try_floor_u64_spec() == Ok::<u64, LendingError>(
            amount,
        ),
{
    lemma_limit_below_modulus(amount);
    let w = WAD as nat;
    let a = amount as nat;
    assert(w * a == a * w) by (nonlinear_arith);
    assert(w * a / w == a) by (nonlinear_arith)
        requires
            w > 0,
    ;
}


/// Ten to the power `n`.
pub open spec fn pow10(n: nat) -> nat
    decreases n,
{
    if n == 0 {
        1
    } else {
        10 * pow10((n - 1) as nat)
    }
}

/// Powers of ten grow with the exponent.
pub proof fn lemma_pow10_monotonic(a: nat, b: nat)
    requires
        a <= b,
    ensures
        1 <= pow10(a) <= pow10(b),
    decreases b,
{
    if a == 0 {
        if b > 0 {
            lemma_pow10_monotonic(0, (b - 1) as nat);
        }
    } else {
        lemma_pow10_monotonic((a - 1) as nat, (b - 1) as nat);
    }
}

/// Ten to the power `n`, where it fits in 64 bits.
pub fn checked_pow10(n: u32) -> (r: Option<u64>)
    ensures
        r == (if pow10(n as nat) <= u64::MAX {
            Some(pow10(n as nat) as u64)
        } else {
            None
        }),
{
    let mut acc: u64 = 1;
    let mut i: u32 = 0;
    while i < n
        invariant
            i <= n,
            acc == pow10(i as nat),
        decreases n - i,
    {
        if acc > u64::MAX / 10 {
            proof {
                lemma_pow10_monotonic((i + 1) as nat, n as nat);
            }
            return None;
        }
        acc = acc * 10;
        i = i + 1;
    }
    Some(acc)
}

/// What a borrow comes to.
#[derive(Clone, Copy, Debug, PartialEq, Eq, Structural)]
pub struct CalculateBorrowResult {
    /// Debt taken on: what is received plus the fee.
    pub borrow_amount: Decimal,
    /// Liquidity the borrower receives.
    pub receive_amount: u64,
    /// The whole fee, host's share included.
    pub borrow_fee: u64,
    /// The host's share of the fee.
    pub host_fee: u64,
    /// Value of the debt in the quote currency, with its borrow weight.
    pub borrow_value: Decimal,
}

/// What a repayment comes to.
#[derive(Clone, Copy, Debug, PartialEq, Eq, Structural)]
pub struct CalculateRepayResult {
    /// Debt that is settled.
    pub settle_amount: Decimal,
    /// Liquidity the repayer pays: the settled debt rounded up.
    pub repay_amount: u64,
}

impl ReserveFees {
    /// The fee on `amount` at the rate `fee_wad`, and the host's share of it.
    /// A fee that is charged at all is at least one unit. With `inclusive`
    /// the amount already holds the fee. The host gets its percentage of the
    /// fee, rounded down.
    pub open spec fn calculate_fees_spec(self, amount: Decimal, fee_wad: u64, inclusive: bool) -> Result<
        (u64, u64),
        LendingError,
    > {
        if fee_wad == 0 || amount@ == 0 {
            Ok((0u64, 0u64))
        } else if self.host_fee_percentage > 100 {
            Err(LendingError::InvalidConfig)
        } else {
            let rate = scaled(fee_wad as nat);
            let effective = if inclusive {
                rate.try_div_spec(scaled((fee_wad + WAD) as nat))
            } else {
                Ok(rate)
            };
            match effective {
                Err(e) => Err(e),
                Ok(eff) => match amount.try_mul_spec(eff) {
                    Err(e) => Err(e),
                    Ok(exact) => match exact.try_round_u64_spec() {
                        Err(e) => Err(e),
                        Ok(rounded) => {
                            let fee = if rounded == 0 {
                                1u64
                            } else {
                                rounded
                            };
                            if (fee as nat) * (WAD as nat) >= amount@ {
                                Err(LendingError::BorrowTooSmall)
                            } else {
                                Ok(
                                    (
                                        fee,
                                        ((fee as nat) * (self.host_fee_percentage as nat)
                                            / 100) as u64,
                                    ),
                                )
                            }
                        },
                    },
                },
            }
        }
    }

    /// The fee on `amount` at the rate `fee_wad`, and the host's share of it.
    /// `BorrowTooSmall` where the fee would take the whole amount,
    /// `InvalidConfig` where the host's share exceeds 100%.
    pub fn calculate_fees(&self, amount: Decimal, fee_wad: u64, inclusive: bool) -> (r: Result<
        (u64, u64),
        LendingError,
    >)
        ensures
            r == self.calculate_fees_spec(amount, fee_wad, inclusive),
    {
        if fee_wad == 0 || amount.is_zero() {
            return Ok((0, 0));
        }
        if self.host_fee_percentage > 100 {
            return Err(LendingError::InvalidConfig);
        }
        let rate = Decimal::from_scaled_val(fee_wad as u128);
        let eff = if inclusive {
            let whole = Decimal::from_scaled_val(fee_wad as u128 + WAD as u128);
            match rate.try_div(whole) {
                Ok(v) => v,
                Err(e) => {
                    return Err(e);
                },
            }
        } else {
            rate
        };
        let exact = match amount.try_mul(eff) {
            Ok(v) => v,
            Err(e) => {
                return Err(e);
            },
        };
        let rounded = match exact.try_round_u64() {
            Ok(v) => v,
            Err(e) => {
                return Err(e);
            },
        };
        let fee: u64 = if rounded == 0 {
            1
        } else {
            rounded
        };
        proof {
            lemma_limit_below_modulus(fee);
        }
        if Decimal::from(fee).ge(&amount) {
            return Err(LendingError::BorrowTooSmall);
        }
        assert((fee as nat) * (self.host_fee_percentage as nat) <= 0xFFFF_FFFF_FFFF_FFFF * 100)
            by (nonlinear_arith)
            requires
                fee <= 0xFFFF_FFFF_FFFF_FFFF,
                self.host_fee_percentage <= 100,
        ;
        let host: u128 = (fee as u128) * (self.host_fee_percentage as u128) / 100;
        assert(host <= fee) by (nonlinear_arith)
            requires
                host == (fee as nat) * (self.host_fee_percentage as nat) / 100,
                self.host_fee_percentage <= 100,
        ;
        Ok((fee, host as u64))
    }

    /// The fee on a borrow of `amount`, and the host's share of it.
    pub fn calculate_borrow_fees(&self, amount: Decimal, inclusive: bool) -> (r: Result<
        (u64, u64),
        LendingError,
    >)
        ensures
            r == self.calculate_fees_spec(amount, self.borrow_fee_wad, inclusive),
    {
        self.calculate_fees(amount, self.borrow_fee_wad, inclusive)
    }

    /// The fee on a flash loan of `amount`, and the host's share of it.
    pub fn calculate_flash_loan_fees(&self, amount: Decimal) -> (r: Result<
        (u64, u64),
        LendingError,
    >)
        ensures
            r == self.calculate_fees_spec(amount, self.flash_loan_fee_wad, false),
    {
        self.calculate_fees(amount, self.flash_loan_fee_wad, false)
    }
}

impl Reserve {
    /// Value in the quote currency of `amount` units of liquidity: the price
    /// of a whole token times the amount, over the units in a whole token.
    pub open spec fn market_value_spec(self, amount: Decimal) -> Result<Decimal, LendingError> {
        if pow10(self.liquidity.mint_decimals as nat) > u64::MAX {
            Err(LendingError::MathOverflow)
        } else {
            match self.liquidity.market_price.try_mul_spec(amount) {
                Ok(v) => v.try_div_u64_spec(pow10(self.liquidity.mint_decimals as nat) as u64),
                Err(e) => Err(e),
            }
        }
    }

    /// What a borrow from this reserve counts for: one plus the added weight.
    pub open spec fn borrow_weight_spec(self) -> Result<Decimal, LendingError> {
        scaled(WAD as nat).try_add_spec(
            scaled((self.config.added_borrow_weight_bps as nat) * (BPS_SCALER as nat)),
        )
    }

    /// Value of `amount` units of debt, with the reserve's borrow weight.
    pub open spec fn weighted_value_spec(self, amount: Decimal) -> Result<Decimal, LendingError> {
        match self.market_value_spec(amount) {
            Ok(value) => match self.borrow_weight_spec() {
                Ok(weight) => value.try_mul_spec(weight),
                Err(e) => Err(e),
            },
            Err(e) => Err(e),
        }
    }

    /// The most that `max_borrow_value` of the quote currency borrows from
    /// this reserve: that value in units of liquidity at the current price,
    /// less the borrow weight, and no more than the reserve has on hand or
    /// may still lend.
    pub open spec fn max_borrow_amount_spec(self, max_borrow_value: Decimal) -> Result<
        Decimal,
        LendingError,
    > {
        if pow10(self.liquidity.mint_decimals as nat) > u64::MAX {
            Err(LendingError::MathOverflow)
        } else {
            match max_borrow_value.try_mul_u64_spec(
                pow10(self.liquidity.mint_decimals as nat) as u64,
            ) {
                Err(e) => Err(e),
                Ok(units) => match units.try_div_spec(self.liquidity.market_price) {
                    Err(e) => Err(e),
                    Ok(unweighted) => match self.borrow_weight_spec() {
                        Err(e) => Err(e),
                        Ok(weight) => match unweighted.try_div_spec(weight) {
                            Err(e) => Err(e),
                            Ok(raw) => Ok(
                                raw.min_spec(
                                    Decimal::from_spec(self.liquidity.available_amount),
                                ).min_spec(
                                    Decimal::from_spec(
                                        self.config.borrow_limit,
                                    ).saturating_sub_spec(self.liquidity.borrowed_amount_wads),
                                ),
                            ),
                        },
                    },
                },
            }
        }
    }

    /// What a borrow of `amount` comes to for an obligation that may still
    /// borrow `max_borrow_value`. An exact amount is what the borrower
    /// receives, and the fee comes on top of it as debt. `Max` stands for the
    /// largest debt that `max_borrow_value` allows, out of which the fee is
    /// paid.
    pub open spec fn calculate_borrow_spec(self, amount: Amount, max_borrow_value: Decimal) -> Result<
        CalculateBorrowResult,
        LendingError,
    > {
        match amount {
            Amount::Exact(receive) => if receive == 0 {
                Err(LendingError::InvalidAmount)
            } else {
                match self.config.fees.calculate_fees_spec(
                    Decimal::from_spec(receive),
                    self.config.fees.borrow_fee_wad,
                    false,
                ) {
                    Err(e) => Err(e),
                    Ok(fees) => match Decimal::from_spec(receive).try_add_spec(
                        Decimal::from_spec(fees.0),
                    ) {
                        Err(e) => Err(e),
                        Ok(borrow_amount) => match self.weighted_value_spec(borrow_amount) {
                            Err(e) => Err(e),
                            Ok(value) => if value@ > max_borrow_value@ {
                                Err(LendingError::BorrowTooLarge)
                            } else {
                                Ok(
                                    CalculateBorrowResult {
                                        borrow_amount,
                                        receive_amount: receive,
                                        borrow_fee: fees.0,
                                        host_fee: fees.1,
                                        borrow_value: value,
                                    },
                                )
                            },
                        },
                    },
                }
            },
            Amount::Max => match self.max_borrow_amount_spec(max_borrow_value) {
                Err(e) => Err(e),
                Ok(borrow_amount) => match self.config.fees.calculate_fees_spec(
                    borrow_amount,
                    self.config.fees.borrow_fee_wad,
                    true,
                ) {
                    Err(e) => Err(e),
                    Ok(fees) => match borrow_amount.try_floor_u64_spec() {
                        Err(e) => Err(e),
                        Ok(whole) => if whole <= fees.0 {
                            Err(LendingError::BorrowTooSmall)
                        } else {
                            match self.weighted_value_spec(borrow_amount) {
                                Err(e) => Err(e),
                                Ok(value) => if value@ > max_borrow_value@ {
                                    Err(LendingError::BorrowTooLarge)
                                } else {
                                    Ok(
                                        CalculateBorrowResult {
                                            borrow_amount,
                                            receive_amount: (whole - fees.0) as u64,
                                            borrow_fee: fees.0,
                                            host_fee: fees.1,
                                            borrow_value: value,
                                        },
                                    )
                                },
                            }
                        },
                    },
                },
            },
        }
    }

    /// The reserve after `borrow_amount` of debt was taken at `current_slot`:
    /// the whole units of it leave the liquidity on hand, and all of it is
    /// added to what is lent out.
    pub open spec fn borrow_spec(self, borrow_amount: Decimal, current_slot: u64) -> Result<
        Self,
        LendingError,
    > {
        match borrow_amount.try_floor_u64_spec() {
            Err(e) => Err(e),
            Ok(whole) => if whole > self.liquidity.available_amount {
                Err(LendingError::InsufficientLiquidity)
            } else {
                match self.liquidity.borrowed_amount_wads.try_add_spec(borrow_amount) {
                    Err(e) => Err(e),
                    Ok(lent) => if lent@ > (self.config.borrow_limit as nat) * (WAD as nat) {
                        Err(LendingError::BorrowLimitExceeded)
                    } else {
                        let limited = self.rate_limiter.try_update_spec(
                            current_slot,
                            borrow_amount,
                        );
                        match limited.1 {
                            Err(e) => Err(e),
                            Ok(_) => Ok(
                                Reserve {
                                    liquidity: ReserveLiquidity {
                                        available_amount: (self.liquidity.available_amount
                                            - whole) as u64,
                                        borrowed_amount_wads: lent,
                                        ..self.liquidity
                                    },
                                    last_update: LastUpdate {
                                        slot: self.last_update.slot,
                                        stale: true,
                                    },
                                    rate_limiter: limited.0,
                                    ..self
                                },
                            ),
                        }
                    },
                }
            },
        }
    }

    /// What a repayment of `amount` comes to against a debt of `borrowed`:
    /// no more than the debt is settled, and `Max` settles all of it. What is
    /// paid is the settled debt rounded up to whole units, so that a debt
    /// settled in full is cleared.
    pub open spec fn calculate_repay_spec(amount: Amount, borrowed: Decimal) -> Result<
        CalculateRepayResult,
        LendingError,
    > {
        match amount {
            Amount::Exact(pay) => if pay == 0 {
                Err(LendingError::InvalidAmount)
            } else {
                let settle = Decimal::from_spec(pay).min_spec(borrowed);
                match settle.try_ceil_u64_spec() {
                    Ok(repay_amount) => Ok(
                        CalculateRepayResult { settle_amount: settle, repay_amount },
                    ),
                    Err(e) => Err(e),
                }
            },
            Amount::Max => match borrowed.try_ceil_u64_spec() {
                Ok(repay_amount) => Ok(
                    CalculateRepayResult { settle_amount: borrowed, repay_amount },
                ),
                Err(e) => Err(e),
            },
        }
    }

    /// The reserve after `repay_amount` came in and `settle_amount` of debt
    /// was settled.
    pub open spec fn repay_spec(self, repay_amount: u64, settle_amount: Decimal) -> Result<
        Self,
        LendingError,
    > {
        if self.liquidity.available_amount + repay_amount > u64::MAX {
            Err(LendingError::MathOverflow)
        } else {
            Ok(
                Reserve {
                    liquidity: ReserveLiquidity {
                        available_amount: (self.liquidity.available_amount + repay_amount) as u64,
                        borrowed_amount_wads: self.liquidity.borrowed_amount_wads.saturating_sub_spec(
                            settle_amount,
                        ),
                        ..self.liquidity
                    },
                    last_update: LastUpdate { slot: self.last_update.slot, stale: true },
                    ..self
                },
            )
        }
    }

    /// The reserve after the protocol claimed its fees, and what it claimed:
    /// the whole units of the unclaimed fees, as far as liquidity is on hand.
    pub open spec fn redeem_fees_spec(self) -> Result<(Self, u64), LendingError> {
        match self.liquidity.accumulated_protocol_fees_wads.try_floor_u64_spec() {
            Err(e) => Err(e),
            Ok(whole) => {
                let claimed = if whole <= self.liquidity.available_amount {
                    whole
                } else {
                    self.liquidity.available_amount
                };
                Ok(
                    (
                        Reserve {
                            liquidity: ReserveLiquidity {
                                available_amount: (self.liquidity.available_amount
                                    - claimed) as u64,
                                accumulated_protocol_fees_wads: self.liquidity.accumulated_protocol_fees_wads.saturating_sub_spec(
                                Decimal::from_spec(claimed)),
                                ..self.liquidity
                            },
                            last_update: LastUpdate { slot: self.last_update.slot, stale: true },
                            ..self
                        },
                        claimed,
                    ),
                )
            },
        }
    }

    /// Value in the quote currency of `amount` units of liquidity.
    pub fn market_value(&self, amount: Decimal) -> (r: Result<Decimal, LendingError>)
        ensures
            r == self.market_value_spec(amount),
    {
        let units = match checked_pow10(self.liquidity.mint_decimals as u32) {
            Some(v) => v,
            None => {
                return Err(LendingError::MathOverflow);
            },
        };
        proof {
            lemma_pow10_monotonic(0, self.liquidity.mint_decimals as nat);
        }
        match self.liquidity.market_price.try_mul(amount) {
            Ok(v) => v.try_div_u64(units),
            Err(e) => Err(e),
        }
    }

    /// What a borrow from this reserve counts for.
    pub fn borrow_weight(&self) -> (r: Result<Decimal, LendingError>)
        ensures
            r == self.borrow_weight_spec(),
    {
        Decimal::one().try_add(Decimal::from_bps(self.config.added_borrow_weight_bps))
    }

    /// Value of `amount` units of debt, with the reserve's borrow weight.
    pub fn weighted_value(&self, amount: Decimal) -> (r: Result<Decimal, LendingError>)
        ensures
            r == self.weighted_value_spec(amount),
    {
        let value = match self.market_value(amount) {
            Ok(v) => v,
            Err(e) => {
                return Err(e);
            },
        };
        match self.borrow_weight() {
            Ok(weight) => value.try_mul(weight),
            Err(e) => Err(e),
        }
    }

    /// The most that `max_borrow_value` borrows from this reserve.
    pub fn max_borrow_amount(&self, max_borrow_value: Decimal) -> (r: Result<Decimal, LendingError>)
        ensures
            r == self.max_borrow_amount_spec(max_borrow_value),
    {
        let units = match checked_pow10(self.liquidity.mint_decimals as u32) {
            Some(v) => v,
            None => {
                return Err(LendingError::MathOverflow);
            },
        };
        let scaled_up = match max_borrow_value.try_mul_u64(units) {
            Ok(v) => v,
            Err(e) => {
                return Err(e);
            },
        };
        let unweighted = match scaled_up.try_div(self.liquidity.market_price) {
            Ok(v) => v,
            Err(e) => {
                return Err(e);
            },
        };
        let weight = match self.borrow_weight() {
            Ok(v) => v,
            Err(e) => {
                return Err(e);
            },
        };
        let raw = match unweighted.try_div(weight) {
            Ok(v) => v,
            Err(e) => {
                return Err(e);
            },
        };
        let room = Decimal::from(self.config.borrow_limit).saturating_sub(
            self.liquidity.borrowed_amount_wads,
        );
        Ok(raw.min(Decimal::from(self.liquidity.available_amount)).min(room))
    }

    /// What a borrow of `amount` comes to for an obligation that may still
    /// borrow `max_borrow_value`. `InvalidAmount` for a borrow of nothing,
    /// `BorrowTooSmall` where nothing is left after the fee, `BorrowTooLarge`
    /// where the value of the debt exceeds `max_borrow_value`.
    pub fn calculate_borrow(&self, amount: Amount, max_borrow_value: Decimal) -> (r: Result<
        CalculateBorrowResult,
        LendingError,
    >)
        ensures
            r == self.calculate_borrow_spec(amount, max_borrow_value),
    {
        match amount {
            Amount::Exact(receive) => {
                if receive == 0 {
                    return Err(LendingError::InvalidAmount);
                }
                let fees = match self.config.fees.calculate_borrow_fees(
                    Decimal::from(receive),
                    false,
                ) {
                    Ok(v) => v,
                    Err(e) => {
                        return Err(e);
                    },
                };
                let borrow_amount = match Decimal::from(receive).try_add(Decimal::from(fees.0)) {
                    Ok(v) => v,
                    Err(e) => {
                        return Err(e);
                    },
                };
                let value = match self.weighted_value(borrow_amount) {
                    Ok(v) => v,
                    Err(e) => {
                        return Err(e);
                    },
                };
                if value.gt(&max_borrow_value) {
                    return Err(LendingError::BorrowTooLarge);
                }
                Ok(
                    CalculateBorrowResult {
                        borrow_amount,
                        receive_amount: receive,
                        borrow_fee: fees.0,
                        host_fee: fees.1,
                        borrow_value: value,
                    },
                )
            },
            Amount::Max => {
                let borrow_amount = match self.max_borrow_amount(max_borrow_value) {
                    Ok(v) => v,
                    Err(e) => {
                        return Err(e);
                    },
                };
                let fees = match self.config.fees.calculate_borrow_fees(borrow_amount, true) {
                    Ok(v) => v,
                    Err(e) => {
                        return Err(e);
                    },
                };
                let whole = match borrow_amount.try_floor_u64() {
                    Ok(v) => v,
                    Err(e) => {
                        return Err(e);
                    },
                };
                if whole <= fees.0 {
                    return Err(LendingError::BorrowTooSmall);
                }
                let value = match self.weighted_value(borrow_amount) {
                    Ok(v) => v,
                    Err(e) => {
                        return Err(e);
                    },
                };
                if value.gt(&max_borrow_value) {
                    return Err(LendingError::BorrowTooLarge);
                }
                Ok(
                    CalculateBorrowResult {
                        borrow_amount,
                        receive_amount: whole - fees.0,
                        borrow_fee: fees.0,
                        host_fee: fees.1,
                        borrow_value: value,
                    },
                )
            },
        }
    }

    /// Takes `borrow_amount` of debt at `current_slot`.
    /// `InsufficientLiquidity` where the reserve has less on hand,
    /// `BorrowLimitExceeded` where it would lend more than its borrow limit,
    /// `OutflowRateLimitExceeded` where the rate limiter refuses the outflow.
    /// On an error the reserve is left as it was.
    pub fn borrow(&mut self, borrow_amount: Decimal, current_slot: u64) -> (r: Result<
        (),
        LendingError,
    >)
        ensures
            match old(self).borrow_spec(borrow_amount, current_slot) {
                Ok(after) => r is Ok && *final(self) == after,
                Err(e) => r == Err::<(), LendingError>(e) && *final(self) == *old(self),
            },
    {
        let whole = match borrow_amount.try_floor_u64() {
            Ok(v) => v,
            Err(e) => {
                return Err(e);
            },
        };
        if whole > self.liquidity.available_amount {
            return Err(LendingError::InsufficientLiquidity);
        }
        let lent = match self.liquidity.borrowed_amount_wads.try_add(borrow_amount) {
            Ok(v) => v,
            Err(e) => {
                return Err(e);
            },
        };
        proof {
            lemma_limit_below_modulus(self.config.borrow_limit);
        }
        if lent.gt(&Decimal::from(self.config.borrow_limit)) {
            return Err(LendingError::BorrowLimitExceeded);
        }
        let mut limiter = self.rate_limiter;
        match limiter.try_update(current_slot, borrow_amount) {
            Ok(_) => {},
            Err(e) => {
                return Err(e);
            },
        }
        self.liquidity.available_amount = self.liquidity.available_amount - whole;
        self.liquidity.borrowed_amount_wads = lent;
        self.rate_limiter = limiter;
        self.last_update.mark_stale();
        Ok(())
    }

    /// What a repayment of `amount` comes to against a debt of `borrowed`;
    /// `InvalidAmount` for a repayment of nothing.
    pub fn calculate_repay(amount: Amount, borrowed: Decimal) -> (r: Result<
        CalculateRepayResult,
        LendingError,
    >)
        ensures
            r == Self::calculate_repay_spec(amount, borrowed),
    {
        let settle = match amount {
            Amount::Exact(pay) => {
                if pay == 0 {
                    return Err(LendingError::InvalidAmount);
                }
                Decimal::from(pay).min(borrowed)
            },
            Amount::Max => borrowed,
        };
        match settle.try_ceil_u64() {
            Ok(repay_amount) => Ok(CalculateRepayResult { settle_amount: settle, repay_amount }),
            Err(e) => Err(e),
        }
    }

    /// Takes in `repay_amount` and settles `settle_amount` of debt. A
    /// repayment never fails for want of liquidity; `MathOverflow` where the
    /// liquidity on hand would not fit. On an error the reserve is left as
    /// it was.
    pub fn repay(&mut self, repay_amount: u64, settle_amount: Decimal) -> (r: Result<
        (),
        LendingError,
    >)
        ensures
            match old(self).repay_spec(repay_amount, settle_amount) {
                Ok(after) => r is Ok && *final(self) == after,
                Err(e) => r == Err::<(), LendingError>(e) && *final(self) == *old(self),
            },
    {
        if repay_amount > u64::MAX - self.liquidity.available_amount {
            return Err(LendingError::MathOverflow);
        }
        self.liquidity.available_amount = self.liquidity.available_amount + repay_amount;
        self.liquidity.borrowed_amount_wads = self.liquidity.borrowed_amount_wads.saturating_sub(
            settle_amount,
        );
        self.last_update.mark_stale();
        Ok(())
    }

    /// Claims the protocol's fees and returns what was claimed. On an error
    /// the reserve is left as it was.
    pub fn redeem_fees(&mut self) -> (r: Result<u64, LendingError>)
        ensures
            match old(self).redeem_fees_spec() {
                Ok((after, claimed)) => r == Ok::<u64, LendingError>(claimed) && *final(self)
                    == after,
                Err(e) => r == Err::<u64, LendingError>(e) && *final(self) == *old(self),
            },
    {
        let whole = match self.liquidity.accumulated_protocol_fees_wads.try_floor_u64() {
            Ok(v) => v,
            Err(e) => {
                return Err(e);
            },
        };
        let claimed: u64 = if whole <= self.liquidity.available_amount {
            whole
        } else {
            self.liquidity.available_amount
        };
        self.liquidity.available_amount = self.liquidity.available_amount - claimed;
        self.liquidity.accumulated_protocol_fees_wads =
        self.liquidity.accumulated_protocol_fees_wads.saturating_sub(Decimal::from(claimed));
        self.last_update.mark_stale();
        Ok(claimed)
    }
}


/// What a new reserve starts from.
#[derive(Clone, Copy, Debug, PartialEq, Eq)]
pub struct InitReserveParams {
    /// Slot at which the reserve is made.
    pub current_slot: u64,
    /// The market the reserve belongs to.
    pub lending_market: Pubkey,
    /// Mint of the token.
    pub liquidity_mint_pubkey: Pubkey,
    /// Decimal places of the token.
    pub liquidity_mint_decimals: u8,
    /// Price of one whole token in the quote currency.
    pub market_price: Decimal,
    /// Smoothed price of one whole token in the quote currency.
    pub smoothed_market_price: Decimal,
    /// Mint of the collateral shares.
    pub collateral_mint_pubkey: Pubkey,
    /// Terms.
    pub config: ReserveConfig,
    /// Limit on the outflow.
    pub rate_limiter: RateLimiter,
}

impl ReserveConfig {
    /// Terms that a reserve can have: percentages are at most 100, the
    /// loan-to-value ratio is below 100 and not above the liquidation
    /// threshold, the upper threshold and bonus are not below the lower
    /// ones, the borrow rates are in order, and fees are below the whole
    /// amount (a flash loan fee of `u64::MAX` switches flash loans off).
    pub open spec fn is_valid(self) -> bool {
        &&& self.optimal_utilization_rate <= 100
        &&& self.loan_to_value_ratio < 100
        &&& self.loan_to_value_ratio <= self.liquidation_threshold <= 100
        &&& self.liquidation_threshold <= self.max_liquidation_threshold <= 100
        &&& self.liquidation_bonus <= self.max_liquidation_bonus <= 100
        &&& self.min_borrow_rate <= self.optimal_borrow_rate <= self.max_borrow_rate
        &&& self.fees.borrow_fee_wad < WAD
        &&& (self.fees.flash_loan_fee_wad < WAD || self.fees.flash_loan_fee_wad == u64::MAX)
        &&& self.fees.host_fee_percentage <= 100
    }

    /// `InvalidConfig` unless the terms are ones that a reserve can have.
    pub fn validate(&self) -> (r: Result<(), LendingError>)
        ensures
            r == (if self.is_valid() {
                Ok::<(), LendingError>(())
            } else {
                Err(LendingError::InvalidConfig)
            }),
    {
        if self.optimal_utilization_rate <= 100 && self.loan_to_value_ratio < 100
            && self.loan_to_value_ratio <= self.liquidation_threshold
            && self.liquidation_threshold <= 100 && self.liquidation_threshold
            <= self.max_liquidation_threshold && self.max_liquidation_threshold <= 100
            && self.liquidation_bonus <= self.max_liquidation_bonus && self.max_liquidation_bonus
            <= 100 && self.min_borrow_rate <= self.optimal_borrow_rate && self.optimal_borrow_rate
            <= self.max_borrow_rate && self.fees.borrow_fee_wad < WAD && (
        self.fees.flash_loan_fee_wad < WAD || self.fees.flash_loan_fee_wad == u64::MAX)
            && self.fees.host_fee_percentage <= 100 {
            Ok(())
        } else {
            Err(LendingError::InvalidConfig)
        }
    }
}

impl Reserve {
    /// The empty reserve that `params` describe: nothing on hand, nothing
    /// lent out, no shares outstanding, a cumulative borrow rate of one.
    pub open spec fn new_spec(params: InitReserveParams) -> Reserve {
        Reserve {
            version: crate::state::PROGRAM_VERSION,
            last_update: LastUpdate { slot: params.current_slot, stale: true },
            lending_market: params.lending_market,
            liquidity: ReserveLiquidity {
                mint_pubkey: params.liquidity_mint_pubkey,
                mint_decimals: params.liquidity_mint_decimals,
                available_amount: 0,
                borrowed_amount_wads: scaled(0),
                cumulative_borrow_rate_wads: scaled(WAD as nat),
                accumulated_protocol_fees_wads: scaled(0),
                market_price: params.market_price,
                smoothed_market_price: params.smoothed_market_price,
            },
            collateral: ReserveCollateral {
                mint_pubkey: params.collateral_mint_pubkey,
                mint_total_supply: 0,
            },
            config: params.config,
            rate_limiter: params.rate_limiter,
        }
    }

    /// An empty reserve.
    pub fn new(params: InitReserveParams) -> (r: Reserve)
        ensures
            r == Self::new_spec(params),
            r.at_par(),
    {
        Reserve {
            version: crate::state::PROGRAM_VERSION,
            last_update: LastUpdate::new(params.current_slot),
            lending_market: params.lending_market,
            liquidity: ReserveLiquidity {
                mint_pubkey: params.liquidity_mint_pubkey,
                mint_decimals: params.liquidity_mint_decimals,
                available_amount: 0,
                borrowed_amount_wads: Decimal::zero(),
                cumulative_borrow_rate_wads: Decimal::one(),
                accumulated_protocol_fees_wads: Decimal::zero(),
                market_price: params.market_price,
                smoothed_market_price: params.smoothed_market_price,
            },
            collateral: ReserveCollateral {
                mint_pubkey: params.collateral_mint_pubkey,
                mint_total_supply: 0,
            },
            config: params.config,
            rate_limiter: params.rate_limiter,
        }
    }

    /// The reserve after `amount` was lent out as a flash loan.
    pub open spec fn flash_borrow_spec(self, amount: u64) -> Result<Self, LendingError> {
        if amount == 0 {
            Err(LendingError::InvalidAmount)
        } else if self.config.fees.flash_loan_fee_wad == u64::MAX {
            Err(LendingError::FlashLoansDisabled)
        } else if amount > self.liquidity.available_amount {
            Err(LendingError::InsufficientLiquidity)
        } else {
            match self.liquidity.borrowed_amount_wads.try_add_spec(Decimal::from_spec(amount)) {
                Err(e) => Err(e),
                Ok(lent) => Ok(
                    Reserve {
                        liquidity: ReserveLiquidity {
                            available_amount: (self.liquidity.available_amount - amount) as u64,
                            borrowed_amount_wads: lent,
                            ..self.liquidity
                        },
                        last_update: LastUpdate { slot: self.last_update.slot, stale: true },
                        ..self
                    },
                ),
            }
        }
    }

    /// What the repayment of a flash loan of `principal` has to bring: the
    /// principal and the flash loan fee on it.
    pub open spec fn flash_repay_due_spec(self, principal: u64) -> Result<u64, LendingError> {
        match self.config.fees.calculate_fees_spec(
            Decimal::from_spec(principal),
            self.config.fees.flash_loan_fee_wad,
            false,
        ) {
            Err(e) => Err(e),
            Ok(fees) => if principal + fees.0 > u64::MAX {
                Err(LendingError::MathOverflow)
            } else {
                Ok((principal + fees.0) as u64)
            },
        }
    }

    /// The reserve after a flash loan of `principal` came back with
    /// `repay_amount`, and the fee with the host's share of it. The
    /// repayment has to bring at least the principal and the fee.
    pub open spec fn flash_repay_spec(self, principal: u64, repay_amount: u64) -> Result<
        (Self, (u64, u64)),
        LendingError,
    > {
        if principal == 0 {
            Err(LendingError::InvalidAmount)
        } else {
            match self.config.fees.calculate_fees_spec(
                Decimal::from_spec(principal),
                self.config.fees.flash_loan_fee_wad,
                false,
            ) {
                Err(e) => Err(e),
                Ok(fees) => if repay_amount < principal + fees.0 {
                    Err(LendingError::InvalidFlashRepay)
                } else {
                    match self.repay_spec(principal, Decimal::from_spec(principal)) {
                        Err(e) => Err(e),
                        Ok(after) => Ok((after, fees)),
                    }
                },
            }
        }
    }

    /// Lends out `amount` as a flash loan. `InvalidAmount` for nothing,
    /// `FlashLoansDisabled` where the reserve gives no flash loans,
    /// `InsufficientLiquidity` where it has less on hand. On an error the
    /// reserve is left as it was.
    pub fn flash_borrow(&mut self, amount: u64) -> (r: Result<(), LendingError>)
        ensures
            match old(self).flash_borrow_spec(amount) {
                Ok(after) => r is Ok && *final(self) == after,
                Err(e) => r == Err::<(), LendingError>(e) && *final(self) == *old(self),
            },
    {
        if amount == 0 {
            return Err(LendingError::InvalidAmount);
        }
        if self.config.fees.flash_loan_fee_wad == u64::MAX {
            return Err(LendingError::FlashLoansDisabled);
        }
        if amount > self.liquidity.available_amount {
            return Err(LendingError::InsufficientLiquidity);
        }
        let lent = match self.liquidity.borrowed_amount_wads.try_add(Decimal::from(amount)) {
            Ok(v) => v,
            Err(e) => {
                return Err(e);
            },
        };
        self.liquidity.available_amount = self.liquidity.available_amount - amount;
        self.liquidity.borrowed_amount_wads = lent;
        self.last_update.mark_stale();
        Ok(())
    }

    /// What the repayment of a flash loan of `principal` has to bring.
    pub fn flash_repay_due(&self, principal: u64) -> (r: Result<u64, LendingError>)
        ensures
            r == self.flash_repay_due_spec(principal),
    {
        let fees = match self.config.fees.calculate_flash_loan_fees(Decimal::from(principal)) {
            Ok(v) => v,
            Err(e) => {
                return Err(e);
            },
        };
        if fees.0 > u64::MAX - principal {
            Err(LendingError::MathOverflow)
        } else {
            Ok(principal + fees.0)
        }
    }

    /// Takes back a flash loan of `principal` that is repaid with
    /// `repay_amount`, and returns the fee and the host's share of it.
    /// `InvalidFlashRepay` where the repayment brings less than the
    /// principal and the fee. On an error the reserve is left as it was.
    pub fn flash_repay(&mut self, principal: u64, repay_amount: u64) -> (r: Result<
        (u64, u64),
        LendingError,
    >)
        ensures
            match old(self).flash_repay_spec(principal, repay_amount) {
                Ok((after, fees)) => r == Ok::<(u64, u64), LendingError>(fees) && *final(self)
                    == after,
                Err(e) => r == Err::<(u64, u64), LendingError>(e) && *final(self) == *old(self),
            },
    {
        if principal == 0 {
            return Err(LendingError::InvalidAmount);
        }
        let fees = match self.config.fees.calculate_flash_loan_fees(Decimal::from(principal)) {
            Ok(v) => v,
            Err(e) => {
                return Err(e);
            },
        };
        if fees.0 > u64::MAX - principal || repay_amount < principal + fees.0 {
            return Err(LendingError::InvalidFlashRepay);
        }
        match self.repay(principal, Decimal::from(principal)) {
            Ok(_) => Ok(fees),
            Err(e) => Err(e),
        }
    }
}

} // verus!
