use token_lending::amount::Amount;
use token_lending::error::LendingError;
use token_lending::math::decimal::Decimal;
use token_lending::operations::{
    init_reserve, refresh_reserve, update_reserve_config, MarketParams,
};
use token_lending::pubkey::Pubkey;
use token_lending::state::last_update::LastUpdate;
use token_lending::state::rate_limiter::RateLimiter;
use token_lending::state::reserve::{
    checked_pow10, compound, interpolate, CalculateBorrowResult, CalculateRepayResult,
    InitReserveParams, Reserve, ReserveConfig, ReserveFees, INITIAL_COLLATERAL_RATIO,
    SLOTS_PER_YEAR,
};

const WAD: u128 = 1_000_000_000_000_000_000;

fn dec(scaled: u128) -> Decimal {
    Decimal::from_scaled_val(scaled)
}

fn config() -> ReserveConfig {
    ReserveConfig {
        optimal_utilization_rate: 50,
        loan_to_value_ratio: 50,
        liquidation_bonus: 5,
        max_liquidation_bonus: 10,
        liquidation_threshold: 55,
        max_liquidation_threshold: 65,
        min_borrow_rate: 0,
        optimal_borrow_rate: 10,
        max_borrow_rate: 300,
        fees: ReserveFees { borrow_fee_wad: 0, flash_loan_fee_wad: 0, host_fee_percentage: 0 },
        deposit_limit: u64::MAX,
        borrow_limit: u64::MAX,
        fee_receiver: Pubkey([9; 32]),
        added_borrow_weight_bps: 0,
    }
}

fn params(slot: u64) -> InitReserveParams {
    InitReserveParams {
        current_slot: slot,
        lending_market: Pubkey([1; 32]),
        liquidity_mint_pubkey: Pubkey([2; 32]),
        liquidity_mint_decimals: 0,
        market_price: Decimal::one(),
        smoothed_market_price: Decimal::one(),
        collateral_mint_pubkey: Pubkey([3; 32]),
        config: config(),
        rate_limiter: RateLimiter::default(),
    }
}

fn reserve(available: u64, borrowed: u64, supply: u64) -> Reserve {
    let mut r = Reserve::new(params(1));
    r.liquidity.available_amount = available;
    r.liquidity.borrowed_amount_wads = Decimal::from(borrowed);
    r.collateral.mint_total_supply = supply;
    r.last_update = LastUpdate { slot: 1, stale: false };
    r
}

#[test]
fn new_reserve_is_empty() {
    let r = Reserve::new(params(7));
    assert_eq!(r.last_update, LastUpdate { slot: 7, stale: true });
    assert_eq!(r.liquidity.available_amount, 0);
    assert_eq!(r.liquidity.borrowed_amount_wads, Decimal::zero());
    assert_eq!(r.liquidity.cumulative_borrow_rate_wads, Decimal::one());
    assert_eq!(r.collateral.mint_total_supply, 0);
    assert_eq!(r.liquidity.total_supply(), Ok(Decimal::zero()));
    assert_eq!(r.liquidity.utilization_rate(), Ok(Decimal::zero()));
    assert_eq!(INITIAL_COLLATERAL_RATIO, 1);
    assert_eq!(SLOTS_PER_YEAR, 63_072_000);
}

#[test]
fn borrow_rate_at_optimal_utilization_is_optimal_rate() {
    // utilization 50%; rates 0% at none, 10% at the optimal 50%, 300% at full utilization
    let r = reserve(500, 500, 1000);
    assert_eq!(r.liquidity.utilization_rate(), Ok(Decimal::from_percent(50)));
    assert_eq!(r.current_borrow_rate(), Ok(Decimal::from_percent(10)));
}

#[test]
fn borrow_rate_is_piecewise_linear() {
    // a quarter lent out: half way to the optimal utilization
    assert_eq!(reserve(750, 250, 1000).current_borrow_rate(), Ok(Decimal::from_percent(5)));
    // three quarters lent out: half way from the optimal to full utilization
    assert_eq!(
        reserve(250, 750, 1000).current_borrow_rate(),
        Ok(Decimal::from_percent_u64(155))
    );
    // all lent out
    assert_eq!(
        reserve(0, 1000, 1000).current_borrow_rate(),
        Ok(Decimal::from_percent_u64(300))
    );
    // nothing lent out
    assert_eq!(reserve(1000, 0, 1000).current_borrow_rate(), Ok(Decimal::zero()));
    // an empty reserve has no utilization
    assert_eq!(reserve(0, 0, 0).current_borrow_rate(), Ok(Decimal::zero()));
    // with a minimum rate
    let mut r = reserve(750, 250, 1000);
    r.config.min_borrow_rate = 2;
    assert_eq!(r.current_borrow_rate(), Ok(Decimal::from_percent(6)));
}

#[test]
fn borrow_rate_with_optimal_utilization_of_100_percent() {
    let mut r = reserve(1, 999, 1000);
    r.config.optimal_utilization_rate = 100;
    r.config.min_borrow_rate = 3;
    assert_eq!(r.current_borrow_rate(), Ok(Decimal::from_percent(3)));
    let mut full = reserve(0, 1000, 1000);
    full.config.optimal_utilization_rate = 100;
    full.config.min_borrow_rate = 3;
    assert_eq!(full.current_borrow_rate(), Ok(Decimal::from_percent_u64(300)));
}

#[test]
fn borrow_rate_with_optimal_utilization_of_zero() {
    let mut r = reserve(500, 500, 1000);
    r.config.optimal_utilization_rate = 0;
    // half way from the optimal rate 10% to the maximum 300%
    assert_eq!(r.current_borrow_rate(), Ok(Decimal::from_percent_u64(155)));
}

#[test]
fn borrow_rate_refuses_bad_config() {
    let mut r = reserve(500, 500, 1000);
    r.config.optimal_utilization_rate = 101;
    assert_eq!(r.current_borrow_rate(), Err(LendingError::InvalidConfig));
    let mut r = reserve(500, 500, 1000);
    r.config.min_borrow_rate = 11;
    assert_eq!(r.current_borrow_rate(), Err(LendingError::InvalidConfig));
    let mut r = reserve(500, 500, 1000);
    r.config.max_borrow_rate = 9;
    assert_eq!(r.current_borrow_rate(), Err(LendingError::InvalidConfig));
}

#[test]
fn interpolate_values() {
    assert_eq!(
        interpolate(Decimal::from_percent(20), Decimal::from_percent(80), 4, 12),
        Ok(Decimal::from_percent(6))
    );
    assert_eq!(
        interpolate(Decimal::zero(), Decimal::zero(), 4, 12),
        Err(LendingError::MathOverflow)
    );
    assert_eq!(
        interpolate(Decimal::from_percent(20), Decimal::from_percent(80), 12, 4),
        Err(LendingError::InvalidConfig)
    );
    assert_eq!(
        interpolate(Decimal::from_percent(80), Decimal::from_percent(80), 7, 7),
        Ok(Decimal::from_percent(7))
    );
}

#[test]
fn redeeming_fresh_shares_never_pays_more_than_was_deposited() {
    for (available, borrowed, supply) in
        [(100u64, 100u64, 100u64), (7, 13, 3), (1_000_003, 999, 77_777), (5, 0, 9), (1, 1_000_000, 1)]
    {
        for x in [1u64, 2, 3, 10, 11, 999, 1_000_000] {
            let mut r = reserve(available, borrowed, supply);
            let shares = r.deposit_liquidity(x).unwrap();
            if shares == 0 {
                continue;
            }
            if let Ok(back) = r.redeem_collateral(shares, 1) {
                assert!(back <= x);
                assert_eq!(r.liquidity.available_amount, available + x - back);
                assert_eq!(r.collateral.mint_total_supply, supply);
            }
        }
    }
}

#[test]
fn compound_multiplies_step_by_step() {
    let base = dec(WAD + WAD / 100); // 1.01
    assert_eq!(compound(base, 0), Ok(Decimal::one()));
    assert_eq!(compound(base, 1), Ok(base));
    assert_eq!(compound(base, 2), Ok(dec(1_020_100_000_000_000_000)));
    assert_eq!(compound(base, 3), Ok(dec(1_030_301_000_000_000_000)));
    // each product is rounded down at the eighteenth place
    let tiny = dec(WAD + 1);
    assert_eq!(compound(tiny, 2), Ok(dec(WAD + 2)));
    // a factor that overflows after a few steps
    let huge = Decimal::from(u64::MAX);
    assert_eq!(compound(huge, 1), Ok(huge));
    assert_eq!(compound(huge, 2), Err(LendingError::MathOverflow));
    assert_eq!(compound(huge, 50), Err(LendingError::MathOverflow));
}

#[test]
fn accrue_interest_compounds_per_slot() {
    // 10% a year over a year of ten slots: 1% per slot
    let mut r = reserve(500, 500, 1000);
    assert_eq!(r.accrue_interest(4, 10), Ok(()));
    assert_eq!(r.liquidity.cumulative_borrow_rate_wads, dec(1_030_301_000_000_000_000));
    assert_eq!(r.liquidity.borrowed_amount_wads, dec(515_150_500_000_000_000_000));
    assert_eq!(r.liquidity.available_amount, 500);
    // the marker is not touched by accrual
    assert_eq!(r.last_update, LastUpdate { slot: 1, stale: false });
}

#[test]
fn accrue_interest_without_elapsed_slots_changes_nothing() {
    let mut r = reserve(500, 500, 1000);
    let before = r;
    assert_eq!(r.accrue_interest(1, SLOTS_PER_YEAR), Ok(()));
    assert_eq!(r, before);
}

#[test]
fn accrue_interest_is_monotonic() {
    let mut r = reserve(123_456, 654_321, 1000);
    let mut slot = 1;
    for step in [1u64, 2, 5, 100, 1000] {
        let before = r;
        slot += step;
        assert_eq!(r.accrue_interest(slot, SLOTS_PER_YEAR), Ok(()));
        assert!(r
            .liquidity
            .cumulative_borrow_rate_wads
            .ge(&before.liquidity.cumulative_borrow_rate_wads));
        assert!(r.liquidity.borrowed_amount_wads.ge(&before.liquidity.borrowed_amount_wads));
        r.last_update.slot = slot;
    }
    assert!(r.liquidity.cumulative_borrow_rate_wads.gt(&Decimal::one()));
}

#[test]
fn accrue_interest_errors_leave_reserve_unchanged() {
    let mut r = reserve(500, 500, 1000);
    r.last_update.slot = 10;
    let before = r;
    // a slot before the last refresh
    assert_eq!(r.accrue_interest(9, 10), Err(LendingError::MathOverflow));
    assert_eq!(r, before);
    // a year of no slots
    assert_eq!(r.accrue_interest(11, 0), Err(LendingError::MathOverflow));
    assert_eq!(r, before);
    // a cumulative rate of zero cannot grow
    let mut z = reserve(500, 500, 1000);
    z.liquidity.cumulative_borrow_rate_wads = Decimal::zero();
    let before = z;
    assert_eq!(z.accrue_interest(2, 10), Err(LendingError::MathOverflow));
    assert_eq!(z, before);
}

#[test]
fn refresh_reserve_accrues_and_sets_prices() {
    let mut r = reserve(500, 500, 1000);
    r.last_update.stale = true;
    let p = MarketParams {
        slots_per_year: 10,
        liquidation_close_factor: 20,
        severe_margin: 0,
        refresh_slack: 0,
    };
    assert_eq!(refresh_reserve(&mut r, Decimal::from(7u64), Decimal::from(6u64), 2, &p), Ok(()));
    assert_eq!(r.liquidity.market_price, Decimal::from(7u64));
    assert_eq!(r.liquidity.smoothed_market_price, Decimal::from(6u64));
    assert_eq!(r.liquidity.cumulative_borrow_rate_wads, dec(1_010_000_000_000_000_000));
    assert_eq!(r.liquidity.borrowed_amount_wads, Decimal::from(505u64));
    assert_eq!(r.last_update, LastUpdate { slot: 2, stale: false });
    let before = r;
    assert_eq!(
        refresh_reserve(&mut r, Decimal::one(), Decimal::one(), 1, &p),
        Err(LendingError::MathOverflow)
    );
    assert_eq!(r, before);
    assert_eq!(
        MarketParams::default(),
        MarketParams {
            slots_per_year: SLOTS_PER_YEAR,
            liquidation_close_factor: 20,
            severe_margin: 0,
            refresh_slack: 0
        }
    );
}

#[test]
fn deposit_into_empty_reserve_then_redeem() {
    let mut r = Reserve::new(params(1));
    assert_eq!(r.deposit_liquidity(1_000_000), Ok(1_000_000));
    assert_eq!(r.liquidity.available_amount, 1_000_000);
    assert_eq!(r.collateral.mint_total_supply, 1_000_000);
    assert_eq!(r.liquidity.borrowed_amount_wads, Decimal::zero());
    assert!(r.last_update.stale);
    assert_eq!(r.redeem_collateral(1_000_000, 1), Ok(1_000_000));
    assert_eq!(r.liquidity.available_amount, 0);
    assert_eq!(r.collateral.mint_total_supply, 0);
}

#[test]
fn deposit_and_redeem_at_par_are_inverse() {
    // available=1,000,000 and nothing borrowed, one share per unit
    let mut r = reserve(1_000_000, 0, 1_000_000);
    assert_eq!(r.deposit_liquidity(1_000_000), Ok(1_000_000));
    assert_eq!(r.liquidity.available_amount, 2_000_000);
    assert_eq!(r.collateral.mint_total_supply, 2_000_000);
    assert_eq!(r.redeem_collateral(1_000_000, 1), Ok(1_000_000));
    assert_eq!(r.liquidity.available_amount, 1_000_000);
    assert_eq!(r.collateral.mint_total_supply, 1_000_000);
    // a run of deposits and redemptions
    let mut r = Reserve::new(params(1));
    let mut expected = 0u64;
    for (i, x) in [5u64, 1, 999_999_999, 17, 123_456_789_012].iter().enumerate() {
        let shares = r.deposit_liquidity(*x).unwrap();
        assert_eq!(shares, *x);
        expected += *x;
        if i % 2 == 1 {
            assert_eq!(r.redeem_collateral(shares, 1), Ok(*x));
            expected -= *x;
        }
        assert_eq!(r.liquidity.available_amount, expected);
        assert_eq!(r.collateral.mint_total_supply, expected);
    }
}

#[test]
fn deposit_and_redeem_at_other_exchange_rates() {
    // 200 of liquidity behind 100 shares: half a share per unit
    let mut r = reserve(100, 100, 100);
    assert_eq!(r.collateral_per_liquidity(), Ok(Decimal::from_percent(50)));
    assert_eq!(r.liquidity_per_collateral(), Ok(Decimal::from(2u64)));
    assert_eq!(r.liquidity_to_collateral(10), Ok(5));
    assert_eq!(r.liquidity_to_collateral(11), Ok(5));
    assert_eq!(r.collateral_to_liquidity(5), Ok(10));
    assert_eq!(r.deposit_liquidity(11), Ok(5));
    assert_eq!(r.liquidity.available_amount, 111);
    assert_eq!(r.collateral.mint_total_supply, 105);
    // 211 behind 105 shares: 2.009523809523809523 units per share, rounded down
    assert_eq!(r.liquidity_per_collateral(), Ok(dec(2_009_523_809_523_809_523)));
    assert_eq!(r.redeem_collateral(5, 1), Ok(10));
    assert_eq!(r.liquidity.available_amount, 101);
    assert_eq!(r.collateral.mint_total_supply, 100);
    // shares outstanding but no liquidity at all: no rate
    let broken = reserve(0, 0, 10);
    assert_eq!(broken.collateral_per_liquidity(), Err(LendingError::MathOverflow));
    assert_eq!(broken.liquidity_per_collateral(), Ok(Decimal::zero()));
}

#[test]
fn deposit_errors_leave_reserve_unchanged() {
    let mut r = reserve(1_000_000, 0, 1_000_000);
    r.config.deposit_limit = 1_000_100;
    let before = r;
    assert_eq!(r.deposit_liquidity(0), Err(LendingError::InvalidAmount));
    assert_eq!(r.deposit_liquidity(101), Err(LendingError::DepositLimitExceeded));
    assert_eq!(r.deposit_liquidity(u64::MAX), Err(LendingError::DepositLimitExceeded));
    assert_eq!(r, before);
    assert_eq!(r.deposit_liquidity(100), Ok(100));
    // what is lent out counts towards the limit
    let mut lent = reserve(10, 90, 100);
    lent.config.deposit_limit = 100;
    assert_eq!(lent.deposit_liquidity(1), Err(LendingError::DepositLimitExceeded));
    // amounts that do not fit
    let mut big = reserve(10, 0, u64::MAX);
    let before = big;
    assert_eq!(big.deposit_liquidity(1), Err(LendingError::MathOverflow));
    assert_eq!(big, before);
}

#[test]
fn deposit_above_the_limit_is_refused() {
    let mut r = reserve(100_000_000_000, 0, 100_000_000_000);
    r.config.deposit_limit = 200_000_000_000;
    assert_eq!(r.deposit_liquidity(200_000_000_000), Err(LendingError::DepositLimitExceeded));
}

#[test]
fn redeem_errors_leave_reserve_unchanged() {
    let mut r = reserve(10, 190, 100);
    let before = r;
    assert_eq!(r.redeem_collateral(0, 1), Err(LendingError::InvalidAmount));
    assert_eq!(r.redeem_collateral(101, 1), Err(LendingError::InvalidAmount));
    // six shares are worth twelve units, ten are on hand
    assert_eq!(r.redeem_collateral(6, 1), Err(LendingError::InsufficientLiquidity));
    assert_eq!(r, before);
    assert_eq!(r.redeem_collateral(5, 1), Ok(10));
    assert_eq!(r.liquidity.available_amount, 0);
}

#[test]
fn redeem_consumes_rate_limit() {
    let mut r = reserve(1000, 0, 1000);
    r.rate_limiter = RateLimiter::new(10, Decimal::from(100u64), 10);
    assert_eq!(r.redeem_collateral(60, 10), Ok(60));
    assert_eq!(r.rate_limiter.cur_window.qty, Decimal::from(60u64));
    let before = r;
    assert_eq!(r.redeem_collateral(41, 11), Err(LendingError::OutflowRateLimitExceeded));
    assert_eq!(r, before);
    assert_eq!(r.redeem_collateral(40, 11), Ok(40));
    // a slot before the limiter's window
    let before = r;
    assert_eq!(r.redeem_collateral(1, 9), Err(LendingError::MathOverflow));
    assert_eq!(r, before);
    // deposits are inflow and do not count
    assert_eq!(r.deposit_liquidity(500), Ok(500));
    assert_eq!(r.rate_limiter.cur_window.qty, Decimal::from(100u64));
}

#[test]
fn fees_with_host_share() {
    let fees = ReserveFees {
        borrow_fee_wad: 10_000_000_000_000_000,
        flash_loan_fee_wad: 3_000_000_000_000_000,
        host_fee_percentage: 20,
    };
    // 1% of 1000
    assert_eq!(fees.calculate_borrow_fees(Decimal::from(1000u64), false), Ok((10, 2)));
    // the fee inside 1010: 1010 * 0.01 / 1.01
    assert_eq!(fees.calculate_borrow_fees(Decimal::from(1010u64), true), Ok((10, 2)));
    // 0.3% of 1,000,000,000
    assert_eq!(
        fees.calculate_flash_loan_fees(Decimal::from(1_000_000_000u64)),
        Ok((3_000_000, 600_000))
    );
    // rounding to the nearest unit: 1% of 149 and of 150
    assert_eq!(fees.calculate_borrow_fees(Decimal::from(149u64), false), Ok((1, 0)));
    assert_eq!(fees.calculate_borrow_fees(Decimal::from(150u64), false), Ok((2, 0)));
    // the host's share is rounded down: 20% of 9
    assert_eq!(fees.calculate_borrow_fees(Decimal::from(900u64), false), Ok((9, 1)));
}

#[test]
fn fees_minimum_and_edge_cases() {
    let fees = ReserveFees { borrow_fee_wad: 1, flash_loan_fee_wad: 0, host_fee_percentage: 0 };
    // a fee that is charged at all is at least one unit
    assert_eq!(fees.calculate_borrow_fees(Decimal::from(100u64), false), Ok((1, 0)));
    // which must leave something of the amount
    assert_eq!(
        fees.calculate_borrow_fees(Decimal::from(1u64), false),
        Err(LendingError::BorrowTooSmall)
    );
    assert_eq!(
        fees.calculate_borrow_fees(Decimal::from_scaled_val(5), false),
        Err(LendingError::BorrowTooSmall)
    );
    // no fee rate, or nothing to charge it on
    assert_eq!(fees.calculate_flash_loan_fees(Decimal::from(100u64)), Ok((0, 0)));
    assert_eq!(fees.calculate_borrow_fees(Decimal::zero(), false), Ok((0, 0)));
    let bad = ReserveFees { borrow_fee_wad: 1, flash_loan_fee_wad: 0, host_fee_percentage: 101 };
    assert_eq!(
        bad.calculate_borrow_fees(Decimal::from(100u64), false),
        Err(LendingError::InvalidConfig)
    );
    let all = ReserveFees { borrow_fee_wad: 5, flash_loan_fee_wad: 0, host_fee_percentage: 100 };
    assert_eq!(all.calculate_fees(Decimal::from(100u64), 500_000_000_000_000_000, false), Ok((50, 50)));
}

#[test]
fn powers_of_ten() {
    assert_eq!(checked_pow10(0), Some(1));
    assert_eq!(checked_pow10(6), Some(1_000_000));
    assert_eq!(checked_pow10(19), Some(10_000_000_000_000_000_000));
    assert_eq!(checked_pow10(20), None);
    assert_eq!(checked_pow10(255), None);
    assert_eq!(checked_pow10(u32::MAX), None);
}

#[test]
fn market_value_and_borrow_weight() {
    let mut r = reserve(1000, 0, 1000);
    r.liquidity.mint_decimals = 6;
    r.liquidity.market_price = Decimal::from(10u64);
    // 2.5 tokens at a price of 10
    assert_eq!(r.market_value(Decimal::from(2_500_000u64)), Ok(Decimal::from(25u64)));
    assert_eq!(r.borrow_weight(), Ok(Decimal::one()));
    assert_eq!(r.weighted_value(Decimal::from(2_500_000u64)), Ok(Decimal::from(25u64)));
    r.config.added_borrow_weight_bps = 2_000;
    assert_eq!(r.borrow_weight(), Ok(dec(WAD + WAD / 5)));
    assert_eq!(r.weighted_value(Decimal::from(2_500_000u64)), Ok(Decimal::from(30u64)));
    r.liquidity.mint_decimals = 20;
    assert_eq!(r.market_value(Decimal::from(1u64)), Err(LendingError::MathOverflow));
}

#[test]
fn calculate_borrow_exact_amount() {
    let mut r = reserve(10_000, 0, 10_000);
    r.liquidity.market_price = Decimal::from(2u64);
    r.config.fees.borrow_fee_wad = 10_000_000_000_000_000;
    r.config.fees.host_fee_percentage = 20;
    let result = r.calculate_borrow(Amount::Exact(1000), Decimal::from(2020u64));
    assert_eq!(
        result,
        Ok(CalculateBorrowResult {
            borrow_amount: Decimal::from(1010u64),
            receive_amount: 1000,
            borrow_fee: 10,
            host_fee: 2,
            borrow_value: Decimal::from(2020u64),
        })
    );
    assert_eq!(
        r.calculate_borrow(Amount::Exact(1000), dec(2020 * WAD - 1)),
        Err(LendingError::BorrowTooLarge)
    );
    assert_eq!(
        r.calculate_borrow(Amount::Exact(0), Decimal::from(2020u64)),
        Err(LendingError::InvalidAmount)
    );
    // the borrow weight counts against the value allowed
    r.config.added_borrow_weight_bps = 10_000;
    assert_eq!(
        r.calculate_borrow(Amount::Exact(1000), Decimal::from(4039u64)),
        Err(LendingError::BorrowTooLarge)
    );
    assert_eq!(
        r.calculate_borrow(Amount::Exact(1000), Decimal::from(4040u64)).map(|c| c.borrow_value),
        Ok(Decimal::from(4040u64))
    );
}

#[test]
fn calculate_borrow_max_amount() {
    let mut r = reserve(10_000, 0, 10_000);
    r.liquidity.market_price = Decimal::from(2u64);
    r.config.fees.borrow_fee_wad = 10_000_000_000_000_000;
    r.config.fees.host_fee_percentage = 20;
    // 2020 of value borrows 1010 units, of which 10 are the fee
    assert_eq!(
        r.calculate_borrow(Amount::Max, Decimal::from(2020u64)),
        Ok(CalculateBorrowResult {
            borrow_amount: Decimal::from(1010u64),
            receive_amount: 1000,
            borrow_fee: 10,
            host_fee: 2,
            borrow_value: Decimal::from(2020u64),
        })
    );
    assert_eq!(r.max_borrow_amount(Decimal::from(2020u64)), Ok(Decimal::from(1010u64)));
    // no more than the reserve has on hand
    assert_eq!(r.max_borrow_amount(Decimal::from(1_000_000u64)), Ok(Decimal::from(10_000u64)));
    // no more than it may still lend
    r.config.borrow_limit = 300;
    assert_eq!(r.max_borrow_amount(Decimal::from(1_000_000u64)), Ok(Decimal::from(300u64)));
    r.liquidity.borrowed_amount_wads = Decimal::from(400u64);
    assert_eq!(r.max_borrow_amount(Decimal::from(1_000_000u64)), Ok(Decimal::zero()));
    assert_eq!(
        r.calculate_borrow(Amount::Max, Decimal::from(1_000_000u64)),
        Err(LendingError::BorrowTooSmall)
    );
    // a price of zero gives no amount
    r.liquidity.market_price = Decimal::zero();
    assert_eq!(
        r.calculate_borrow(Amount::Max, Decimal::from(10u64)),
        Err(LendingError::MathOverflow)
    );
}

#[test]
fn borrow_moves_liquidity_out() {
    let mut r = reserve(1000, 0, 1000);
    r.rate_limiter = RateLimiter::new(10, Decimal::from(700u64), 10);
    let before = r;
    assert_eq!(r.borrow(Decimal::from(1001u64), 10), Err(LendingError::InsufficientLiquidity));
    assert_eq!(r.borrow(Decimal::from(701u64), 10), Err(LendingError::OutflowRateLimitExceeded));
    assert_eq!(r, before);
    // 600.5 of debt: 600 units leave, all of it is owed
    assert_eq!(r.borrow(dec(600 * WAD + WAD / 2), 10), Ok(()));
    assert_eq!(r.liquidity.available_amount, 400);
    assert_eq!(r.liquidity.borrowed_amount_wads, dec(600 * WAD + WAD / 2));
    assert_eq!(r.rate_limiter.cur_window.qty, dec(600 * WAD + WAD / 2));
    assert!(r.last_update.stale);
    r.config.borrow_limit = 650;
    let before = r;
    assert_eq!(r.borrow(Decimal::from(50u64), 10), Err(LendingError::BorrowLimitExceeded));
    assert_eq!(r, before);
    assert_eq!(r.borrow(Decimal::from(49u64), 10), Ok(()));
}

#[test]
fn repay_settles_no_more_than_the_debt() {
    let owed = dec(100 * WAD + 1);
    assert_eq!(
        Reserve::calculate_repay(Amount::Max, owed),
        Ok(CalculateRepayResult { settle_amount: owed, repay_amount: 101 })
    );
    assert_eq!(
        Reserve::calculate_repay(Amount::Exact(1000), owed),
        Ok(CalculateRepayResult { settle_amount: owed, repay_amount: 101 })
    );
    assert_eq!(
        Reserve::calculate_repay(Amount::Exact(40), owed),
        Ok(CalculateRepayResult { settle_amount: Decimal::from(40u64), repay_amount: 40 })
    );
    assert_eq!(
        Reserve::calculate_repay(Amount::Exact(0), owed),
        Err(LendingError::InvalidAmount)
    );
    assert_eq!(
        Reserve::calculate_repay(Amount::Max, Decimal::zero()),
        Ok(CalculateRepayResult { settle_amount: Decimal::zero(), repay_amount: 0 })
    );
    let mut r = reserve(0, 0, 100);
    r.liquidity.borrowed_amount_wads = owed;
    assert_eq!(r.repay(101, owed), Ok(()));
    assert_eq!(r.liquidity.available_amount, 101);
    assert_eq!(r.liquidity.borrowed_amount_wads, Decimal::zero());
    // settling more than is lent out clears the debt
    let mut r = reserve(5, 10, 100);
    assert_eq!(r.repay(20, Decimal::from(20u64)), Ok(()));
    assert_eq!(r.liquidity.available_amount, 25);
    assert_eq!(r.liquidity.borrowed_amount_wads, Decimal::zero());
    let mut full = reserve(u64::MAX, 10, 100);
    let before = full;
    assert_eq!(full.repay(1, Decimal::from(1u64)), Err(LendingError::MathOverflow));
    assert_eq!(full, before);
}

#[test]
fn redeem_fees_is_capped_by_liquidity() {
    let mut r = reserve(100, 0, 100);
    r.liquidity.accumulated_protocol_fees_wads = dec(30 * WAD + WAD / 2);
    assert_eq!(r.redeem_fees(), Ok(30));
    assert_eq!(r.liquidity.available_amount, 70);
    assert_eq!(r.liquidity.accumulated_protocol_fees_wads, dec(WAD / 2));
    assert_eq!(r.redeem_fees(), Ok(0));
    let mut r = reserve(10, 0, 100);
    r.liquidity.accumulated_protocol_fees_wads = Decimal::from(25u64);
    assert_eq!(r.redeem_fees(), Ok(10));
    assert_eq!(r.liquidity.available_amount, 0);
    assert_eq!(r.liquidity.accumulated_protocol_fees_wads, Decimal::from(15u64));
}

#[test]
fn flash_borrow_then_repay_with_fee() {
    let mut r = reserve(1_000_000_000, 0, 1_000_000_000);
    r.config.fees.flash_loan_fee_wad = 3_000_000_000_000_000;
    r.config.fees.host_fee_percentage = 20;
    let x = 1_000_000_000u64;
    assert_eq!(r.flash_repay_due(x), Ok(x + 3_000_000));
    assert_eq!(r.flash_borrow(x), Ok(()));
    assert_eq!(r.liquidity.available_amount, 0);
    assert_eq!(r.liquidity.borrowed_amount_wads, Decimal::from(x));
    let lent = r;
    // one unit short of principal and fee
    assert_eq!(r.flash_repay(x, x + 3_000_000 - 1), Err(LendingError::InvalidFlashRepay));
    assert_eq!(r, lent);
    // exactly principal and fee
    assert_eq!(r.flash_repay(x, x + 3_000_000), Ok((3_000_000, 600_000)));
    assert_eq!(r.liquidity.available_amount, x);
    assert_eq!(r.liquidity.borrowed_amount_wads, Decimal::zero());
}

#[test]
fn flash_borrow_errors() {
    let mut r = reserve(1000, 0, 1000);
    let before = r;
    assert_eq!(r.flash_borrow(0), Err(LendingError::InvalidAmount));
    assert_eq!(r.flash_borrow(1001), Err(LendingError::InsufficientLiquidity));
    assert_eq!(r.flash_repay(0, 10), Err(LendingError::InvalidAmount));
    r.config.fees.flash_loan_fee_wad = u64::MAX;
    assert_eq!(r.flash_borrow(10), Err(LendingError::FlashLoansDisabled));
    r.config.fees.flash_loan_fee_wad = 0;
    assert_eq!(r, before);
    assert_eq!(r.flash_borrow(1000), Ok(()));
    assert_eq!(r.flash_repay(1000, 1000), Ok((0, 0)));
    assert_eq!(r.liquidity.available_amount, 1000);
}

#[test]
fn config_validation() {
    assert_eq!(config().validate(), Ok(()));
    let mut checks: Vec<ReserveConfig> = Vec::new();
    let mut c = config();
    c.optimal_utilization_rate = 101;
    checks.push(c);
    let mut c = config();
    c.loan_to_value_ratio = 100;
    c.liquidation_threshold = 100;
    c.max_liquidation_threshold = 100;
    checks.push(c);
    let mut c = config();
    c.liquidation_threshold = 49;
    checks.push(c);
    let mut c = config();
    c.max_liquidation_threshold = 54;
    checks.push(c);
    let mut c = config();
    c.max_liquidation_threshold = 101;
    checks.push(c);
    let mut c = config();
    c.max_liquidation_bonus = 4;
    checks.push(c);
    let mut c = config();
    c.max_liquidation_bonus = 101;
    checks.push(c);
    let mut c = config();
    c.min_borrow_rate = 11;
    checks.push(c);
    let mut c = config();
    c.max_borrow_rate = 9;
    checks.push(c);
    let mut c = config();
    c.fees.borrow_fee_wad = 1_000_000_000_000_000_000;
    checks.push(c);
    let mut c = config();
    c.fees.flash_loan_fee_wad = 1_000_000_000_000_000_000;
    checks.push(c);
    let mut c = config();
    c.fees.host_fee_percentage = 101;
    checks.push(c);
    for c in checks {
        assert_eq!(c.validate(), Err(LendingError::InvalidConfig));
    }
    let mut off = config();
    off.fees.flash_loan_fee_wad = u64::MAX;
    assert_eq!(off.validate(), Ok(()));
}

#[test]
fn init_reserve_takes_first_deposit() {
    let (r, shares) = init_reserve(params(5), 1_000_000).unwrap();
    assert_eq!(shares, 1_000_000);
    assert_eq!(r.liquidity.available_amount, 1_000_000);
    assert_eq!(r.collateral.mint_total_supply, 1_000_000);
    assert_eq!(init_reserve(params(5), 0), Err(LendingError::InvalidAmount));
    let mut bad = params(5);
    bad.config.loan_to_value_ratio = 100;
    assert_eq!(init_reserve(bad, 10), Err(LendingError::InvalidConfig));
    let mut limited = params(5);
    limited.config.deposit_limit = 9;
    assert_eq!(init_reserve(limited, 10), Err(LendingError::DepositLimitExceeded));
}

#[test]
fn update_config_validates() {
    let mut r = reserve(10, 0, 10);
    let before = r;
    let mut bad = config();
    bad.liquidation_bonus = 200;
    assert_eq!(update_reserve_config(&mut r, bad), Err(LendingError::InvalidConfig));
    assert_eq!(r, before);
    let mut good = config();
    good.loan_to_value_ratio = 40;
    assert_eq!(update_reserve_config(&mut r, good), Ok(()));
    assert_eq!(r.config, good);
    assert!(r.last_update.stale);
    assert_eq!(r.liquidity, before.liquidity);
}

#[test]
fn last_update_staleness() {
    let mut u = LastUpdate::new(10);
    assert_eq!(u.is_stale(10, 0), Ok(true));
    u.update_slot(12);
    assert_eq!(u, LastUpdate { slot: 12, stale: false });
    assert_eq!(u.is_stale(12, 0), Ok(false));
    assert_eq!(u.is_stale(13, 0), Ok(true));
    assert_eq!(u.is_stale(13, 1), Ok(false));
    assert_eq!(u.is_stale(14, 1), Ok(true));
    assert_eq!(u.is_stale(11, 5), Err(LendingError::MathOverflow));
    assert_eq!(u.slots_elapsed(20), Ok(8));
    assert_eq!(u.slots_elapsed(11), Err(LendingError::MathOverflow));
    u.mark_stale();
    assert_eq!(u.is_stale(12, 100), Ok(true));
}

#[test]
fn amount_sentinel() {
    assert_eq!(Amount::from_sentinel(5), Amount::Exact(5));
    assert_eq!(Amount::from_sentinel(0), Amount::Exact(0));
    assert_eq!(Amount::from_sentinel(u64::MAX), Amount::Max);
    assert_eq!(Amount::Max.to_sentinel(), u64::MAX);
    assert_eq!(Amount::Exact(7).to_sentinel(), 7);
}
