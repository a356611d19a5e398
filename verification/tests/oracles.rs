use pyth_sdk_solana::state::{
    AccountType, CorpAction, PriceAccount, PriceInfo, PriceStatus, PriceType, MAGIC, VERSION_2,
};
use token_lending::error::LendingError;
use token_lending::math::decimal::Decimal;
use pyth_sdk_solana::state::Rational;
use token_lending::oracles::{
    get_pyth_price, get_pyth_prices, null_pubkey, price_from_feed, price_to_decimal,
    prices_from_feed, within_age, OracleError, PythError, PythPrice, PythPrices,
    MAX_PYTH_CONFIDENCE_RATIO, STALE_AFTER_SECONDS_ELAPSED,
};
use token_lending::pubkey::Pubkey;

fn invalid() -> Result<Decimal, OracleError> {
    Err(OracleError::Lending(LendingError::InvalidOracleConfig))
}

fn trading(price: i64, conf: u64) -> PriceInfo {
    PriceInfo {
        price,
        conf,
        status: PriceStatus::Trading,
        corp_act: CorpAction::NoCorpAct,
        pub_slot: 0,
    }
}

fn account(expo: i32, timestamp: i64, agg: PriceInfo) -> PriceAccount {
    PriceAccount {
        magic: MAGIC,
        ver: VERSION_2,
        atype: AccountType::Price as u32,
        ptype: PriceType::Price,
        expo,
        timestamp,
        agg,
        ..PriceAccount::default()
    }
}

fn price_of(account: &PriceAccount, unix_timestamp: i64) -> Result<Decimal, OracleError> {
    get_pyth_price(&Pubkey([5; 32]), bytemuck::bytes_of(account), unix_timestamp)
}

#[test]
fn test_pyth_price() {
    // failure. bad magic value
    let mut bad_magic = account(10, 0, trading(10, 1));
    bad_magic.magic = MAGIC + 1;
    assert_eq!(price_of(&bad_magic, 0), Err(OracleError::Pyth(PythError::InvalidAccountData)));
    assert_eq!(PythError::InvalidAccountData.code(), 0);
    // failure. bad version number
    let mut bad_version = account(10, 0, trading(10, 1));
    bad_version.ver = VERSION_2 - 1;
    assert_eq!(price_of(&bad_version, 0), Err(OracleError::Pyth(PythError::BadVersionNumber)));
    assert_eq!(PythError::BadVersionNumber.code(), 1);
    // failure. bad account type
    let mut bad_type = account(10, 0, trading(10, 1));
    bad_type.atype = AccountType::Product as u32;
    assert_eq!(price_of(&bad_type, 0), Err(OracleError::Pyth(PythError::WrongAccountType)));
    assert_eq!(PythError::WrongAccountType.code(), 2);
    // success. most recent price has status == trading, not stale
    assert_eq!(
        price_of(&account(1, 0, trading(200, 1)), 120 - 1),
        Ok(Decimal::from(2000_u64))
    );
    // success. most recent price has status == unknown, previous price not stale
    let mut previous = account(
        1,
        20,
        PriceInfo { status: PriceStatus::Unknown, ..trading(200, 1) },
    );
    previous.prev_price = 190;
    previous.prev_conf = 10;
    previous.prev_timestamp = 5;
    assert_eq!(price_of(&previous, 125 - 1), Ok(Decimal::from(1900_u64)));
    // failure. most recent price has status == trading and is stale
    assert_eq!(price_of(&account(1, 0, trading(200, 1)), 121), invalid());
    // failure. most recent price has status == unknown and previous price is stale
    let mut stale_previous = account(
        1,
        1,
        PriceInfo { status: PriceStatus::Unknown, ..trading(200, 1) },
    );
    stale_previous.prev_price = 190;
    stale_previous.prev_conf = 10;
    stale_previous.prev_timestamp = 0;
    assert_eq!(price_of(&stale_previous, 241), invalid());
    // failure. price is negative
    assert_eq!(price_of(&account(1, 1, trading(-200, 1)), 230), invalid());
    assert_eq!(price_of(&account(1, 1, trading(-200, 1)), 1), invalid());
    // failure. confidence interval is too wide
    assert_eq!(price_of(&account(1, 1, trading(200, 40)), 230), invalid());
    assert_eq!(price_of(&account(1, 1, trading(200, 40)), 1), invalid());
}

#[test]
fn pyth_price_null_oracle_and_short_data() {
    let good = account(0, 0, trading(7, 0));
    assert_eq!(
        get_pyth_price(&null_pubkey(), bytemuck::bytes_of(&good), 0),
        Err(OracleError::Lending(LendingError::NullOracleConfig))
    );
    assert_eq!(price_of(&good, 0), Ok(Decimal::from(7u64)));
    assert_eq!(
        get_pyth_price(&Pubkey([5; 32]), &[], 0),
        Err(OracleError::Pyth(PythError::InvalidAccountData))
    );
    assert_eq!(
        get_pyth_price(&Pubkey([5; 32]), &bytemuck::bytes_of(&good)[..100], 0),
        Err(OracleError::Pyth(PythError::InvalidAccountData))
    );
    assert_eq!(
        null_pubkey().0.to_vec(),
        solana_program::pubkey::Pubkey::try_from("nu11111111111111111111111111111111111111111")
            .unwrap()
            .to_bytes()
            .to_vec()
    );
}

#[test]
fn pyth_price_from_unaligned_bytes() {
    let good = account(-2, 50, trading(12_345, 10));
    let bytes = bytemuck::bytes_of(&good);
    let mut shifted = vec![0u8; bytes.len() + 9];
    for offset in 0..8 {
        shifted[offset..offset + bytes.len()].copy_from_slice(bytes);
        assert_eq!(
            get_pyth_price(&Pubkey([5; 32]), &shifted[offset..offset + bytes.len()], 60),
            Ok(Decimal::from_scaled_val(123_450_000_000_000_000_000))
        );
    }
}

#[test]
fn price_conversion() {
    assert_eq!(price_to_decimal(200, 1, 1), Ok(Decimal::from(2000u64)));
    assert_eq!(price_to_decimal(200, 20, 0), Ok(Decimal::from(200u64)));
    assert_eq!(price_to_decimal(200, 21, 0), Err(LendingError::InvalidOracleConfig));
    assert_eq!(
        price_to_decimal(12_345, 0, -2),
        Ok(Decimal::from_scaled_val(123_450_000_000_000_000_000))
    );
    assert_eq!(price_to_decimal(1, 0, -18), Ok(Decimal::from_scaled_val(1)));
    assert_eq!(price_to_decimal(1, 0, -19), Ok(Decimal::zero()));
    assert_eq!(price_to_decimal(1, 0, -20), Err(LendingError::MathOverflow));
    assert_eq!(price_to_decimal(1, 0, i32::MIN), Err(LendingError::MathOverflow));
    assert_eq!(price_to_decimal(1, 0, 19), Ok(Decimal::from(10_000_000_000_000_000_000u64)));
    assert_eq!(price_to_decimal(1, 0, 20), Err(LendingError::MathOverflow));
    assert_eq!(price_to_decimal(1, 0, i32::MAX), Err(LendingError::MathOverflow));
    // a price that is not positive
    assert_eq!(price_to_decimal(0, 0, 0), Err(LendingError::InvalidOracleConfig));
    assert_eq!(price_to_decimal(-1, 0, 0), Err(LendingError::InvalidOracleConfig));
    assert_eq!(price_to_decimal(i64::MIN, 0, 0), Err(LendingError::InvalidOracleConfig));
    // a confidence interval that would overflow when multiplied
    assert_eq!(price_to_decimal(i64::MAX, u64::MAX, 0), Err(LendingError::InvalidOracleConfig));
    assert_eq!(
        price_to_decimal(i64::MAX, 0, 0),
        Ok(Decimal::from(i64::MAX as u64))
    );
    // the largest price times a power of ten that still fits
    assert!(price_to_decimal(i64::MAX, 0, 19).is_ok());
    assert_eq!(MAX_PYTH_CONFIDENCE_RATIO, 10);
    assert_eq!(STALE_AFTER_SECONDS_ELAPSED, 120);
}

#[test]
fn price_age() {
    assert!(within_age(100, 220, 120));
    assert!(!within_age(100, 221, 120));
    assert!(within_age(220, 100, 120));
    assert!(!within_age(221, 100, 120));
    assert!(within_age(5, 5, 0));
    assert!(!within_age(i64::MIN, i64::MAX, u64::MAX - 1));
    assert!(within_age(i64::MIN, i64::MAX, u64::MAX));
    assert!(!within_age(i64::MAX, i64::MIN, 120));
    let p = PythPrice { price: 200, conf: 1, expo: 1, publish_time: 0 };
    assert_eq!(price_from_feed(p, 120, 120), Ok(Decimal::from(2000u64)));
    assert_eq!(price_from_feed(p, 121, 120), Err(LendingError::InvalidOracleConfig));
    assert_eq!(price_from_feed(p, -120, 120), Ok(Decimal::from(2000u64)));
    assert_eq!(price_from_feed(p, -121, 120), Err(LendingError::InvalidOracleConfig));
    // another limit on the age
    assert_eq!(price_from_feed(p, 121, 121), Ok(Decimal::from(2000u64)));
    assert_eq!(price_from_feed(p, 1, 0), Err(LendingError::InvalidOracleConfig));
    assert_eq!(price_from_feed(p, 0, 0), Ok(Decimal::from(2000u64)));
}

#[test]
fn spot_and_smoothed_prices() {
    let mut feed = account(-1, 100, trading(205, 2));
    feed.ema_price = Rational { val: 201, numer: 0, denom: 1 };
    feed.ema_conf = Rational { val: 3, numer: 0, denom: 1 };
    let key = Pubkey([5; 32]);
    assert_eq!(
        get_pyth_prices(&key, bytemuck::bytes_of(&feed), 100, 120),
        Ok((
            Decimal::from_scaled_val(20_500_000_000_000_000_000),
            Decimal::from_scaled_val(20_100_000_000_000_000_000)
        ))
    );
    assert_eq!(
        get_pyth_price(&key, bytemuck::bytes_of(&feed), 100),
        Ok(Decimal::from_scaled_val(20_500_000_000_000_000_000))
    );
    // a moving average that is refused is replaced by the spot price
    feed.ema_conf = Rational { val: 100, numer: 0, denom: 1 };
    assert_eq!(
        get_pyth_prices(&key, bytemuck::bytes_of(&feed), 100, 120),
        Ok((
            Decimal::from_scaled_val(20_500_000_000_000_000_000),
            Decimal::from_scaled_val(20_500_000_000_000_000_000)
        ))
    );
    // a spot price that is refused
    assert_eq!(get_pyth_prices(&key, bytemuck::bytes_of(&feed), 500, 120), invalid().map(|d| (d, d)));
    assert_eq!(
        get_pyth_prices(&null_pubkey(), bytemuck::bytes_of(&feed), 100, 120),
        Err(OracleError::Lending(LendingError::NullOracleConfig))
    );
    assert_eq!(
        get_pyth_prices(&key, &[1, 2, 3], 100, 120),
        Err(OracleError::Pyth(PythError::InvalidAccountData))
    );
    let spot = PythPrice { price: 10, conf: 0, expo: 0, publish_time: 0 };
    let smoothed = PythPrice { price: 9, conf: 0, expo: 0, publish_time: 0 };
    assert_eq!(
        prices_from_feed(PythPrices { spot, smoothed }, 0, 120),
        Ok((Decimal::from(10u64), Decimal::from(9u64)))
    );
    assert_eq!(
        prices_from_feed(PythPrices { spot: PythPrice { price: 0, ..spot }, smoothed }, 0, 120),
        Err(OracleError::Lending(LendingError::InvalidOracleConfig))
    );
}
