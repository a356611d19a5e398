//! Prices from the Pyth oracle.

use crate::error::LendingError;
use crate::math::decimal::Decimal;
use crate::pubkey::Pubkey;
use crate::state::reserve::{checked_pow10, lemma_pow10_monotonic, pow10};
use vstd::prelude::*;
use vstd::std_specs::convert::FromSpec;

verus! {

broadcast use crate::math::decimal::lemma_scaled_view;

/// A price is refused where ten times its confidence interval exceeds it.
pub const MAX_PYTH_CONFIDENCE_RATIO: u64 = 10;

/// A price is refused where it was published more than this many seconds
/// from now.
pub const STALE_AFTER_SECONDS_ELAPSED: u64 = 120;

/// A price as the oracle publishes it: `price * 10^expo`, give or take
/// `conf * 10^expo`.
#[derive(Clone, Copy, Debug, PartialEq, Eq, Structural)]
pub struct PythPrice {
    /// The price, to be scaled by the exponent.
    pub price: i64,
    /// The confidence interval around the price, to be scaled likewise.
    pub conf: u64,
    /// The exponent.
    pub expo: i32,
    /// When the price was published, in seconds since the epoch.
    pub publish_time: i64,
}

/// Why the oracle's account could not be read.
#[derive(Clone, Copy, Debug, PartialEq, Eq, Structural)]
pub enum PythError {
    /// Too little data, or not an account of the oracle.
    InvalidAccountData,
    /// An account of another version of the oracle.
    BadVersionNumber,
    /// An account of the oracle, but not a price account.
    WrongAccountType,
}

/// Why no price could be had.
#[derive(Clone, Copy, Debug, PartialEq, Eq, Structural)]
pub enum OracleError {
    /// The lending protocol refuses the price.
    Lending(LendingError),
    /// The oracle's account could not be read.
    Pyth(PythError),
}

impl PythError {
    /// The number that the error goes by.
    pub fn code(&self) -> (r: u32)
        ensures
            r == (match *self {
                PythError::InvalidAccountData => 0u32,
                PythError::BadVersionNumber => 1u32,
                PythError::WrongAccountType => 2u32,
            }),
    {
        match self {
            PythError::InvalidAccountData => 0,
            PythError::BadVersionNumber => 1,
            PythError::WrongAccountType => 2,
        }
    }
}

/// The address that stands for "no oracle".
pub fn null_pubkey() -> (r: Pubkey)
    ensures
        r@ == null_pubkey_bytes(),
{
    let r = Pubkey(
        [
            11,
            193,
            238,
            216,
            208,
            116,
            241,
            195,
            55,
            212,
            76,
            22,
            75,
            202,
            40,
            216,
            76,
            206,
            27,
            169,
            138,
            64,
            177,
            28,
            19,
            90,
            156,
            0,
            0,
            0,
            0,
            0,
        ],
    );
    assert(r@ =~= null_pubkey_bytes());
    r
}

/// The bytes of the address that stands for "no oracle".
pub open spec fn null_pubkey_bytes() -> Seq<u8> {
    seq![
        11u8, 193, 238, 216, 208, 116, 241, 195, 55, 212, 76, 22, 75, 202, 40, 216, 76, 206, 27,
        169, 138, 64, 177, 28, 19, 90, 156, 0, 0, 0, 0, 0,
    ]
}

/// Whether a price published at `publish_time` is at most `age` seconds away
/// from `current_time`.
pub open spec fn within_age_spec(publish_time: i64, current_time: i64, age: u64) -> bool {
    if publish_time >= current_time {
        publish_time - current_time <= age
    } else {
        current_time - publish_time <= age
    }
}

/// Whether a price published at `publish_time` is at most `age` seconds away
/// from `current_time`.
pub fn within_age(publish_time: i64, current_time: i64, age: u64) -> (r: bool)
    ensures
        r == within_age_spec(publish_time, current_time, age),
{
    let distance: i128 = if publish_time >= current_time {
        publish_time as i128 - current_time as i128
    } else {
        current_time as i128 - publish_time as i128
    };
    distance <= age as i128
}

/// The price as a decimal. A price that is not positive, or one whose
/// confidence interval times ten exceeds it, is `InvalidOracleConfig`; a
/// power of ten that does not fit in 64 bits, or a result that does not fit,
/// is `MathOverflow`.
pub open spec fn price_to_decimal_spec(price: i64, conf: u64, expo: i32) -> Result<
    Decimal,
    LendingError,
> {
    if price <= 0 {
        Err(LendingError::InvalidOracleConfig)
    } else if (conf as nat) * (MAX_PYTH_CONFIDENCE_RATIO as nat) > price {
        Err(LendingError::InvalidOracleConfig)
    } else if expo >= 0 {
        if pow10(expo as nat) > u64::MAX {
            Err(LendingError::MathOverflow)
        } else {
            Decimal::from_spec(price as u64).try_mul_u64_spec(pow10(expo as nat) as u64)
        }
    } else {
        if pow10((-expo) as nat) > u64::MAX {
            Err(LendingError::MathOverflow)
        } else {
            Decimal::from_spec(price as u64).try_div_u64_spec(pow10((-expo) as nat) as u64)
        }
    }
}

/// The price as a decimal.
pub fn price_to_decimal(price: i64, conf: u64, expo: i32) -> (r: Result<Decimal, LendingError>)
    ensures
        r == price_to_decimal_spec(price, conf, expo),
{
    if price <= 0 {
        return Err(LendingError::InvalidOracleConfig);
    }
    let price: u64 = price as u64;
    let widest: u128 = (conf as u128) * (MAX_PYTH_CONFIDENCE_RATIO as u128);
    if widest > price as u128 {
        return Err(LendingError::InvalidOracleConfig);
    }
    if expo >= 0 {
        let zeros = match checked_pow10(expo as u32) {
            Some(v) => v,
            None => {
                return Err(LendingError::MathOverflow);
            },
        };
        Decimal::from(price).try_mul_u64(zeros)
    } else {
        let exponent: u32 = (-(expo as i64)) as u32;
        let decimals = match checked_pow10(exponent) {
            Some(v) => v,
            None => {
                return Err(LendingError::MathOverflow);
            },
        };
        proof {
            lemma_pow10_monotonic(0, exponent as nat);
        }
        Decimal::from(price).try_div_u64(decimals)
    }
}

/// The decimal price that a published price gives at `unix_timestamp`:
/// `InvalidOracleConfig` where the price was published more than `max_age`
/// seconds from then, else as `price_to_decimal_spec`.
pub open spec fn price_from_feed_spec(published: PythPrice, unix_timestamp: i64, max_age: u64) -> Result<
    Decimal,
    LendingError,
> {
    if !within_age_spec(published.publish_time, unix_timestamp, max_age) {
        Err(LendingError::InvalidOracleConfig)
    } else {
        price_to_decimal_spec(published.price, published.conf, published.expo)
    }
}

/// The decimal price that a published price gives at `unix_timestamp`,
/// where prices may be up to `max_age` seconds old.
pub fn price_from_feed(published: PythPrice, unix_timestamp: i64, max_age: u64) -> (r: Result<
    Decimal,
    LendingError,
>)
    ensures
        r == price_from_feed_spec(published, unix_timestamp, max_age),
{
    if !within_age(published.publish_time, unix_timestamp, max_age) {
        return Err(LendingError::InvalidOracleConfig);
    }
    price_to_decimal(published.price, published.conf, published.expo)
}

/// The two prices of a feed.
#[derive(Clone, Copy, Debug, PartialEq, Eq, Structural)]
pub struct PythPrices {
    /// The latest price.
    pub spot: PythPrice,
    /// The exponentially weighted moving average of the price.
    pub smoothed: PythPrice,
}

/// The spot price that the Pyth library reads from the bytes of a price
/// account: the latest one while the feed is trading, else the one before
/// it.
pub uninterp spec fn pyth_price_account(data: Seq<u8>) -> Result<PythPrice, PythError>;

/// The moving average of the price that the Pyth library reads from the
/// bytes of a price account.
pub uninterp spec fn pyth_smoothed_price_account(data: Seq<u8>) -> Result<PythPrice, PythError>;

/// Calls `pyth_sdk_solana::state::load_price_account` on an aligned copy of
/// `data`, then `to_price_feed` and `get_price_unchecked` on what it
/// returns. Nothing is claimed of the result but that it depends on the
/// bytes alone.
#[verifier::external_body]
fn load_pyth_price(data: &[u8]) -> (r: Result<PythPrice, PythError>)
    ensures
        r == pyth_price_account(data@),
{
    let mut words = vec![0u64; data.len()];
    let bytes: &mut [u8] = bytemuck::cast_slice_mut(&mut words);
    bytes[..data.len()].copy_from_slice(data);
    match pyth_sdk_solana::state::load_price_account(&bytes[..data.len()]) {
        Ok(account) => {
            let p = account.to_price_feed(&Default::default()).get_price_unchecked();
            Ok(PythPrice { price: p.price, conf: p.conf, expo: p.expo, publish_time: p.publish_time })
        },
        Err(pyth_sdk_solana::PythError::InvalidAccountData) => Err(PythError::InvalidAccountData),
        Err(pyth_sdk_solana::PythError::BadVersionNumber) => Err(PythError::BadVersionNumber),
        Err(pyth_sdk_solana::PythError::WrongAccountType) => Err(PythError::WrongAccountType),
    }
}

/// Calls `pyth_sdk_solana::state::load_price_account` on an aligned copy of
/// `data`, then `to_price_feed` and `get_ema_price_unchecked` on what it
/// returns. Nothing is claimed of the result but that it depends on the
/// bytes alone.
#[verifier::external_body]
fn load_pyth_smoothed_price(data: &[u8]) -> (r: Result<PythPrice, PythError>)
    ensures
        r == pyth_smoothed_price_account(data@),
{
    let mut words = vec![0u64; data.len()];
    let bytes: &mut [u8] = bytemuck::cast_slice_mut(&mut words);
    bytes[..data.len()].copy_from_slice(data);
    match pyth_sdk_solana::state::load_price_account(&bytes[..data.len()]) {
        Ok(account) => {
            let p = account.to_price_feed(&Default::default()).get_ema_price_unchecked();
            Ok(PythPrice { price: p.price, conf: p.conf, expo: p.expo, publish_time: p.publish_time })
        },
        Err(pyth_sdk_solana::PythError::InvalidAccountData) => Err(PythError::InvalidAccountData),
        Err(pyth_sdk_solana::PythError::BadVersionNumber) => Err(PythError::BadVersionNumber),
        Err(pyth_sdk_solana::PythError::WrongAccountType) => Err(PythError::WrongAccountType),
    }
}

/// The price that `get_pyth_price` returns.
pub open spec fn get_pyth_price_spec(
    pyth_price_key: Pubkey,
    pyth_price_data: Seq<u8>,
    unix_timestamp: i64,
) -> Result<Decimal, OracleError> {
    if pyth_price_key@ == null_pubkey_bytes() {
        Err(OracleError::Lending(LendingError::NullOracleConfig))
    } else {
        match pyth_price_account(pyth_price_data) {
            Err(e) => Err(OracleError::Pyth(e)),
            Ok(published) => match price_from_feed_spec(
                published,
                unix_timestamp,
                STALE_AFTER_SECONDS_ELAPSED,
            ) {
                Ok(price) => Ok(price),
                Err(e) => Err(OracleError::Lending(e)),
            },
        }
    }
}

/// The spot price and the smoothed price that `get_pyth_prices` returns.
pub open spec fn get_pyth_prices_spec(
    pyth_price_key: Pubkey,
    pyth_price_data: Seq<u8>,
    unix_timestamp: i64,
    max_age: u64,
) -> Result<(Decimal, Decimal), OracleError> {
    if pyth_price_key@ == null_pubkey_bytes() {
        Err(OracleError::Lending(LendingError::NullOracleConfig))
    } else {
        match pyth_price_account(pyth_price_data) {
            Err(e) => Err(OracleError::Pyth(e)),
            Ok(spot) => match pyth_smoothed_price_account(pyth_price_data) {
                Err(e) => Err(OracleError::Pyth(e)),
                Ok(smoothed) => prices_from_feed_spec(
                    PythPrices { spot, smoothed },
                    unix_timestamp,
                    max_age,
                ),
            },
        }
    }
}

/// The decimal prices that the published prices give at `unix_timestamp`,
/// where prices may be up to `max_age` seconds old. The spot price decides:
/// where it is refused, so is the pair. A smoothed price that is itself
/// refused is replaced by the spot price.
pub open spec fn prices_from_feed_spec(
    published: PythPrices,
    unix_timestamp: i64,
    max_age: u64,
) -> Result<(Decimal, Decimal), OracleError> {
    match price_from_feed_spec(published.spot, unix_timestamp, max_age) {
        Err(e) => Err(OracleError::Lending(e)),
        Ok(spot) => match price_from_feed_spec(published.smoothed, unix_timestamp, max_age) {
            Ok(smoothed) => Ok((spot, smoothed)),
            Err(_) => Ok((spot, spot)),
        },
    }
}

/// The decimal prices that the published prices give at `unix_timestamp`,
/// where prices may be up to `max_age` seconds old.
pub fn prices_from_feed(published: PythPrices, unix_timestamp: i64, max_age: u64) -> (r: Result<
    (Decimal, Decimal),
    OracleError,
>)
    ensures
        r == prices_from_feed_spec(published, unix_timestamp, max_age),
{
    let spot = match price_from_feed(published.spot, unix_timestamp, max_age) {
        Ok(v) => v,
        Err(e) => {
            return Err(OracleError::Lending(e));
        },
    };
    match price_from_feed(published.smoothed, unix_timestamp, max_age) {
        Ok(smoothed) => Ok((spot, smoothed)),
        Err(_) => Ok((spot, spot)),
    }
}

/// The spot price and the smoothed price in the Pyth price account with
/// address `pyth_price_key` and contents `pyth_price_data`, at the time
/// `unix_timestamp`, where prices may be up to `max_age` seconds old.
/// `NullOracleConfig` for the address that stands for "no oracle"; the
/// oracle's error where the account cannot be read; `InvalidOracleConfig`
/// where the spot price is stale, not positive or too uncertain.
pub fn get_pyth_prices(
    pyth_price_key: &Pubkey,
    pyth_price_data: &[u8],
    unix_timestamp: i64,
    max_age: u64,
) -> (r: Result<(Decimal, Decimal), OracleError>)
    ensures
        r == get_pyth_prices_spec(*pyth_price_key, pyth_price_data@, unix_timestamp, max_age),
{
    if pyth_price_key.key_eq(&null_pubkey()) {
        return Err(OracleError::Lending(LendingError::NullOracleConfig));
    }
    let spot = match load_pyth_price(pyth_price_data) {
        Ok(v) => v,
        Err(e) => {
            return Err(OracleError::Pyth(e));
        },
    };
    let smoothed = match load_pyth_smoothed_price(pyth_price_data) {
        Ok(v) => v,
        Err(e) => {
            return Err(OracleError::Pyth(e));
        },
    };
    prices_from_feed(PythPrices { spot, smoothed }, unix_timestamp, max_age)
}

/// The spot price in the Pyth price account with address `pyth_price_key`
/// and contents `pyth_price_data`, at the time `unix_timestamp`.
/// `NullOracleConfig` for the address that stands for "no oracle"; the
/// oracle's error where the account cannot be read; `InvalidOracleConfig`
/// where the price is stale, not positive or too uncertain.
pub fn get_pyth_price(pyth_price_key: &Pubkey, pyth_price_data: &[u8], unix_timestamp: i64) -> (r:
    Result<Decimal, OracleError>)
    ensures
        r == get_pyth_price_spec(*pyth_price_key, pyth_price_data@, unix_timestamp),
{
    if pyth_price_key.key_eq(&null_pubkey()) {
        return Err(OracleError::Lending(LendingError::NullOracleConfig));
    }
    let published = match load_pyth_price(pyth_price_data) {
        Ok(v) => v,
        Err(e) => {
            return Err(OracleError::Pyth(e));
        },
    };
    match price_from_feed(published, unix_timestamp, STALE_AFTER_SECONDS_ELAPSED) {
        Ok(price) => Ok(price),
        Err(e) => Err(OracleError::Lending(e)),
    }
}

} // verus!
