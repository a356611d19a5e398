use token_lending::error::LendingError;
use token_lending::math::decimal::{Decimal, HALF_WAD, WAD};
use token_lending::math::uint192::U192;

fn dec(scaled: u128) -> Decimal {
    Decimal::from_scaled_val(scaled)
}

#[test]
fn decimal_round_trip_whole_numbers() {
    for n in [0u64, 1, 2, 999, 1_000_000, u64::MAX - 1, u64::MAX] {
        assert_eq!(Decimal::from(n).try_floor_u64(), Ok(n));
        assert_eq!(Decimal::from(n).try_ceil_u64(), Ok(n));
        assert_eq!(Decimal::from(n).try_round_u64(), Ok(n));
    }
}

#[test]
fn decimal_constants() {
    assert_eq!(Decimal::one().to_scaled_val(), Ok(WAD as u128));
    assert_eq!(Decimal::zero().to_scaled_val(), Ok(0));
    assert_eq!(Decimal::from_percent(50).to_scaled_val(), Ok(HALF_WAD as u128));
    assert_eq!(Decimal::from_percent_u64(300).to_scaled_val(), Ok(3 * WAD as u128));
    assert_eq!(Decimal::from_bps(1).to_scaled_val(), Ok(100_000_000_000_000));
    assert_eq!(Decimal::from(7u64).to_scaled_val(), Ok(7 * WAD as u128));
}

#[test]
fn decimal_add_sub() {
    let a = Decimal::from(5u64);
    let b = Decimal::from_percent(25);
    assert_eq!(a.try_add(b).unwrap().to_scaled_val(), Ok(5_250_000_000_000_000_000));
    assert_eq!(a.try_sub(b).unwrap().to_scaled_val(), Ok(4_750_000_000_000_000_000));
    assert_eq!(b.try_sub(a), Err(LendingError::MathOverflow));
    assert_eq!(b.saturating_sub(a), Decimal::zero());
    assert_eq!(a.saturating_sub(b).to_scaled_val(), Ok(4_750_000_000_000_000_000));
    let top = Decimal(U192 { lo: u64::MAX, mid: u64::MAX, hi: u64::MAX });
    assert_eq!(top.try_add(dec(1)), Err(LendingError::MathOverflow));
    assert_eq!(top.try_add(Decimal::zero()), Ok(top));
    assert_eq!(top.try_sub(top), Ok(Decimal::zero()));
}

#[test]
fn decimal_mul() {
    let a = Decimal::from(3u64);
    let b = Decimal::from_percent(50);
    assert_eq!(a.try_mul(b), Ok(dec(1_500_000_000_000_000_000)));
    // rounds down at the eighteenth place
    assert_eq!(dec(1).try_mul(b), Ok(dec(0)));
    assert_eq!(dec(3).try_mul(b), Ok(dec(1)));
    assert_eq!(a.try_mul_u64(4), Ok(Decimal::from(12u64)));
    // the product of two u64 values, as a decimal: 188 bits
    let m = Decimal::from(u64::MAX);
    let sq = m.try_mul_u64(u64::MAX).unwrap();
    let expected = (u64::MAX as u128) * (u64::MAX as u128);
    assert_eq!(sq.try_div_u64(u64::MAX), Ok(m));
    assert_eq!(sq.to_scaled_val(), Err(LendingError::MathOverflow));
    let (q, r) = sq.0.div_rem_u64(WAD);
    assert_eq!(r, 0);
    assert_eq!(q.to_u128(), Some(expected));
    // halving it as a decimal: the intermediate product has 247 bits
    assert_eq!(sq.try_mul(Decimal::from_percent(50)), Err(LendingError::MathOverflow));
    // the scaled product of two decimals has to fit in 192 bits
    assert_eq!(m.try_mul(m), Err(LendingError::MathOverflow));
    assert_eq!(sq.try_mul_u64(u64::MAX), Err(LendingError::MathOverflow));
    let k = Decimal::from(1_000_000_000u64);
    assert_eq!(k.try_mul(k), Ok(Decimal::from(1_000_000_000_000_000_000u64)));
}

#[test]
fn decimal_div() {
    let a = Decimal::from(1u64);
    let b = Decimal::from(3u64);
    assert_eq!(a.try_div(b), Ok(dec(333_333_333_333_333_333)));
    assert_eq!(b.try_div(a), Ok(b));
    assert_eq!(a.try_div(Decimal::zero()), Err(LendingError::MathOverflow));
    assert_eq!(a.try_div_u64(0), Err(LendingError::MathOverflow));
    assert_eq!(Decimal::from(10u64).try_div_u64(4), Ok(dec(2_500_000_000_000_000_000)));
    assert_eq!(
        Decimal::from(2u64).try_div(Decimal::from_percent(1)),
        Ok(Decimal::from(200u64))
    );
    // a divisor wider than 128 bits
    let m = Decimal::from(u64::MAX);
    let big = m.try_mul_u64(1 << 40).unwrap();
    assert_eq!(big.to_scaled_val(), Err(LendingError::MathOverflow));
    assert_eq!(m.try_div(big), Ok(dec(909_494)));
    assert_eq!(Decimal::one().try_div(big), Ok(dec(0)));
    assert_eq!(
        Decimal::one().try_div(dec(1)),
        Ok(dec(1_000_000_000_000_000_000 * 1_000_000_000_000_000_000))
    );
    // a dividend wider than 128 bits: 2^64 * 10^18 * 10^18 needs 184 bits
    let wide = Decimal::from(u64::MAX).try_add(Decimal::one()).unwrap();
    assert_eq!(wide.try_div(Decimal::from(1u64 << 32)), Ok(Decimal::from(1u64 << 32)));
    assert_eq!(big.try_div(m), Err(LendingError::MathOverflow));
    // the dividend times 10^18 does not fit in 192 bits
    let top = Decimal(U192 { lo: 0, mid: 0, hi: 1 << 63 });
    assert_eq!(top.try_div(a), Err(LendingError::MathOverflow));
}

#[test]
fn decimal_rounding() {
    let x = dec(2_500_000_000_000_000_000);
    assert_eq!(x.try_floor_u64(), Ok(2));
    assert_eq!(x.try_ceil_u64(), Ok(3));
    assert_eq!(x.try_round_u64(), Ok(3));
    let y = dec(2_499_999_999_999_999_999);
    assert_eq!(y.try_floor_u64(), Ok(2));
    assert_eq!(y.try_ceil_u64(), Ok(3));
    assert_eq!(y.try_round_u64(), Ok(2));
    assert_eq!(dec(1).try_ceil_u64(), Ok(1));
    assert_eq!(dec(1).try_floor_u64(), Ok(0));
    let over = Decimal::from(u64::MAX).try_add(Decimal::one()).unwrap();
    assert_eq!(over.try_floor_u64(), Err(LendingError::MathOverflow));
    assert_eq!(over.try_ceil_u64(), Err(LendingError::MathOverflow));
    assert_eq!(over.try_round_u64(), Err(LendingError::MathOverflow));
    let edge = Decimal::from(u64::MAX).try_add(dec(HALF_WAD as u128)).unwrap();
    assert_eq!(edge.try_floor_u64(), Ok(u64::MAX));
    assert_eq!(edge.try_round_u64(), Err(LendingError::MathOverflow));
}

#[test]
fn decimal_comparisons() {
    let a = Decimal::from(2u64);
    let b = Decimal::from(3u64);
    assert!(a.lt(&b) && a.le(&b) && b.gt(&a) && b.ge(&a));
    assert!(a.le(&a) && a.ge(&a) && !a.lt(&a) && !a.gt(&a));
    assert_eq!(a.min(b), a);
    assert_eq!(a.max(b), b);
    assert!(Decimal::zero().is_zero());
    assert!(!a.is_zero());
    let high = Decimal(U192 { lo: 0, mid: 1, hi: 0 });
    let low = Decimal(U192 { lo: u64::MAX, mid: 0, hi: 0 });
    assert!(low.lt(&high));
}

#[test]
fn uint192_arithmetic_matches_u128() {
    let xs = [0u128, 1, 2, 0xFFFF_FFFF_FFFF_FFFF, 0x1_0000_0000_0000_0000, 1 << 100, u128::MAX / 3, u128::MAX];
    for &x in xs.iter() {
        for &y in xs.iter() {
            let a = U192::from_u128(x);
            let b = U192::from_u128(y);
            assert_eq!(a.lt(&b), x < y);
            assert_eq!(a.le(&b), x <= y);
            match x.checked_add(y) {
                Some(s) => assert_eq!(a.checked_add(&b).unwrap().to_u128(), Some(s)),
                None => assert_eq!(a.checked_add(&b).unwrap().to_u128(), None),
            }
            assert_eq!(a.checked_sub(&b).map(|d| d.to_u128().unwrap()), x.checked_sub(y));
            if let Some(p) = x.checked_mul(y) {
                assert_eq!(a.checked_mul(&b).unwrap().to_u128(), Some(p));
            }
            if y != 0 {
                let (q, r) = a.div_rem(&b);
                assert_eq!(q.to_u128(), Some(x / y));
                assert_eq!(r.to_u128(), Some(x % y));
            }
            if y != 0 && y <= u64::MAX as u128 {
                let (q, r) = a.div_rem_u64(y as u64);
                assert_eq!(q.to_u128(), Some(x / y));
                assert_eq!(r as u128, x % y);
            }
        }
    }
}

#[test]
fn uint192_wide_values() {
    let top = U192 { lo: u64::MAX, mid: u64::MAX, hi: u64::MAX };
    let one = U192::from_u64(1);
    assert_eq!(top.checked_add(&one), None);
    assert_eq!(top.checked_mul(&one), Some(top));
    assert_eq!(top.checked_mul(&U192::from_u64(2)), None);
    let (q, r) = top.div_rem(&top);
    assert_eq!((q, r), (one, U192::zero()));
    let (q, r) = top.div_rem(&U192 { lo: 0, mid: 0, hi: 1 });
    assert_eq!(q, U192::from_u64(u64::MAX));
    assert_eq!(r, U192 { lo: u64::MAX, mid: u64::MAX, hi: 0 });
    let (c, d) = top.shl1(true);
    assert!(c);
    assert_eq!(d, top);
    // 2^64 * 2^64 = 2^128
    let b = U192 { lo: 0, mid: 1, hi: 0 };
    assert_eq!(b.checked_mul(&b), Some(U192 { lo: 0, mid: 0, hi: 1 }));
    assert_eq!(b.checked_shl64(), Some(U192 { lo: 0, mid: 0, hi: 1 }));
    assert_eq!(U192 { lo: 0, mid: 0, hi: 1 }.checked_shl64(), None);
    assert_eq!(U192::from_u64(5).wrapping_sub(&U192::from_u64(6)), top);
    assert_eq!(top.to_u64(), None);
    assert_eq!(U192::from_u64(9).to_u64(), Some(9));
}
