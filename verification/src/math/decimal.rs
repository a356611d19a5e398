//! Unsigned fixed-point decimals with eighteen fractional digits.

use crate::error::LendingError;
use crate::math::uint192::{lemma_view_injective, modulus, U192};
use vstd::prelude::*;
use vstd::std_specs::convert::FromSpec;

verus! {

/// The scale: one whole unit.
pub const WAD: u64 = 1_000_000_000_000_000_000;

/// Half of one whole unit.
pub const HALF_WAD: u64 = 500_000_000_000_000_000;

/// One percent.
pub const PERCENT_SCALER: u64 = 10_000_000_000_000_000;

/// One basis point.
pub const BPS_SCALER: u64 = 100_000_000_000_000;

/// A non-negative number with eighteen decimal places, held as the integer
/// `value * 10^18` in 192 bits.
#[derive(Clone, Copy, Debug, PartialEq, Eq, Structural)]
pub struct Decimal(pub U192);

impl View for Decimal {
    type V = nat;

    /// The scaled integer: the number times 10^18.
    open spec fn view(&self) -> nat {
        self.0@
    }
}

/// The limbs of a number below 2^192.
#[verifier::opaque]
pub open spec fn limbs_of(n: nat) -> U192 {
    U192 {
        lo: (n % 0x1_0000_0000_0000_0000) as u64,
        mid: ((n / 0x1_0000_0000_0000_0000) % 0x1_0000_0000_0000_0000) as u64,
        hi: ((n / 0x1_0000_0000_0000_0000_0000_0000_0000_0000nat) % 0x1_0000_0000_0000_0000) as u64,
    }
}

/// The decimal whose scaled integer is `n`, for `n` below 2^192.
pub open spec fn scaled(n: nat) -> Decimal {
    Decimal(limbs_of(n))
}

/// `scaled` and the view are inverse to each other.
pub broadcast proof fn lemma_scaled_view(n: nat)
    requires
        n < modulus(),
    ensures
        (#[trigger] scaled(n))@ == n,
{
    reveal(limbs_of);
}

/// A decimal is determined by its scaled integer.
pub proof fn lemma_scaled_of_view(d: Decimal)
    ensures
        scaled(d@) == d,
{
    reveal(limbs_of);
    lemma_view_injective(limbs_of(d@), d.0);
}

impl Decimal {
    /// The sum, where it fits in 192 bits.
    pub open spec fn try_add_spec(self, rhs: Decimal) -> Result<Decimal, LendingError> {
        if self@ + rhs@ < modulus() {
            Ok(scaled(self@ + rhs@))
        } else {
            Err(LendingError::MathOverflow)
        }
    }

    /// The difference, where it is not negative.
    pub open spec fn try_sub_spec(self, rhs: Decimal) -> Result<Decimal, LendingError> {
        if self@ >= rhs@ {
            Ok(scaled((self@ - rhs@) as nat))
        } else {
            Err(LendingError::MathOverflow)
        }
    }

    /// The product, rounded down to eighteen places. The unscaled product of
    /// the two scaled integers has to fit in 192 bits.
    pub open spec fn try_mul_spec(self, rhs: Decimal) -> Result<Decimal, LendingError> {
        if self@ * rhs@ < modulus() {
            Ok(scaled(self@ * rhs@ / (WAD as nat)))
        } else {
            Err(LendingError::MathOverflow)
        }
    }

    /// The product with a whole number, where it fits in 192 bits.
    pub open spec fn try_mul_u64_spec(self, rhs: u64) -> Result<Decimal, LendingError> {
        if self@ * (rhs as nat) < modulus() {
            Ok(scaled(self@ * (rhs as nat)))
        } else {
            Err(LendingError::MathOverflow)
        }
    }

    /// The quotient, rounded down to eighteen places. The dividend times
    /// 10^18 has to fit in 192 bits, and the divisor must not be zero.
    pub open spec fn try_div_spec(self, rhs: Decimal) -> Result<Decimal, LendingError> {
        if rhs@ != 0 && self@ * (WAD as nat) < modulus() {
            Ok(scaled(self@ * (WAD as nat) / rhs@))
        } else {
            Err(LendingError::MathOverflow)
        }
    }

    /// The quotient by a whole number other than zero, rounded down.
    pub open spec fn try_div_u64_spec(self, rhs: u64) -> Result<Decimal, LendingError> {
        if rhs != 0 {
            Ok(scaled(self@ / (rhs as nat)))
        } else {
            Err(LendingError::MathOverflow)
        }
    }

    /// The whole part, where it fits in 64 bits.
    pub open spec fn try_floor_u64_spec(self) -> Result<u64, LendingError> {
        if self@ / (WAD as nat) <= u64::MAX {
            Ok((self@ / (WAD as nat)) as u64)
        } else {
            Err(LendingError::MathOverflow)
        }
    }

    /// The least whole number not below the value, where it fits in 64 bits.
    pub open spec fn try_ceil_u64_spec(self) -> Result<u64, LendingError> {
        if self@ + (WAD - 1) < modulus() && (self@ + (WAD - 1)) / (WAD as int) <= u64::MAX {
            Ok(((self@ + (WAD - 1)) / (WAD as int)) as u64)
        } else {
            Err(LendingError::MathOverflow)
        }
    }

    /// The nearest whole number, halves rounded up, where it fits in 64 bits.
    pub open spec fn try_round_u64_spec(self) -> Result<u64, LendingError> {
        if self@ + HALF_WAD < modulus() && (self@ + HALF_WAD) / (WAD as int) <= u64::MAX {
            Ok(((self@ + HALF_WAD) / (WAD as int)) as u64)
        } else {
            Err(LendingError::MathOverflow)
        }
    }

    /// The difference, or zero where it would be negative.
    pub open spec fn saturating_sub_spec(self, rhs: Decimal) -> Decimal {
        if self@ >= rhs@ {
            scaled((self@ - rhs@) as nat)
        } else {
            scaled(0)
        }
    }

    /// The smaller of the two.
    pub open spec fn min_spec(self, rhs: Decimal) -> Decimal {
        if self@ <= rhs@ {
            self
        } else {
            rhs
        }
    }

    /// The larger of the two.
    pub open spec fn max_spec(self, rhs: Decimal) -> Decimal {
        if self@ >= rhs@ {
            self
        } else {
            rhs
        }
    }

    /// Zero.
    pub fn zero() -> (r: Decimal)
        ensures
            r == scaled(0),
            r@ == 0,
    {
        let r = Decimal(U192::zero());
        proof {
            lemma_scaled_of_view(r);
        }
        r
    }

    /// One.
    pub fn one() -> (r: Decimal)
        ensures
            r == scaled(WAD as nat),
            r@ == WAD,
    {
        let r = Decimal(U192::from_u64(WAD));
        proof {
            lemma_scaled_of_view(r);
        }
        r
    }

    /// `percent` hundredths.
    pub fn from_percent(percent: u8) -> (r: Decimal)
        ensures
            r == scaled((percent as nat) * (PERCENT_SCALER as nat)),
            r@ == (percent as nat) * (PERCENT_SCALER as nat),
    {
        let r = Decimal(U192::from_u64((percent as u64) * PERCENT_SCALER));
        proof {
            lemma_scaled_of_view(r);
        }
        r
    }

    /// `percent` hundredths, for percentages beyond 255.
    pub fn from_percent_u64(percent: u64) -> (r: Decimal)
        ensures
            r == scaled((percent as nat) * (PERCENT_SCALER as nat)),
            r@ == (percent as nat) * (PERCENT_SCALER as nat),
    {
        assert((percent as int) * (PERCENT_SCALER as int) <= 0xFFFF_FFFF_FFFF_FFFF
            * 10_000_000_000_000_000) by (nonlinear_arith)
            requires
                0 <= percent <= 0xFFFF_FFFF_FFFF_FFFF,
                PERCENT_SCALER == 10_000_000_000_000_000,
        ;
        let r = Decimal(U192::from_u128((percent as u128) * (PERCENT_SCALER as u128)));
        proof {
            lemma_scaled_of_view(r);
        }
        r
    }

    /// `bps` ten-thousandths.
    pub fn from_bps(bps: u64) -> (r: Decimal)
        ensures
            r == scaled((bps as nat) * (BPS_SCALER as nat)),
            r@ == (bps as nat) * (BPS_SCALER as nat),
    {
        assert((bps as int) * (BPS_SCALER as int) <= 0xFFFF_FFFF_FFFF_FFFF * 100_000_000_000_000)
            by (nonlinear_arith)
            requires
                0 <= bps <= 0xFFFF_FFFF_FFFF_FFFF,
                BPS_SCALER == 100_000_000_000_000,
        ;
        let r = Decimal(U192::from_u128((bps as u128) * (BPS_SCALER as u128)));
        proof {
            lemma_scaled_of_view(r);
        }
        r
    }

    /// The decimal whose scaled integer is `scaled_val`.
    pub fn from_scaled_val(scaled_val: u128) -> (r: Decimal)
        ensures
            r == scaled(scaled_val as nat),
            r@ == scaled_val,
    {
        let r = Decimal(U192::from_u128(scaled_val));
        proof {
            lemma_scaled_of_view(r);
        }
        r
    }

    /// The scaled integer, where it fits in 128 bits.
    pub fn to_scaled_val(&self) -> (r: Result<u128, LendingError>)
        ensures
            r == (if self@ <= u128::MAX {
                Ok::<u128, LendingError>(self@ as u128)
            } else {
                Err(LendingError::MathOverflow)
            }),
    {
        match self.0.to_u128() {
            Some(v) => Ok(v),
            None => Err(LendingError::MathOverflow),
        }
    }

    /// Whether the value is zero.
    pub fn is_zero(&self) -> (r: bool)
        ensures
            r == (self@ == 0),
    {
        self.0.is_zero()
    }

    /// Whether the value is less than `rhs`.
    pub fn lt(&self, rhs: &Decimal) -> (r: bool)
        ensures
            r == (self@ < rhs@),
    {
        self.0.lt(&rhs.0)
    }

    /// Whether the value is at most `rhs`.
    pub fn le(&self, rhs: &Decimal) -> (r: bool)
        ensures
            r == (self@ <= rhs@),
    {
        self.0.le(&rhs.0)
    }

    /// Whether the value is greater than `rhs`.
    pub fn gt(&self, rhs: &Decimal) -> (r: bool)
        ensures
            r == (self@ > rhs@),
    {
        rhs.0.lt(&self.0)
    }

    /// Whether the value is at least `rhs`.
    pub fn ge(&self, rhs: &Decimal) -> (r: bool)
        ensures
            r == (self@ >= rhs@),
    {
        rhs.0.le(&self.0)
    }

    /// The smaller of the two.
    pub fn min(self, rhs: Decimal) -> (r: Decimal)
        ensures
            r == self.min_spec(rhs),
    {
        if self.le(&rhs) {
            self
        } else {
            rhs
        }
    }

    /// The larger of the two.
    pub fn max(self, rhs: Decimal) -> (r: Decimal)
        ensures
            r == self.max_spec(rhs),
    {
        if self.ge(&rhs) {
            self
        } else {
            rhs
        }
    }

    /// The sum; `MathOverflow` where it does not fit.
    pub fn try_add(self, rhs: Decimal) -> (r: Result<Decimal, LendingError>)
        ensures
            r == self.try_add_spec(rhs),
    {
        match self.0.checked_add(&rhs.0) {
            Some(v) => {
                proof {
                    lemma_scaled_of_view(Decimal(v));
                }
                Ok(Decimal(v))
            },
            None => Err(LendingError::MathOverflow),
        }
    }

    /// The difference; `MathOverflow` where `rhs` is the larger.
    pub fn try_sub(self, rhs: Decimal) -> (r: Result<Decimal, LendingError>)
        ensures
            r == self.try_sub_spec(rhs),
    {
        match self.0.checked_sub(&rhs.0) {
            Some(v) => {
                proof {
                    lemma_scaled_of_view(Decimal(v));
                }
                Ok(Decimal(v))
            },
            None => Err(LendingError::MathOverflow),
        }
    }

    /// The difference, or zero where `rhs` is the larger.
    pub fn saturating_sub(self, rhs: Decimal) -> (r: Decimal)
        ensures
            r == self.saturating_sub_spec(rhs),
    {
        match self.0.checked_sub(&rhs.0) {
            Some(v) => {
                proof {
                    lemma_scaled_of_view(Decimal(v));
                }
                Decimal(v)
            },
            None => Decimal::zero(),
        }
    }

    /// The product, rounded down; `MathOverflow` where the product of the
    /// scaled integers does not fit in 192 bits.
    pub fn try_mul(self, rhs: Decimal) -> (r: Result<Decimal, LendingError>)
        ensures
            r == self.try_mul_spec(rhs),
    {
        match self.0.checked_mul(&rhs.0) {
            Some(p) => {
                let (q, _rem) = p.div_rem_u64(WAD);
                proof {
                    lemma_scaled_of_view(Decimal(q));
                }
                Ok(Decimal(q))
            },
            None => Err(LendingError::MathOverflow),
        }
    }

    /// The product with a whole number; `MathOverflow` where it does not fit.
    pub fn try_mul_u64(self, rhs: u64) -> (r: Result<Decimal, LendingError>)
        ensures
            r == self.try_mul_u64_spec(rhs),
    {
        match self.0.checked_mul_u64(rhs) {
            Some(p) => {
                proof {
                    lemma_scaled_of_view(Decimal(p));
                }
                Ok(Decimal(p))
            },
            None => Err(LendingError::MathOverflow),
        }
    }

    /// The quotient, rounded down; `MathOverflow` where `rhs` is zero or the
    /// dividend times 10^18 does not fit in 192 bits.
    pub fn try_div(self, rhs: Decimal) -> (r: Result<Decimal, LendingError>)
        ensures
            r == self.try_div_spec(rhs),
    {
        if rhs.0.is_zero() {
            return Err(LendingError::MathOverflow);
        }
        match self.0.checked_mul_u64(WAD) {
            Some(p) => {
                let (q, _rem) = p.div_rem(&rhs.0);
                proof {
                    lemma_scaled_of_view(Decimal(q));
                }
                Ok(Decimal(q))
            },
            None => Err(LendingError::MathOverflow),
        }
    }

    /// The quotient by a whole number, rounded down; `MathOverflow` where
    /// `rhs` is zero.
    pub fn try_div_u64(self, rhs: u64) -> (r: Result<Decimal, LendingError>)
        ensures
            r == self.try_div_u64_spec(rhs),
    {
        if rhs == 0 {
            return Err(LendingError::MathOverflow);
        }
        let (q, _rem) = self.0.div_rem_u64(rhs);
        proof {
            lemma_scaled_of_view(Decimal(q));
        }
        Ok(Decimal(q))
    }

    /// The whole part; `MathOverflow` where it exceeds `u64::MAX`.
    pub fn try_floor_u64(&self) -> (r: Result<u64, LendingError>)
        ensures
            r == self.try_floor_u64_spec(),
    {
        let (q, _rem) = self.0.div_rem_u64(WAD);
        match q.to_u64() {
            Some(v) => Ok(v),
            None => Err(LendingError::MathOverflow),
        }
    }

    /// The least whole number not below the value; `MathOverflow` where it
    /// exceeds `u64::MAX`.
    pub fn try_ceil_u64(&self) -> (r: Result<u64, LendingError>)
        ensures
            r == self.try_ceil_u64_spec(),
    {
        let bump = U192::from_u64(WAD - 1);
        match self.0.checked_add(&bump) {
            Some(s) => {
                let (q, _rem) = s.div_rem_u64(WAD);
                match q.to_u64() {
                    Some(v) => Ok(v),
                    None => Err(LendingError::MathOverflow),
                }
            },
            None => Err(LendingError::MathOverflow),
        }
    }

    /// The nearest whole number, halves rounded up; `MathOverflow` where it
    /// exceeds `u64::MAX`.
    pub fn try_round_u64(&self) -> (r: Result<u64, LendingError>)
        ensures
            r == self.try_round_u64_spec(),
    {
        let bump = U192::from_u64(HALF_WAD);
        match self.0.checked_add(&bump) {
            Some(s) => {
                let (q, _rem) = s.div_rem_u64(WAD);
                match q.to_u64() {
                    Some(v) => Ok(v),
                    None => Err(LendingError::MathOverflow),
                }
            },
            None => Err(LendingError::MathOverflow),
        }
    }
}

impl From<u64> for Decimal {
    /// The whole number `val`.
    fn from(val: u64) -> (r: Decimal) {
        let r = Decimal(U192::from_u128((val as u128) * (WAD as u128)));
        proof {
            lemma_scaled_of_view(r);
        }
        r
    }
}

impl vstd::std_specs::convert::FromSpecImpl<u64> for Decimal {
    open spec fn obeys_from_spec() -> bool {
        true
    }

    open spec fn from_spec(val: u64) -> Decimal {
        scaled((val as nat) * (WAD as nat))
    }
}

/// A whole number comes back unchanged from its decimal: the whole part of
/// the decimal made from any `n` is `n`.
pub proof fn lemma_from_u64_floor_round_trip(n: u64)
    ensures
        Decimal::from_spec(n).try_floor_u64_spec() == Ok::<u64, LendingError>(n),
        Decimal::from_spec(n).try_ceil_u64_spec() == Ok::<u64, LendingError>(n),
        Decimal::from_spec(n).try_round_u64_spec() == Ok::<u64, LendingError>(n),
{
    lemma_scaled_view((n as nat) * (WAD as nat));
}

} // verus!
