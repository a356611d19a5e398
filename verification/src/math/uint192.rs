//! Unsigned 192-bit integers held as three 64-bit limbs.

use vstd::prelude::*;

verus! {

/// 2^64, the weight of the middle limb.
pub open spec fn limb_base() -> nat {
    0x1_0000_0000_0000_0000
}

/// 2^128, the weight of the high limb.
pub open spec fn limb_base_sq() -> nat {
    0x1_0000_0000_0000_0000_0000_0000_0000_0000nat
}

/// 2^192, one more than the largest value a `U192` holds.
pub open spec fn modulus() -> nat {
    0x1_0000_0000_0000_0000_0000_0000_0000_0000_0000_0000_0000_0000nat
}

/// An unsigned integer below 2^192, least significant limb first.
#[derive(Clone, Copy, Debug, PartialEq, Eq, Structural)]
pub struct U192 {
    pub lo: u64,
    pub mid: u64,
    pub hi: u64,
}

impl View for U192 {
    type V = nat;

    open spec fn view(&self) -> nat {
        (self.lo as nat) + (self.mid as nat) * limb_base() + (self.hi as nat) * limb_base_sq()
    }
}

/// Two values with the same number are the same limbs.
pub proof fn lemma_view_injective(a: U192, b: U192)
    requires
        a@ == b@,
    ensures
        a == b,
{
}

impl U192 {
    /// Zero.
    pub fn zero() -> (r: U192)
        ensures
            r@ == 0,
    {
        U192 { lo: 0, mid: 0, hi: 0 }
    }

    /// The value of `x`.
    pub fn from_u64(x: u64) -> (r: U192)
        ensures
            r@ == x,
    {
        U192 { lo: x, mid: 0, hi: 0 }
    }

    /// The value of `x`.
    pub fn from_u128(x: u128) -> (r: U192)
        ensures
            r@ == x,
    {
        let lo: u64 = (x % 0x1_0000_0000_0000_0000u128) as u64;
        let mid: u64 = (x / 0x1_0000_0000_0000_0000u128) as u64;
        U192 { lo, mid, hi: 0 }
    }

    /// The value as a `u64`, where it fits.
    pub fn to_u64(&self) -> (r: Option<u64>)
        ensures
            r == (if self@ <= u64::MAX { Some(self@ as u64) } else { None }),
    {
        if self.mid == 0 && self.hi == 0 {
            Some(self.lo)
        } else {
            None
        }
    }

    /// The value as a `u128`, where it fits.
    pub fn to_u128(&self) -> (r: Option<u128>)
        ensures
            r == (if self@ <= u128::MAX { Some(self@ as u128) } else { None }),
    {
        if self.hi == 0 {
            let v: u128 = (self.mid as u128) * 0x1_0000_0000_0000_0000u128 + (self.lo as u128);
            Some(v)
        } else {
            None
        }
    }

    /// Whether the value is zero.
    pub fn is_zero(&self) -> (r: bool)
        ensures
            r == (self@ == 0),
    {
        self.lo == 0 && self.mid == 0 && self.hi == 0
    }

    /// Whether the value is less than `other`.
    pub fn lt(&self, other: &U192) -> (r: bool)
        ensures
            r == (self@ < other@),
    {
        if self.hi != other.hi {
            self.hi < other.hi
        } else if self.mid != other.mid {
            self.mid < other.mid
        } else {
            self.lo < other.lo
        }
    }

    /// Whether the value is at most `other`.
    pub fn le(&self, other: &U192) -> (r: bool)
        ensures
            r == (self@ <= other@),
    {
        !other.lt(self)
    }

    /// The sum, or `None` where it does not fit in 192 bits.
    pub fn checked_add(&self, other: &U192) -> (r: Option<U192>)
        ensures
            r is Some <==> self@ + other@ < modulus(),
            r is Some ==> r->0@ == self@ + other@,
    {
        let s0: u128 = self.lo as u128 + other.lo as u128;
        let c0: u128 = s0 / 0x1_0000_0000_0000_0000u128;
        let s1: u128 = self.mid as u128 + other.mid as u128 + c0;
        let c1: u128 = s1 / 0x1_0000_0000_0000_0000u128;
        let s2: u128 = self.hi as u128 + other.hi as u128 + c1;
        if s2 / 0x1_0000_0000_0000_0000u128 != 0 {
            None
        } else {
            Some(
                U192 {
                    lo: (s0 % 0x1_0000_0000_0000_0000u128) as u64,
                    mid: (s1 % 0x1_0000_0000_0000_0000u128) as u64,
                    hi: s2 as u64,
                },
            )
        }
    }

    /// The difference, or `None` where `other` is the larger.
    pub fn checked_sub(&self, other: &U192) -> (r: Option<U192>)
        ensures
            r is Some <==> self@ >= other@,
            r is Some ==> r->0@ == self@ - other@,
    {
        if self.lt(other) {
            None
        } else {
            Some(self.wrapping_sub(other))
        }
    }

    /// The difference modulo 2^192.
    pub fn wrapping_sub(&self, other: &U192) -> (r: U192)
        ensures
            self@ >= other@ ==> r@ == self@ - other@,
            self@ < other@ ==> r@ == modulus() + self@ - other@,
    {
        let b: u128 = 0x1_0000_0000_0000_0000u128;
        let d0: u128 = b + self.lo as u128 - other.lo as u128;
        let borrow0: u128 = 1 - d0 / b;
        let d1: u128 = b + self.mid as u128 - other.mid as u128 - borrow0;
        let borrow1: u128 = 1 - d1 / b;
        let d2: u128 = b + self.hi as u128 - other.hi as u128 - borrow1;
        U192 { lo: (d0 % b) as u64, mid: (d1 % b) as u64, hi: (d2 % b) as u64 }
    }

    /// The product with a 64-bit factor, or `None` where it does not fit.
    pub fn checked_mul_u64(&self, m: u64) -> (r: Option<U192>)
        ensures
            r is Some <==> self@ * m < modulus(),
            r is Some ==> r->0@ == self@ * m,
    {
        let b: u128 = 0x1_0000_0000_0000_0000u128;
        proof {
            lemma_limb_product_bound(self.lo, m);
            lemma_limb_product_bound(self.mid, m);
            lemma_limb_product_bound(self.hi, m);
            lemma_scale_limbs(self.lo as int, self.mid as int, self.hi as int, m as int);
        }
        let low: u128 = (self.lo as u128) * (m as u128);
        let middle: u128 = (self.mid as u128) * (m as u128) + low / b;
        let high: u128 = (self.hi as u128) * (m as u128) + middle / b;
        if high / b != 0 {
            None
        } else {
            Some(U192 { lo: (low % b) as u64, mid: (middle % b) as u64, hi: high as u64 })
        }
    }

    /// The value times 2^64, or `None` where it does not fit.
    pub fn checked_shl64(&self) -> (r: Option<U192>)
        ensures
            r is Some <==> self@ * limb_base() < modulus(),
            r is Some ==> r->0@ == self@ * limb_base(),
    {
        if self.hi != 0 {
            None
        } else {
            Some(U192 { lo: 0, mid: self.lo, hi: self.mid })
        }
    }

    /// Quotient and remainder on division by a 64-bit divisor.
    pub fn div_rem_u64(&self, d: u64) -> (r: (U192, u64))
        requires
            d > 0,
        ensures
            r.0@ == self@ / (d as nat),
            r.1 == self@ % (d as nat),
    {
        let b: u128 = 0x1_0000_0000_0000_0000u128;
        let dd: u128 = d as u128;
        let q2: u64 = self.hi / d;
        let r2: u64 = self.hi % d;
        let t1: u128 = (r2 as u128) * b + self.mid as u128;
        let q1: u128 = t1 / dd;
        let r1: u128 = t1 % dd;
        proof {
            lemma_short_division_step(r2 as int, self.mid as int, d as int);
        }
        let t0: u128 = r1 * b + self.lo as u128;
        let q0: u128 = t0 / dd;
        let r0: u128 = t0 % dd;
        proof {
            lemma_short_division_step(r1 as int, self.lo as int, d as int);
            lemma_short_division_total(
                self.lo as int,
                self.mid as int,
                self.hi as int,
                d as int,
                q2 as int,
                r2 as int,
                q1 as int,
                r1 as int,
                q0 as int,
                r0 as int,
            );
        }
        (U192 { lo: q0 as u64, mid: q1 as u64, hi: q2 }, r0 as u64)
    }
}

impl U192 {
    /// The product, or `None` where it does not fit in 192 bits.
    pub fn checked_mul(&self, other: &U192) -> (r: Option<U192>)
        ensures
            r is Some <==> self@ * other@ < modulus(),
            r is Some ==> r->0@ == self@ * other@,
    {
        proof {
            lemma_product_by_limbs(
                self@ as int,
                other.lo as int,
                other.mid as int,
                other.hi as int,
            );
        }
        let by_lo = match self.checked_mul_u64(other.lo) {
            Some(p) => p,
            None => {
                return None;
            },
        };
        let by_mid = match self.checked_mul_u64(other.mid) {
            Some(p) => p,
            None => {
                return None;
            },
        };
        let by_mid_once = match by_mid.checked_shl64() {
            Some(p) => p,
            None => {
                return None;
            },
        };
        let by_hi = match self.checked_mul_u64(other.hi) {
            Some(p) => p,
            None => {
                return None;
            },
        };
        let by_hi_once = match by_hi.checked_shl64() {
            Some(p) => p,
            None => {
                return None;
            },
        };
        let by_hi_twice = match by_hi_once.checked_shl64() {
            Some(p) => p,
            None => {
                return None;
            },
        };
        let sum = match by_lo.checked_add(&by_mid_once) {
            Some(p) => p,
            None => {
                return None;
            },
        };
        sum.checked_add(&by_hi_twice)
    }

    /// The value doubled, plus the carry that comes in; the bit that leaves at
    /// the top is handed back.
    pub fn shl1(&self, carry_in: bool) -> (r: (bool, U192))
        ensures
            r.1@ + (if r.0 { modulus() } else { 0 }) == 2 * self@ + (if carry_in { 1nat } else { 0 }),
    {
        let half: u64 = 0x8000_0000_0000_0000u64;
        let cin: u64 = if carry_in { 1 } else { 0 };
        let lo: u64 = (self.lo % half) * 2 + cin;
        let mid: u64 = (self.mid % half) * 2 + self.lo / half;
        let hi: u64 = (self.hi % half) * 2 + self.mid / half;
        (self.hi / half == 1, U192 { lo, mid, hi })
    }

    /// Quotient and remainder, by binary long division.
    pub fn div_rem(&self, d: &U192) -> (r: (U192, U192))
        requires
            d@ > 0,
        ensures
            r.0@ == self@ / d@,
            r.1@ == self@ % d@,
    {
        let mut q = U192::zero();
        let mut rem = U192::zero();
        let mut m = *self;
        let mut k: u32 = 0;
        let ghost mut p: nat = modulus();
        let ghost mut h: nat = 0;
        let ghost mut l: nat = self@;
        proof {
            lemma_pow2_192();
            assert(m@ * p == l * modulus());
            assert(h == q@ * d@ + rem@) by (nonlinear_arith)
                requires
                    h == 0,
                    q@ == 0,
                    rem@ == 0,
            ;
            assert(self@ == h * p + l) by (nonlinear_arith)
                requires
                    h == 0,
                    l == self@,
            ;
        }
        while k < 192
            invariant
                k <= 192,
                d@ > 0,
                p == vstd::arithmetic::power2::pow2((192 - k) as nat),
                self@ == h * p + l,
                l < p,
                m@ * p == l * modulus(),
                h == q@ * d@ + rem@,
                rem@ < d@,
            decreases 192 - k,
        {
            let (c, m2) = m.shl1(false);
            let (c2, r2) = rem.shl1(c);
            let ge = c2 || d.le(&r2);
            let r3 = if ge {
                r2.wrapping_sub(d)
            } else {
                r2
            };
            proof {
                vstd::arithmetic::power2::lemma_pow2_unfold((192 - k) as nat);
                let half = vstd::arithmetic::power2::pow2((191 - k) as nat);
                let bit: int = if c { 1 } else { 0 };
                let qbit: int = if ge { 1 } else { 0 };
                lemma_long_division_step(
                    self@ as int,
                    d@ as int,
                    h as int,
                    l as int,
                    half as int,
                    m@ as int,
                    m2@ as int,
                    bit,
                    q@ as int,
                    rem@ as int,
                    r3@ as int,
                    qbit,
                );
                h = (2 * h + bit) as nat;
                l = (l - bit * half) as nat;
                p = half;
            }
            let (_c3, q2) = q.shl1(ge);
            q = q2;
            rem = r3;
            m = m2;
            k = k + 1;
        }
        proof {
            vstd::arithmetic::power2::lemma2_to64();
            assert(self@ == h) by (nonlinear_arith)
                requires
                    self@ == h * p + l,
                    l < p,
                    p == 1,
            ;
            assert(self@ == d@ * q@ + rem@) by (nonlinear_arith)
                requires
                    self@ == q@ * d@ + rem@,
            ;
            vstd::arithmetic::div_mod::lemma_fundamental_div_mod_converse(
                self@ as int,
                d@ as int,
                q@ as int,
                rem@ as int,
            );
        }
        (q, rem)
    }
}

/// 2^192 is the modulus.
pub proof fn lemma_pow2_192()
    ensures
        vstd::arithmetic::power2::pow2(192) == modulus(),
{
    vstd::arithmetic::power2::lemma2_to64();
    vstd::arithmetic::power2::lemma_pow2_adds(64, 64);
    vstd::arithmetic::power2::lemma_pow2_adds(128, 64);
}

/// A product by a three-limb number is the sum of the products by its limbs.
pub proof fn lemma_product_by_limbs(a: int, lo: int, mid: int, hi: int)
    requires
        0 <= a,
        0 <= lo,
        0 <= mid,
        0 <= hi,
    ensures
        a * (lo + mid * 0x1_0000_0000_0000_0000 + hi * 0x1_0000_0000_0000_0000_0000_0000_0000_0000int)
            == a * lo + (a * mid) * 0x1_0000_0000_0000_0000 + ((a * hi) * 0x1_0000_0000_0000_0000)
            * 0x1_0000_0000_0000_0000,
        0 <= a * lo,
        0 <= a * mid,
        0 <= a * hi,
{
    assert(a * (lo + mid * 0x1_0000_0000_0000_0000 + hi
        * 0x1_0000_0000_0000_0000_0000_0000_0000_0000int) == a * lo + (a * mid)
        * 0x1_0000_0000_0000_0000 + ((a * hi) * 0x1_0000_0000_0000_0000) * 0x1_0000_0000_0000_0000)
        by (nonlinear_arith);
    assert(0 <= a * lo && 0 <= a * mid && 0 <= a * hi) by (nonlinear_arith)
        requires
            0 <= a,
            0 <= lo,
            0 <= mid,
            0 <= hi,
    ;
}

/// One round of binary long division. Before it, `n == h * 2 * half + l`
/// with `h == q * d + rem`; the round moves the top bit of the low part into
/// `h` and keeps both equations.
pub proof fn lemma_long_division_step(
    n: int,
    d: int,
    h: int,
    l: int,
    half: int,
    m: int,
    m2: int,
    bit: int,
    q: int,
    rem: int,
    rem2: int,
    qbit: int,
)
    requires
        0 < d,
        0 < half,
        0 <= h,
        0 <= l < 2 * half,
        0 <= n < 0x1_0000_0000_0000_0000_0000_0000_0000_0000_0000_0000_0000_0000int,
        n == h * (2 * half) + l,
        0 <= m,
        0 <= m2 < 0x1_0000_0000_0000_0000_0000_0000_0000_0000_0000_0000_0000_0000int,
        m * (2 * half) == l * 0x1_0000_0000_0000_0000_0000_0000_0000_0000_0000_0000_0000_0000int,
        bit == 0 || bit == 1,
        m2 + bit * 0x1_0000_0000_0000_0000_0000_0000_0000_0000_0000_0000_0000_0000int == 2 * m,
        0 <= q,
        0 <= rem < d,
        h == q * d + rem,
        qbit == 0 || qbit == 1,
        qbit == 1 <==> 2 * rem + bit >= d,
        rem2 == 2 * rem + bit - qbit * d,
    ensures
        n == (2 * h + bit) * half + (l - bit * half),
        0 <= l - bit * half < half,
        m2 * half == (l - bit * half)
            * 0x1_0000_0000_0000_0000_0000_0000_0000_0000_0000_0000_0000_0000int,
        2 * h + bit == (2 * q + qbit) * d + rem2,
        0 <= rem2 < d,
        2 * q + qbit < 0x1_0000_0000_0000_0000_0000_0000_0000_0000_0000_0000_0000_0000int,
{
    let t: int = 0x1_0000_0000_0000_0000_0000_0000_0000_0000_0000_0000_0000_0000int;
    let l2 = l - bit * half;
    assert(n == (2 * h + bit) * half + l2) by (nonlinear_arith)
        requires
            n == h * (2 * half) + l,
            l2 == l - bit * half,
    ;
    assert(m2 * half == l2 * t) by (nonlinear_arith)
        requires
            m * (2 * half) == l * t,
            m2 + bit * t == 2 * m,
            l2 == l - bit * half,
    ;
    assert(0 <= l2 < half) by (nonlinear_arith)
        requires
            m2 * half == l2 * t,
            0 <= m2 < t,
            0 < half,
            t > 0,
    ;
    assert(2 * h + bit == (2 * q + qbit) * d + rem2) by (nonlinear_arith)
        requires
            h == q * d + rem,
            rem2 == 2 * rem + bit - qbit * d,
    ;
    assert(2 * q + qbit < t) by (nonlinear_arith)
        requires
            h == q * d + rem,
            0 <= rem,
            0 < d,
            0 <= q,
            n == h * (2 * half) + l,
            0 <= l,
            0 < half,
            0 <= h,
            n < t,
            qbit <= 1,
            t == 0x1_0000_0000_0000_0000_0000_0000_0000_0000_0000_0000_0000_0000int,
    ;
}

/// The product of two 64-bit limbs leaves room for a carry in 128 bits.
pub proof fn lemma_limb_product_bound(a: u64, m: u64)
    ensures
        0 <= (a as int) * (m as int) <= 0xFFFF_FFFF_FFFF_FFFE_0000_0000_0000_0001,
        (a as u128) * (m as u128) == (a as int) * (m as int),
{
    assert(0 <= (a as int) * (m as int) <= 0xFFFF_FFFF_FFFF_FFFF * 0xFFFF_FFFF_FFFF_FFFF)
        by (nonlinear_arith)
        requires
            0 <= a <= 0xFFFF_FFFF_FFFF_FFFF,
            0 <= m <= 0xFFFF_FFFF_FFFF_FFFF,
    ;
}

/// Scaling a three-limb number scales each limb.
pub proof fn lemma_scale_limbs(lo: int, mid: int, hi: int, m: int)
    ensures
        (lo + mid * 0x1_0000_0000_0000_0000 + hi * 0x1_0000_0000_0000_0000_0000_0000_0000_0000int) * m
            == lo * m + (mid * m) * 0x1_0000_0000_0000_0000 + (hi * m)
            * 0x1_0000_0000_0000_0000_0000_0000_0000_0000int,
{
    assert((lo + mid * 0x1_0000_0000_0000_0000 + hi * 0x1_0000_0000_0000_0000_0000_0000_0000_0000int)
        * m == lo * m + (mid * m) * 0x1_0000_0000_0000_0000 + (hi * m)
        * 0x1_0000_0000_0000_0000_0000_0000_0000_0000int) by (nonlinear_arith);
}

/// One step of schoolbook division by a single limb: a remainder below the
/// divisor, followed by one more limb, has a one-limb quotient.
pub proof fn lemma_short_division_step(rem: int, limb: int, d: int)
    requires
        0 <= rem < d,
        0 < d < 0x1_0000_0000_0000_0000,
        0 <= limb < 0x1_0000_0000_0000_0000,
    ensures
        0 <= rem * 0x1_0000_0000_0000_0000 + limb < 0x1_0000_0000_0000_0000_0000_0000_0000_0000int,
        0 <= (rem * 0x1_0000_0000_0000_0000 + limb) / d < 0x1_0000_0000_0000_0000,
        0 <= (rem * 0x1_0000_0000_0000_0000 + limb) % d < d,
        rem * 0x1_0000_0000_0000_0000 + limb == d * ((rem * 0x1_0000_0000_0000_0000 + limb) / d) + (
        rem * 0x1_0000_0000_0000_0000 + limb) % d,
{
    let t = rem * 0x1_0000_0000_0000_0000 + limb;
    assert(0 <= t < d * 0x1_0000_0000_0000_0000) by (nonlinear_arith)
        requires
            t == rem * 0x1_0000_0000_0000_0000 + limb,
            0 <= rem < d,
            0 <= limb < 0x1_0000_0000_0000_0000,
    ;
    assert(d * 0x1_0000_0000_0000_0000 <= 0x1_0000_0000_0000_0000_0000_0000_0000_0000int);
    vstd::arithmetic::div_mod::lemma_fundamental_div_mod(t, d);
    vstd::arithmetic::div_mod::lemma_mod_pos_bound(t, d);
    let q = t / d;
    assert(0 <= q < 0x1_0000_0000_0000_0000) by (nonlinear_arith)
        requires
            t == d * q + t % d,
            0 <= t % d < d,
            0 <= t < d * 0x1_0000_0000_0000_0000,
            0 < d,
    ;
}

/// The three steps of schoolbook division by a single limb add up to the
/// quotient and remainder of the whole number.
pub proof fn lemma_short_division_total(
    lo: int,
    mid: int,
    hi: int,
    d: int,
    q2: int,
    r2: int,
    q1: int,
    r1: int,
    q0: int,
    r0: int,
)
    requires
        0 < d,
        0 <= lo,
        0 <= mid,
        0 <= hi,
        q2 == hi / d,
        r2 == hi % d,
        q1 == (r2 * 0x1_0000_0000_0000_0000 + mid) / d,
        r1 == (r2 * 0x1_0000_0000_0000_0000 + mid) % d,
        q0 == (r1 * 0x1_0000_0000_0000_0000 + lo) / d,
        r0 == (r1 * 0x1_0000_0000_0000_0000 + lo) % d,
    ensures
        (lo + mid * 0x1_0000_0000_0000_0000 + hi * 0x1_0000_0000_0000_0000_0000_0000_0000_0000int) / d
            == q0 + q1 * 0x1_0000_0000_0000_0000 + q2
            * 0x1_0000_0000_0000_0000_0000_0000_0000_0000int,
        (lo + mid * 0x1_0000_0000_0000_0000 + hi * 0x1_0000_0000_0000_0000_0000_0000_0000_0000int) % d
            == r0,
{
    let b: int = 0x1_0000_0000_0000_0000;
    let n = lo + mid * b + hi * (b * b);
    let q = q0 + q1 * b + q2 * (b * b);
    vstd::arithmetic::div_mod::lemma_fundamental_div_mod(hi, d);
    vstd::arithmetic::div_mod::lemma_fundamental_div_mod(r2 * b + mid, d);
    vstd::arithmetic::div_mod::lemma_fundamental_div_mod(r1 * b + lo, d);
    vstd::arithmetic::div_mod::lemma_mod_pos_bound(r1 * b + lo, d);
    assert(n == q * d + r0) by (nonlinear_arith)
        requires
            n == lo + mid * b + hi * (b * b),
            q == q0 + q1 * b + q2 * (b * b),
            hi == d * q2 + r2,
            r2 * b + mid == d * q1 + r1,
            r1 * b + lo == d * q0 + r0,
    ;
    vstd::arithmetic::div_mod::lemma_fundamental_div_mod_converse(n, d, q, r0);
}

} // verus!
