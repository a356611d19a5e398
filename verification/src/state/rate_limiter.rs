//! Sliding-window limit on the outflow from a reserve.

use crate::error::LendingError;
use crate::math::decimal::{scaled, Decimal, WAD};
use crate::packing::{
    decimal_le, le_decimal, le_u64, lemma_decimal_le_round_trip, lemma_le_decimal_round_trip,
    lemma_le_u64_round_trip, lemma_u64_le_round_trip, overwritten, push_decimal, push_u64_le,
    read_decimal, read_u64_le, u64_le, write_bytes,
};
use vstd::prelude::*;
use vstd::std_specs::convert::FromSpec;

verus! {

broadcast use crate::math::decimal::lemma_scaled_view;

/// Size of a packed rate limiter.
pub const RATE_LIMITER_LEN: usize = 72;

/// The outflow counted in one window.
#[derive(Clone, Copy, Debug, PartialEq, Eq, Structural)]
pub struct Window {
    /// First slot of the window.
    pub slot_start: u64,
    /// Outflow counted so far.
    pub qty: Decimal,
}

/// Sliding-window rate limiter over two adjoining windows: the outflow that
/// counts at a slot is the current window's, plus the previous window's in
/// the proportion of it that the sliding window still covers.
#[derive(Clone, Copy, Debug, PartialEq, Eq, Structural)]
pub struct RateLimiter {
    /// Window duration in slots.
    pub window_duration: u64,
    /// Largest outflow per window.
    pub max_outflow: Decimal,
    /// The window before the current one.
    pub prev_window: Window,
    /// The window that holds the latest slot seen.
    pub cur_window: Window,
}

impl RateLimiter {
    /// The first slot of the window that holds `cur_slot`.
    pub open spec fn window_start(window_duration: u64, cur_slot: u64) -> u64
        recommends
            window_duration > 0,
    {
        ((cur_slot as nat) / (window_duration as nat) * (window_duration as nat)) as u64
    }

    /// A limiter whose windows can be advanced: the duration is not zero and
    /// the current window does not start at slot zero.
    pub open spec fn well_formed(self) -> bool {
        self.window_duration > 0 && self.cur_window.slot_start >= 1
    }

    /// The limiter that `new` makes.
    pub open spec fn new_spec(window_duration: u64, max_outflow: Decimal, cur_slot: u64) -> Self {
        let slot_start = Self::window_start(window_duration, cur_slot);
        RateLimiter {
            window_duration,
            max_outflow,
            prev_window: Window { slot_start: (slot_start - 1) as u64, qty: scaled(0) },
            cur_window: Window { slot_start, qty: scaled(0) },
        }
    }

    /// The limiter with its windows moved on to hold `cur_slot`: unchanged
    /// while `cur_slot` lies before the end of the current window; the current
    /// window becomes the previous one where `cur_slot` lies in the window
    /// after it; both start empty where `cur_slot` lies further on.
    pub open spec fn advanced(self, cur_slot: u64) -> Self {
        let slot_start = Self::window_start(self.window_duration, cur_slot);
        let next_start = self.cur_window.slot_start + self.window_duration;
        if slot_start < next_start {
            self
        } else if slot_start == next_start {
            RateLimiter {
                prev_window: self.cur_window,
                cur_window: Window { slot_start, qty: scaled(0) },
                ..self
            }
        } else {
            RateLimiter {
                prev_window: Window {
                    slot_start: (self.cur_window.slot_start - 1) as u64,
                    qty: scaled(0),
                },
                cur_window: Window { slot_start, qty: scaled(0) },
                ..self
            }
        }
    }

    /// The share of the previous window that still counts at `cur_slot`: one
    /// minus the part of the current window that has passed.
    pub open spec fn prev_weight(self, cur_slot: u64) -> Result<Decimal, LendingError> {
        let passed = Decimal::from_spec((cur_slot - self.cur_window.slot_start + 1) as u64);
        match passed.try_div_u64_spec(self.window_duration) {
            Ok(part) => scaled(WAD as nat).try_sub_spec(part),
            Err(e) => Err(e),
        }
    }

    /// The outflow that counts at `cur_slot`, the windows holding that slot.
    pub open spec fn current_outflow(self, cur_slot: u64) -> Result<Decimal, LendingError> {
        match self.prev_weight(cur_slot) {
            Ok(weight) => match weight.try_mul_spec(self.prev_window.qty) {
                Ok(prev) => prev.try_add_spec(self.cur_window.qty),
                Err(e) => Err(e),
            },
            Err(e) => Err(e),
        }
    }

    /// The limiter after `update`, and what `update` returns. The windows are
    /// advanced whatever the outcome; `qty` is counted only where the outflow
    /// stays within the limit.
    pub open spec fn update_spec(self, cur_slot: u64, qty: Decimal) -> (
        Self,
        Result<(), LendingError>,
    ) {
        let moved = self.advanced(cur_slot);
        match moved.current_outflow(cur_slot) {
            Err(e) => (moved, Err(e)),
            Ok(outflow) => match outflow.try_add_spec(qty) {
                Err(e) => (moved, Err(e)),
                Ok(total) => if total@ > moved.max_outflow@ {
                    (moved, Err(LendingError::OutflowRateLimitExceeded))
                } else {
                    match moved.cur_window.qty.try_add_spec(qty) {
                        Err(e) => (moved, Err(e)),
                        Ok(counted) => (
                            RateLimiter {
                                cur_window: Window {
                                    slot_start: moved.cur_window.slot_start,
                                    qty: counted,
                                },
                                ..moved
                            },
                            Ok(()),
                        ),
                    }
                },
            },
        }
    }

    /// A limiter with empty windows, the current one holding `cur_slot`.
    pub fn new(window_duration: u64, max_outflow: Decimal, cur_slot: u64) -> (r: Self)
        requires
            window_duration > 0,
            cur_slot >= window_duration,
        ensures
            r == Self::new_spec(window_duration, max_outflow, cur_slot),
            r.well_formed(),
    {
        proof {
            lemma_window_start(window_duration, cur_slot);
        }
        let slot_start: u64 = cur_slot / window_duration * window_duration;
        RateLimiter {
            max_outflow,
            window_duration,
            prev_window: Window { slot_start: slot_start - 1, qty: Decimal::zero() },
            cur_window: Window { slot_start, qty: Decimal::zero() },
        }
    }

    /// Counts the outflow `qty` at `cur_slot`, or refuses it with
    /// `OutflowRateLimitExceeded` where the outflow that counts at that slot
    /// would exceed the limit. Slots must not go back before the current
    /// window.
    pub fn update(&mut self, cur_slot: u64, qty: Decimal) -> (r: Result<(), LendingError>)
        requires
            old(self).well_formed(),
            cur_slot >= old(self).cur_window.slot_start,
            old(self).cur_window.slot_start + old(self).window_duration <= u64::MAX,
        ensures
            (*final(self), r) == old(self).update_spec(cur_slot, qty),
            final(self).well_formed(),
            final(self).window_duration == old(self).window_duration,
            final(self).max_outflow == old(self).max_outflow,
            final(self).cur_window.slot_start <= cur_slot,
            r is Ok ==> final(self).cur_window.qty@ <= final(self).max_outflow@,
    {
        proof {
            lemma_window_start(self.window_duration, cur_slot);
        }
        let slot_start: u64 = cur_slot / self.window_duration * self.window_duration;
        let next_start: u64 = self.cur_window.slot_start + self.window_duration;
        if slot_start < next_start {
        } else if slot_start == next_start {
            self.prev_window = self.cur_window;
            self.cur_window = Window { slot_start, qty: Decimal::zero() };
        } else {
            self.prev_window =
            Window { slot_start: self.cur_window.slot_start - 1, qty: Decimal::zero() };
            self.cur_window = Window { slot_start, qty: Decimal::zero() };
        }
        assert(*self == old(self).advanced(cur_slot));

        let passed = Decimal::from(cur_slot - self.cur_window.slot_start + 1);
        let part = match passed.try_div_u64(self.window_duration) {
            Ok(v) => v,
            Err(e) => {
                return Err(e);
            },
        };
        let prev_weight = match Decimal::one().try_sub(part) {
            Ok(v) => v,
            Err(e) => {
                return Err(e);
            },
        };
        let prev_part = match prev_weight.try_mul(self.prev_window.qty) {
            Ok(v) => v,
            Err(e) => {
                return Err(e);
            },
        };
        let cur_outflow = match prev_part.try_add(self.cur_window.qty) {
            Ok(v) => v,
            Err(e) => {
                return Err(e);
            },
        };
        let total = match cur_outflow.try_add(qty) {
            Ok(v) => v,
            Err(e) => {
                return Err(e);
            },
        };
        if total.gt(&self.max_outflow) {
            Err(LendingError::OutflowRateLimitExceeded)
        } else {
            match self.cur_window.qty.try_add(qty) {
                Ok(counted) => {
                    self.cur_window.qty = counted;
                    Ok(())
                },
                Err(e) => Err(e),
            }
        }
    }

    /// Whether `update` can run at `cur_slot`: the limiter is well formed,
    /// the slot does not lie before the current window, and the end of the
    /// current window is a slot number.
    pub open spec fn accepts_slot(self, cur_slot: u64) -> bool {
        &&& self.well_formed()
        &&& cur_slot >= self.cur_window.slot_start
        &&& self.cur_window.slot_start + self.window_duration <= u64::MAX
    }

    /// As `update_spec` where `update` can run; else the limiter unchanged
    /// and `MathOverflow`.
    pub open spec fn try_update_spec(self, cur_slot: u64, qty: Decimal) -> (
        Self,
        Result<(), LendingError>,
    ) {
        if self.accepts_slot(cur_slot) {
            self.update_spec(cur_slot, qty)
        } else {
            (self, Err(LendingError::MathOverflow))
        }
    }

    /// `update` for any limiter and slot: where the limiter is not well
    /// formed, the slot lies before the current window or the end of the
    /// current window is no slot number, nothing changes and the result is
    /// `MathOverflow`.
    pub fn try_update(&mut self, cur_slot: u64, qty: Decimal) -> (r: Result<(), LendingError>)
        ensures
            (*final(self), r) == old(self).try_update_spec(cur_slot, qty),
    {
        if self.window_duration > 0 && self.cur_window.slot_start >= 1 && cur_slot
            >= self.cur_window.slot_start && self.cur_window.slot_start <= u64::MAX
            - self.window_duration {
            self.update(cur_slot, qty)
        } else {
            Err(LendingError::MathOverflow)
        }
    }

    /// Always true: a rate limiter carries no version.
    pub fn is_initialized(&self) -> (r: bool)
        ensures
            r,
    {
        true
    }

    /// Whether the limiter can be packed: its decimals fit in 128 bits.
    pub open spec fn packable(self) -> bool {
        &&& self.max_outflow@ <= u128::MAX
        &&& self.prev_window.qty@ <= u128::MAX
        &&& self.cur_window.qty@ <= u128::MAX
    }

    /// The packed form: the limit, the window duration, then start and
    /// outflow of the previous and of the current window.
    pub open spec fn packed(self) -> Seq<u8>
        recommends
            self.packable(),
    {
        decimal_le(self.max_outflow) + u64_le(self.window_duration) + u64_le(
            self.prev_window.slot_start,
        ) + decimal_le(self.prev_window.qty) + u64_le(self.cur_window.slot_start) + decimal_le(
            self.cur_window.qty,
        )
    }

    /// The limiter that the first 72 bytes of `src` hold.
    pub open spec fn unpacked(src: Seq<u8>) -> Self
        recommends
            src.len() >= RATE_LIMITER_LEN,
    {
        RateLimiter {
            max_outflow: le_decimal(src.subrange(0, 16)),
            window_duration: le_u64(src.subrange(16, 24)),
            prev_window: Window {
                slot_start: le_u64(src.subrange(24, 32)),
                qty: le_decimal(src.subrange(32, 48)),
            },
            cur_window: Window {
                slot_start: le_u64(src.subrange(48, 56)),
                qty: le_decimal(src.subrange(56, 72)),
            },
        }
    }

    /// The packed form.
    pub fn to_bytes(&self) -> (r: Vec<u8>)
        requires
            self.packable(),
        ensures
            r@ == self.packed(),
            r@.len() == RATE_LIMITER_LEN,
    {
        let mut buf: Vec<u8> = Vec::new();
        push_decimal(&mut buf, self.max_outflow);
        push_u64_le(&mut buf, self.window_duration);
        push_u64_le(&mut buf, self.prev_window.slot_start);
        push_decimal(&mut buf, self.prev_window.qty);
        push_u64_le(&mut buf, self.cur_window.slot_start);
        push_decimal(&mut buf, self.cur_window.qty);
        assert(buf@ =~= self.packed());
        buf
    }

    /// Writes the packed form over the first 72 bytes of `dst`.
    pub fn pack_into_slice(&self, dst: &mut Vec<u8>)
        requires
            self.packable(),
            old(dst)@.len() >= RATE_LIMITER_LEN,
        ensures
            final(dst)@ == overwritten(old(dst)@, 0, self.packed()),
            final(dst)@.len() == old(dst)@.len(),
            self.packed().len() == RATE_LIMITER_LEN,
    {
        let buf = self.to_bytes();
        write_bytes(dst, 0, buf.as_slice());
    }

    /// Reads a limiter from the first 72 bytes of `src`.
    pub fn unpack_from_slice(src: &[u8]) -> (r: Result<Self, LendingError>)
        requires
            src@.len() >= RATE_LIMITER_LEN,
        ensures
            r == Ok::<Self, LendingError>(Self::unpacked(src@)),
    {
        Ok(
            RateLimiter {
                max_outflow: read_decimal(src, 0),
                window_duration: read_u64_le(src, 16),
                prev_window: Window {
                    slot_start: read_u64_le(src, 24),
                    qty: read_decimal(src, 32),
                },
                cur_window: Window {
                    slot_start: read_u64_le(src, 48),
                    qty: read_decimal(src, 56),
                },
            },
        )
    }
}

impl Default for RateLimiter {
    /// A limiter that refuses nothing a `u64` can count: one-slot windows and
    /// a limit of `u64::MAX`.
    fn default() -> (r: Self)
        ensures
            r == RateLimiter::new_spec(1, Decimal::from_spec(u64::MAX), 1),
            r.well_formed(),
    {
        RateLimiter::new(1, Decimal::from(u64::MAX), 1)
    }
}

/// The start of the window that holds a slot is a multiple of the duration,
/// at most the slot and less than one duration before it.
pub proof fn lemma_window_start(window_duration: u64, cur_slot: u64)
    requires
        window_duration > 0,
    ensures
        (cur_slot as nat) / (window_duration as nat) * (window_duration as nat) <= cur_slot,
        cur_slot - (cur_slot as nat) / (window_duration as nat) * (window_duration as nat)
            < window_duration,
        cur_slot >= window_duration ==> (cur_slot as nat) / (window_duration as nat) * (
        window_duration as nat) >= window_duration,
        (cur_slot / window_duration) * window_duration == (cur_slot as nat) / (
        window_duration as nat) * (window_duration as nat),
{
    let c = cur_slot as int;
    let w = window_duration as int;
    vstd::arithmetic::div_mod::lemma_fundamental_div_mod(c, w);
    vstd::arithmetic::div_mod::lemma_mod_pos_bound(c, w);
    assert((c / w) * w == w * (c / w)) by (nonlinear_arith);
    assert(c >= w ==> (c / w) * w >= w) by (nonlinear_arith)
        requires
            c == w * (c / w) + c % w,
            0 <= c % w < w,
            0 < w,
    ;
}

/// Neither window ever counts more than the limit: where both windows are
/// within the limit before `update`, both are within it afterwards, whether
/// the outflow was counted or refused. So the outflow over any stretch of
/// one window's length stays below twice the limit.
pub proof fn lemma_update_keeps_windows_within_limit(
    limiter: RateLimiter,
    cur_slot: u64,
    qty: Decimal,
)
    requires
        limiter.prev_window.qty@ <= limiter.max_outflow@,
        limiter.cur_window.qty@ <= limiter.max_outflow@,
    ensures
        limiter.update_spec(cur_slot, qty).0.prev_window.qty@ <= limiter.max_outflow@,
        limiter.update_spec(cur_slot, qty).0.cur_window.qty@ <= limiter.max_outflow@,
        limiter.update_spec(cur_slot, qty).0.max_outflow == limiter.max_outflow,
        limiter.update_spec(cur_slot, qty).0.window_duration == limiter.window_duration,
{
}

/// What was packed is read back unchanged.
pub proof fn lemma_pack_unpack(limiter: RateLimiter, tail: Seq<u8>)
    requires
        limiter.packable(),
    ensures
        limiter.packed().len() == RATE_LIMITER_LEN,
        RateLimiter::unpacked(limiter.packed() + tail) == limiter,
{
    let s = limiter.packed() + tail;
    lemma_decimal_le_round_trip(limiter.max_outflow);
    lemma_decimal_le_round_trip(limiter.prev_window.qty);
    lemma_decimal_le_round_trip(limiter.cur_window.qty);
    lemma_u64_le_round_trip(limiter.window_duration);
    lemma_u64_le_round_trip(limiter.prev_window.slot_start);
    lemma_u64_le_round_trip(limiter.cur_window.slot_start);
    assert(s.subrange(0, 16) =~= decimal_le(limiter.max_outflow));
    assert(s.subrange(16, 24) =~= u64_le(limiter.window_duration));
    assert(s.subrange(24, 32) =~= u64_le(limiter.prev_window.slot_start));
    assert(s.subrange(32, 48) =~= decimal_le(limiter.prev_window.qty));
    assert(s.subrange(48, 56) =~= u64_le(limiter.cur_window.slot_start));
    assert(s.subrange(56, 72) =~= decimal_le(limiter.cur_window.qty));
}

/// What was read packs to the bytes it was read from.
pub proof fn lemma_unpack_pack(src: Seq<u8>)
    requires
        src.len() >= RATE_LIMITER_LEN,
    ensures
        RateLimiter::unpacked(src).packable(),
        RateLimiter::unpacked(src).packed() == src.subrange(0, RATE_LIMITER_LEN as int),
{
    lemma_le_decimal_round_trip(src.subrange(0, 16));
    lemma_le_u64_round_trip(src.subrange(16, 24));
    lemma_le_u64_round_trip(src.subrange(24, 32));
    lemma_le_decimal_round_trip(src.subrange(32, 48));
    lemma_le_u64_round_trip(src.subrange(48, 56));
    lemma_le_decimal_round_trip(src.subrange(56, 72));
    assert(RateLimiter::unpacked(src).packed() =~= src.subrange(0, RATE_LIMITER_LEN as int));
}

} // verus!
