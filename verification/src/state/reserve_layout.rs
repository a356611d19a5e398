//! The account layout of a reserve.

use crate::instruction::{
    push_reserve_config, read_reserve_config, reserve_config_bytes, RESERVE_CONFIG_LEN,
};
use crate::packing::{
    decimal_le, lemma_decimal_le_round_trip, lemma_le_decimal_round_trip, lemma_le_u64_round_trip,
    lemma_u64_le_round_trip, overwritten, push_bytes, push_decimal, push_u64_le, read_array,
    read_decimal, read_u64_le, u64_le, write_bytes,
};
use crate::pubkey::Pubkey;
use crate::smart_pack::PackError;
use crate::state::last_update::LastUpdate;
use crate::state::rate_limiter::{lemma_unpack_pack, RateLimiter, RATE_LIMITER_LEN};
use crate::state::reserve::{Reserve, ReserveCollateral, ReserveConfig, ReserveLiquidity};
use crate::state::{PROGRAM_VERSION, UNINITIALIZED_VERSION};
use vstd::prelude::*;

verus! {

/// Size of a packed reserve: 360 bytes of fields, then padding.
pub const RESERVE_LEN: usize = 619;

/// Size of the fields of a packed reserve.
pub const RESERVE_FIELDS_LEN: usize = 360;

impl Reserve {
    /// Whether the reserve can be packed: its decimals fit in 128 bits.
    pub open spec fn packable(self) -> bool {
        &&& self.liquidity.borrowed_amount_wads@ <= u128::MAX
        &&& self.liquidity.cumulative_borrow_rate_wads@ <= u128::MAX
        &&& self.liquidity.accumulated_protocol_fees_wads@ <= u128::MAX
        &&& self.liquidity.market_price@ <= u128::MAX
        &&& self.liquidity.smoothed_market_price@ <= u128::MAX
        &&& self.rate_limiter.packable()
    }

    /// The bytes of the marker, the market and the liquidity side.
    pub open spec fn packed_head(self) -> Seq<u8> {
        seq![self.version] + u64_le(self.last_update.slot) + seq![
            if self.last_update.stale {
                1u8
            } else {
                0u8
            },
        ] + self.lending_market@ + self.liquidity.mint_pubkey@ + seq![
            self.liquidity.mint_decimals,
        ] + u64_le(self.liquidity.available_amount) + decimal_le(
            self.liquidity.borrowed_amount_wads,
        ) + decimal_le(self.liquidity.cumulative_borrow_rate_wads) + decimal_le(
            self.liquidity.accumulated_protocol_fees_wads,
        ) + decimal_le(self.liquidity.market_price) + decimal_le(
            self.liquidity.smoothed_market_price,
        )
    }

    /// The bytes of the fields, in the order of the layout: version, last
    /// update, market, liquidity, collateral, terms and rate limiter.
    pub open spec fn packed_fields(self) -> Seq<u8>
        recommends
            self.packable(),
    {
        self.packed_head() + self.collateral.mint_pubkey@ + u64_le(
            self.collateral.mint_total_supply,
        ) + reserve_config_bytes(self.config) + self.rate_limiter.packed()
    }

    /// Whether the reserve was initialized.
    pub fn is_initialized(&self) -> (r: bool)
        ensures
            r == (self.version != UNINITIALIZED_VERSION),
    {
        self.version != UNINITIALIZED_VERSION
    }

    /// Writes the fields over the first 360 bytes of `dst`; the padding
    /// after them is left as it is.
    pub fn pack_into_slice(&self, dst: &mut Vec<u8>)
        requires
            self.packable(),
            old(dst)@.len() >= RESERVE_LEN,
        ensures
            final(dst)@ == overwritten(old(dst)@, 0, self.packed_fields()),
            final(dst)@.len() == old(dst)@.len(),
            self.packed_fields().len() == RESERVE_FIELDS_LEN,
    {
        let mut buf: Vec<u8> = Vec::new();
        buf.push(self.version);
        assert(buf@ == seq![self.version]) by {
            assert(buf@ =~= seq![self.version]);
        }
        push_u64_le(&mut buf, self.last_update.slot);
        let flag: u8 = if self.last_update.stale {
            1u8
        } else {
            0u8
        };
        push_bytes(&mut buf, [flag].as_slice());
        assert([flag]@ == seq![flag]) by {
            assert([flag]@ =~= seq![flag]);
        }
        push_bytes(&mut buf, self.lending_market.0.as_slice());
        push_bytes(&mut buf, self.liquidity.mint_pubkey.0.as_slice());
        let decimals = self.liquidity.mint_decimals;
        push_bytes(&mut buf, [decimals].as_slice());
        assert([decimals]@ == seq![decimals]) by {
            assert([decimals]@ =~= seq![decimals]);
        }
        push_u64_le(&mut buf, self.liquidity.available_amount);
        push_decimal(&mut buf, self.liquidity.borrowed_amount_wads);
        push_decimal(&mut buf, self.liquidity.cumulative_borrow_rate_wads);
        push_decimal(&mut buf, self.liquidity.accumulated_protocol_fees_wads);
        push_decimal(&mut buf, self.liquidity.market_price);
        push_decimal(&mut buf, self.liquidity.smoothed_market_price);
        assert(buf@ == self.packed_head());
        push_bytes(&mut buf, self.collateral.mint_pubkey.0.as_slice());
        push_u64_le(&mut buf, self.collateral.mint_total_supply);
        push_reserve_config(&mut buf, &self.config);
        let limiter = self.rate_limiter.to_bytes();
        push_bytes(&mut buf, limiter.as_slice());
        assert(buf@ == self.packed_fields());
        proof {
            lemma_packed_fields_len(*self);
        }
        write_bytes(dst, 0, buf.as_slice());
    }

    /// Reads a reserve from the first 360 bytes of `src`.
    /// `InvalidAccountData` where the version is later than this program's
    /// or the staleness flag is neither 0 nor 1.
    pub fn unpack_from_slice(src: &[u8]) -> (r: Result<Self, PackError>)
        requires
            src@.len() >= RESERVE_LEN,
        ensures
            r is Ok <==> src@[0] <= PROGRAM_VERSION && src@[9] <= 1,
            r is Ok ==> r->Ok_0.packable() && r->Ok_0.packed_fields() == src@.subrange(
                0,
                RESERVE_FIELDS_LEN as int,
            ),
            r is Err ==> r->Err_0 == PackError::InvalidAccountData,
    {
        let version = src[0];
        if version > PROGRAM_VERSION {
            return Err(PackError::InvalidAccountData);
        }
        let stale = if src[9] == 0 {
            false
        } else if src[9] == 1 {
            true
        } else {
            return Err(PackError::InvalidAccountData);
        };
        let rate_limiter = match RateLimiter::unpack_from_slice(
            vstd::slice::slice_subrange(src, 288, 360),
        ) {
            Ok(v) => v,
            Err(_) => {
                return Err(PackError::InvalidAccountData);
            },
        };
        let reserve = Reserve {
            version,
            last_update: LastUpdate { slot: read_u64_le(src, 1), stale },
            lending_market: Pubkey::new_from_array(read_array::<32>(src, 10)),
            liquidity: ReserveLiquidity {
                mint_pubkey: Pubkey::new_from_array(read_array::<32>(src, 42)),
                mint_decimals: src[74],
                available_amount: read_u64_le(src, 75),
                borrowed_amount_wads: read_decimal(src, 83),
                cumulative_borrow_rate_wads: read_decimal(src, 99),
                accumulated_protocol_fees_wads: read_decimal(src, 115),
                market_price: read_decimal(src, 131),
                smoothed_market_price: read_decimal(src, 147),
            },
            collateral: ReserveCollateral {
                mint_pubkey: Pubkey::new_from_array(read_array::<32>(src, 163)),
                mint_total_supply: read_u64_le(src, 195),
            },
            config: read_reserve_config(src, 203),
            rate_limiter,
        };
        proof {
            lemma_le_u64_round_trip(src@.subrange(1, 9));
            lemma_le_u64_round_trip(src@.subrange(75, 83));
            lemma_le_decimal_round_trip(src@.subrange(83, 99));
            lemma_le_decimal_round_trip(src@.subrange(99, 115));
            lemma_le_decimal_round_trip(src@.subrange(115, 131));
            lemma_le_decimal_round_trip(src@.subrange(131, 147));
            lemma_le_decimal_round_trip(src@.subrange(147, 163));
            lemma_le_u64_round_trip(src@.subrange(195, 203));
            lemma_unpack_pack(src@.subrange(288, 360));
            assert(src@.subrange(288, 360).subrange(0, RATE_LIMITER_LEN as int) == src@.subrange(
                288,
                360,
            )) by {
                assert(src@.subrange(288, 360).subrange(0, RATE_LIMITER_LEN as int)
                    =~= src@.subrange(288, 360));
            }
            lemma_fields_from_runs(reserve, src@);
        }
        Ok(reserve)
    }

    /// Reads an initialized reserve from a buffer of exactly the packed
    /// length; `UninitializedAccount` where the version byte is zero,
    /// `InvalidAccountData` for another length, a later version or a bad
    /// staleness flag.
    pub fn unpack(input: &[u8]) -> (r: Result<Self, PackError>)
        ensures
            r is Ok <==> input@.len() == RESERVE_LEN && 0 < input@[0] <= PROGRAM_VERSION
                && input@[9] <= 1,
            r is Ok ==> r->Ok_0.packable() && r->Ok_0.packed_fields() == input@.subrange(
                0,
                RESERVE_FIELDS_LEN as int,
            ),
            r is Err ==> r->Err_0 == (if input@.len() == RESERVE_LEN && input@[0] == 0
                && input@[9] <= 1 {
                PackError::UninitializedAccount
            } else {
                PackError::InvalidAccountData
            }),
    {
        if input.len() != RESERVE_LEN {
            return Err(PackError::InvalidAccountData);
        }
        let value = match Self::unpack_from_slice(input) {
            Ok(v) => v,
            Err(e) => {
                return Err(e);
            },
        };
        assert(value.packed_fields()[0] == value.version);
        if value.is_initialized() {
            Ok(value)
        } else {
            Err(PackError::UninitializedAccount)
        }
    }

    /// Writes `src` into a buffer of exactly the packed length;
    /// `InvalidAccountData` for another length, and the buffer is then left
    /// as it is.
    pub fn pack(src: Self, dst: &mut Vec<u8>) -> (r: Result<(), PackError>)
        requires
            src.packable(),
        ensures
            r is Ok <==> old(dst)@.len() == RESERVE_LEN,
            r is Ok ==> final(dst)@ == overwritten(old(dst)@, 0, src.packed_fields()),
            r is Err ==> r->Err_0 == PackError::InvalidAccountData && final(dst)@ == old(dst)@,
    {
        if dst.len() != RESERVE_LEN {
            return Err(PackError::InvalidAccountData);
        }
        src.pack_into_slice(dst);
        Ok(())
    }
}


/// The fields of a reserve take 360 bytes.
pub proof fn lemma_packed_fields_len(reserve: Reserve)
    requires
        reserve.packable(),
    ensures
        reserve.packed_fields().len() == RESERVE_FIELDS_LEN,
{
    lemma_decimal_le_round_trip(reserve.liquidity.borrowed_amount_wads);
    lemma_decimal_le_round_trip(reserve.liquidity.cumulative_borrow_rate_wads);
    lemma_decimal_le_round_trip(reserve.liquidity.accumulated_protocol_fees_wads);
    lemma_decimal_le_round_trip(reserve.liquidity.market_price);
    lemma_decimal_le_round_trip(reserve.liquidity.smoothed_market_price);
    lemma_u64_le_round_trip(reserve.last_update.slot);
    lemma_u64_le_round_trip(reserve.liquidity.available_amount);
    lemma_u64_le_round_trip(reserve.collateral.mint_total_supply);
    crate::instruction::lemma_reserve_config_len(reserve.config);
    crate::state::rate_limiter::lemma_pack_unpack(reserve.rate_limiter, Seq::empty());
}

/// A reserve each of whose fields packs to its run of `src` packs to the
/// first 360 bytes of `src`.
pub proof fn lemma_fields_from_runs(reserve: Reserve, src: Seq<u8>)
    requires
        src.len() >= RESERVE_FIELDS_LEN,
        reserve.version == src[0],
        u64_le(reserve.last_update.slot) == src.subrange(1, 9),
        src[9] == (if reserve.last_update.stale {
            1u8
        } else {
            0u8
        }),
        reserve.lending_market@ == src.subrange(10, 42),
        reserve.liquidity.mint_pubkey@ == src.subrange(42, 74),
        reserve.liquidity.mint_decimals == src[74],
        u64_le(reserve.liquidity.available_amount) == src.subrange(75, 83),
        decimal_le(reserve.liquidity.borrowed_amount_wads) == src.subrange(83, 99),
        decimal_le(reserve.liquidity.cumulative_borrow_rate_wads) == src.subrange(99, 115),
        decimal_le(reserve.liquidity.accumulated_protocol_fees_wads) == src.subrange(115, 131),
        decimal_le(reserve.liquidity.market_price) == src.subrange(131, 147),
        decimal_le(reserve.liquidity.smoothed_market_price) == src.subrange(147, 163),
        reserve.collateral.mint_pubkey@ == src.subrange(163, 195),
        u64_le(reserve.collateral.mint_total_supply) == src.subrange(195, 203),
        reserve_config_bytes(reserve.config) == src.subrange(203, 288),
        reserve.rate_limiter.packed() == src.subrange(288, 360),
    ensures
        reserve.packed_fields() == src.subrange(0, RESERVE_FIELDS_LEN as int),
{
    crate::packing::lemma_subrange_one(src, 0);
    crate::packing::lemma_subrange_one(src, 9);
    crate::packing::lemma_subrange_one(src, 74);
    crate::packing::lemma_subrange_join(src, 0, 1, 9);
    crate::packing::lemma_subrange_join(src, 0, 9, 10);
    crate::packing::lemma_subrange_join(src, 0, 10, 42);
    crate::packing::lemma_subrange_join(src, 0, 42, 74);
    crate::packing::lemma_subrange_join(src, 0, 74, 75);
    crate::packing::lemma_subrange_join(src, 0, 75, 83);
    crate::packing::lemma_subrange_join(src, 0, 83, 99);
    crate::packing::lemma_subrange_join(src, 0, 99, 115);
    crate::packing::lemma_subrange_join(src, 0, 115, 131);
    crate::packing::lemma_subrange_join(src, 0, 131, 147);
    crate::packing::lemma_subrange_join(src, 0, 147, 163);
    assert(reserve.packed_head() == src.subrange(0, 163));
    crate::packing::lemma_subrange_join(src, 0, 163, 195);
    crate::packing::lemma_subrange_join(src, 0, 195, 203);
    crate::packing::lemma_subrange_join(src, 0, 203, 288);
    crate::packing::lemma_subrange_join(src, 0, 288, 360);
}

} // verus!
