//! The fixed layout of a lending market.

use crate::packing::{lemma_array_ext, overwritten, push_bytes, read_array, write_bytes};
use crate::pubkey::{lemma_pubkey_ext, Pubkey};
use crate::smart_pack::PackError;
use crate::state::lending_market::LendingMarket;
use crate::state::{PROGRAM_VERSION, UNINITIALIZED_VERSION};
use vstd::prelude::*;

verus! {

/// Size of a packed lending market: 162 bytes of fields and 128 of padding.
pub const LENDING_MARKET_LEN: usize = 290;

/// Lending market state
#[derive(Clone, Copy, Debug, Default, PartialEq, Eq)]
pub struct LendingMarketV1 {
    /// Version of lending market
    pub version: u8,
    /// Bump seed for derived authority address
    pub bump_seed: u8,
    /// Owner authority which can add new reserves
    pub owner: Pubkey,
    /// Currency market prices are quoted in, as a null padded name or the
    /// address of a token mint
    pub quote_currency: [u8; 32],
    /// Token program id
    pub token_program_id: Pubkey,
    /// Oracle (Pyth) program id
    pub oracle_program_id: Pubkey,
    /// Oracle (Switchboard) program id
    pub switchboard_oracle_program_id: Pubkey,
}

impl LendingMarketV1 {
    /// The bytes of the fields, in the order of the layout.
    pub open spec fn packed_fields(self) -> Seq<u8> {
        seq![self.version, self.bump_seed] + self.owner@ + self.quote_currency@
            + self.token_program_id@ + self.oracle_program_id@
            + self.switchboard_oracle_program_id@
    }

    /// Whether the market was initialized.
    pub fn is_initialized(&self) -> (r: bool)
        ensures
            r == (self.version != UNINITIALIZED_VERSION),
    {
        self.version != UNINITIALIZED_VERSION
    }

    /// Writes the fields over the first 162 bytes of `dst`; the padding
    /// after them is left as it is.
    pub fn pack_into_slice(&self, dst: &mut Vec<u8>)
        requires
            old(dst)@.len() >= LENDING_MARKET_LEN,
        ensures
            final(dst)@ == overwritten(old(dst)@, 0, self.packed_fields()),
            final(dst)@.len() == old(dst)@.len(),
            self.packed_fields().len() == 162,
    {
        let mut buf: Vec<u8> = Vec::new();
        buf.push(self.version);
        buf.push(self.bump_seed);
        push_bytes(&mut buf, self.owner.0.as_slice());
        push_bytes(&mut buf, self.quote_currency.as_slice());
        push_bytes(&mut buf, self.token_program_id.0.as_slice());
        push_bytes(&mut buf, self.oracle_program_id.0.as_slice());
        push_bytes(&mut buf, self.switchboard_oracle_program_id.0.as_slice());
        assert(buf@ =~= self.packed_fields());
        write_bytes(dst, 0, buf.as_slice());
    }

    /// Reads a market from the first 162 bytes of `src`;
    /// `InvalidAccountData` where the version is later than this program's.
    pub fn unpack_from_slice(src: &[u8]) -> (r: Result<Self, PackError>)
        requires
            src@.len() >= LENDING_MARKET_LEN,
        ensures
            r is Ok <==> src@[0] <= PROGRAM_VERSION,
            r is Ok ==> r->Ok_0.packed_fields() == src@.subrange(0, 162),
            r is Err ==> r->Err_0 == PackError::InvalidAccountData,
    {
        let version = src[0];
        if version > PROGRAM_VERSION {
            return Err(PackError::InvalidAccountData);
        }
        let market = LendingMarketV1 {
            version,
            bump_seed: src[1],
            owner: Pubkey::new_from_array(read_array::<32>(src, 2)),
            quote_currency: read_array::<32>(src, 34),
            token_program_id: Pubkey::new_from_array(read_array::<32>(src, 66)),
            oracle_program_id: Pubkey::new_from_array(read_array::<32>(src, 98)),
            switchboard_oracle_program_id: Pubkey::new_from_array(read_array::<32>(src, 130)),
        };
        assert(market.packed_fields() =~= src@.subrange(0, 162));
        Ok(market)
    }

    /// Reads a market from a buffer of exactly the packed length.
    pub fn unpack_unchecked(input: &[u8]) -> (r: Result<Self, PackError>)
        ensures
            r is Ok <==> input@.len() == LENDING_MARKET_LEN && input@[0] <= PROGRAM_VERSION,
            r is Ok ==> r->Ok_0.packed_fields() == input@.subrange(0, 162),
            r is Err ==> r->Err_0 == PackError::InvalidAccountData,
    {
        if input.len() != LENDING_MARKET_LEN {
            return Err(PackError::InvalidAccountData);
        }
        Self::unpack_from_slice(input)
    }

    /// Reads an initialized market from a buffer of exactly the packed
    /// length; `UninitializedAccount` where the version byte is zero,
    /// `InvalidAccountData` for another length or a later version.
    pub fn unpack(input: &[u8]) -> (r: Result<Self, PackError>)
        ensures
            r is Ok <==> input@.len() == LENDING_MARKET_LEN && 0 < input@[0] <= PROGRAM_VERSION,
            r is Ok ==> r->Ok_0.packed_fields() == input@.subrange(0, 162),
            r is Err ==> r->Err_0 == (if input@.len() == LENDING_MARKET_LEN && input@[0] == 0 {
                PackError::UninitializedAccount
            } else {
                PackError::InvalidAccountData
            }),
    {
        let value = match Self::unpack_unchecked(input) {
            Ok(v) => v,
            Err(e) => {
                return Err(e);
            },
        };
        assert(value.packed_fields()[0] == value.version);
        if value.is_initialized() {
            Ok(value)
        } else {
            Err(PackError::UninitializedAccount)
        }
    }

    /// Writes `src` into a buffer of exactly the packed length;
    /// `InvalidAccountData` for another length, and the buffer is then left
    /// as it is.
    pub fn pack(src: Self, dst: &mut Vec<u8>) -> (r: Result<(), PackError>)
        ensures
            r is Ok <==> old(dst)@.len() == LENDING_MARKET_LEN,
            r is Ok ==> final(dst)@ == overwritten(old(dst)@, 0, src.packed_fields()),
            r is Err ==> r->Err_0 == PackError::InvalidAccountData && final(dst)@ == old(dst)@,
    {
        if dst.len() != LENDING_MARKET_LEN {
            return Err(PackError::InvalidAccountData);
        }
        src.pack_into_slice(dst);
        Ok(())
    }
}

impl From<LendingMarket> for LendingMarketV1 {
    /// The market in the fixed layout: the tag is dropped and the version
    /// becomes 1.
    fn from(lending_market: LendingMarket) -> (r: LendingMarketV1) {
        LendingMarketV1 {
            version: 1u8,
            bump_seed: lending_market.bump_seed,
            owner: lending_market.owner,
            quote_currency: lending_market.quote_currency,
            token_program_id: lending_market.token_program_id,
            oracle_program_id: lending_market.oracle_program_id,
            switchboard_oracle_program_id: lending_market.switchboard_oracle_program_id,
        }
    }
}

impl vstd::std_specs::convert::FromSpecImpl<LendingMarket> for LendingMarketV1 {
    open spec fn obeys_from_spec() -> bool {
        true
    }

    open spec fn from_spec(lending_market: LendingMarket) -> LendingMarketV1 {
        fixed_layout_of(lending_market)
    }
}

/// The market in the fixed layout: the tag is dropped and the version
/// becomes 1.
pub open spec fn fixed_layout_of(lending_market: LendingMarket) -> LendingMarketV1 {
    LendingMarketV1 {
        version: 1u8,
        bump_seed: lending_market.bump_seed,
        owner: lending_market.owner,
        quote_currency: lending_market.quote_currency,
        token_program_id: lending_market.token_program_id,
        oracle_program_id: lending_market.oracle_program_id,
        switchboard_oracle_program_id: lending_market.switchboard_oracle_program_id,
    }
}

/// A market is determined by the bytes of its fields.
pub proof fn lemma_packed_fields_injective(a: LendingMarketV1, b: LendingMarketV1)
    requires
        a.packed_fields() == b.packed_fields(),
    ensures
        a == b,
{
    let s = a.packed_fields();
    let t = b.packed_fields();
    assert(a.version == s[0] && b.version == t[0]);
    assert(a.bump_seed == s[1] && b.bump_seed == t[1]);
    assert(a.owner@ =~= s.subrange(2, 34));
    assert(b.owner@ =~= t.subrange(2, 34));
    assert(a.quote_currency@ =~= s.subrange(34, 66));
    assert(b.quote_currency@ =~= t.subrange(34, 66));
    assert(a.token_program_id@ =~= s.subrange(66, 98));
    assert(b.token_program_id@ =~= t.subrange(66, 98));
    assert(a.oracle_program_id@ =~= s.subrange(98, 130));
    assert(b.oracle_program_id@ =~= t.subrange(98, 130));
    assert(a.switchboard_oracle_program_id@ =~= s.subrange(130, 162));
    assert(b.switchboard_oracle_program_id@ =~= t.subrange(130, 162));
    lemma_pubkey_ext(a.owner, b.owner);
    lemma_array_ext(a.quote_currency, b.quote_currency);
    lemma_pubkey_ext(a.token_program_id, b.token_program_id);
    lemma_pubkey_ext(a.oracle_program_id, b.oracle_program_id);
    lemma_pubkey_ext(a.switchboard_oracle_program_id, b.switchboard_oracle_program_id);
}

} // verus!
