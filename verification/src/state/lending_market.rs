//! A lending market: the owner and the programs that its reserves share.

use crate::error::LendingError;
use crate::packing::{lemma_array_ext, overwritten, push_bytes, read_array};
use crate::pubkey::{lemma_pubkey_ext, Pubkey};
use crate::smart_pack::{version_spec, AccountTag, PackError, SmartPack, ValidateTag};
use crate::state::lending_market_v1::{fixed_layout_of, LendingMarketV1, LENDING_MARKET_LEN};
use crate::state::{PROGRAM_VERSION, UNINITIALIZED_VERSION};
use vstd::prelude::*;
use vstd::std_specs::convert::FromSpec;

verus! {

/// Size of a lending market in the current layout.
pub const LENDING_MARKET_V2_LEN: usize = 163;

/// Lending market state
#[derive(Clone, Copy, Debug, PartialEq, Eq)]
pub struct LendingMarket {
    /// Version of lending market
    pub version: u8,
    /// Tag. Should always be `AccountTag::LendingMarket`; only the current
    /// layout stores it.
    pub tag: AccountTag,
    /// Bump seed for derived authority address
    pub bump_seed: u8,
    /// Owner authority which can add new reserves
    pub owner: Pubkey,
    /// Currency market prices are quoted in, as a null padded name or the
    /// address of a token mint
    pub quote_currency: [u8; 32],
    /// Token program id
    pub token_program_id: Pubkey,
    /// Oracle (Pyth) program id
    pub oracle_program_id: Pubkey,
    /// Oracle (Switchboard) program id
    pub switchboard_oracle_program_id: Pubkey,
}

/// Initialize a lending market
#[derive(Clone, Copy, Debug, PartialEq, Eq)]
pub struct InitLendingMarketParams {
    /// Bump seed for derived authority address
    pub bump_seed: u8,
    /// Owner authority which can add new reserves
    pub owner: Pubkey,
    /// Currency market prices are quoted in, as a null padded name or the
    /// address of a token mint
    pub quote_currency: [u8; 32],
    /// Token program id
    pub token_program_id: Pubkey,
    /// Oracle (Pyth) program id
    pub oracle_program_id: Pubkey,
    /// Oracle (Switchboard) program id
    pub switchboard_oracle_program_id: Pubkey,
}

impl Default for LendingMarket {
    /// An uninitialized market: version zero, no tag, all keys zero.
    fn default() -> (r: LendingMarket)
        ensures
            r.version == 0,
            r.tag == AccountTag::UnInitialized,
            r.bump_seed == 0,
            r.owner@ == Seq::new(32, |i: int| 0u8),
            r.quote_currency@ == Seq::new(32, |i: int| 0u8),
            r.token_program_id@ == Seq::new(32, |i: int| 0u8),
            r.oracle_program_id@ == Seq::new(32, |i: int| 0u8),
            r.switchboard_oracle_program_id@ == Seq::new(32, |i: int| 0u8),
    {
        let quote_currency = [0u8; 32];
        assert(quote_currency@ =~= Seq::new(32, |i: int| 0u8));
        LendingMarket {
            version: 0,
            tag: AccountTag::UnInitialized,
            bump_seed: 0,
            owner: Pubkey::default(),
            quote_currency,
            token_program_id: Pubkey::default(),
            oracle_program_id: Pubkey::default(),
            switchboard_oracle_program_id: Pubkey::default(),
        }
    }
}

impl LendingMarket {
    /// The market that `params` describe.
    pub open spec fn new_spec(params: InitLendingMarketParams) -> LendingMarket {
        LendingMarket {
            version: PROGRAM_VERSION,
            tag: AccountTag::LendingMarket,
            bump_seed: params.bump_seed,
            owner: params.owner,
            quote_currency: params.quote_currency,
            token_program_id: params.token_program_id,
            oracle_program_id: params.oracle_program_id,
            switchboard_oracle_program_id: params.switchboard_oracle_program_id,
        }
    }

    /// Create a new lending market
    pub fn new(params: InitLendingMarketParams) -> (r: Self)
        ensures
            r == Self::new_spec(params),
    {
        let mut lending_market = Self::default();
        Self::init(&mut lending_market, params);
        lending_market
    }

    /// Initialize a lending market
    pub fn init(&mut self, params: InitLendingMarketParams)
        ensures
            *final(self) == Self::new_spec(params),
    {
        self.version = PROGRAM_VERSION;
        self.tag = AccountTag::LendingMarket;
        self.bump_seed = params.bump_seed;
        self.owner = params.owner;
        self.quote_currency = params.quote_currency;
        self.token_program_id = params.token_program_id;
        self.oracle_program_id = params.oracle_program_id;
        self.switchboard_oracle_program_id = params.switchboard_oracle_program_id;
    }

    /// The bytes of the market in the current layout: version, tag, bump
    /// seed, then the five 32-byte fields.
    pub open spec fn serialized(self) -> Seq<u8> {
        seq![self.version, self.tag.byte_spec(), self.bump_seed] + self.owner@
            + self.quote_currency@ + self.token_program_id@ + self.oracle_program_id@
            + self.switchboard_oracle_program_id@
    }

    /// The market in the current layout.
    pub fn try_to_vec(&self) -> (r: Vec<u8>)
        ensures
            r@ == self.serialized(),
            r@.len() == LENDING_MARKET_V2_LEN,
    {
        let mut buf: Vec<u8> = Vec::new();
        buf.push(self.version);
        buf.push(self.tag.to_byte());
        buf.push(self.bump_seed);
        push_bytes(&mut buf, self.owner.0.as_slice());
        push_bytes(&mut buf, self.quote_currency.as_slice());
        push_bytes(&mut buf, self.token_program_id.0.as_slice());
        push_bytes(&mut buf, self.oracle_program_id.0.as_slice());
        push_bytes(&mut buf, self.switchboard_oracle_program_id.0.as_slice());
        assert(buf@ =~= self.serialized());
        buf
    }

    /// Reads a market in the current layout: `src` has to hold exactly the
    /// 163 bytes of one market, with a tag byte that stands for a tag.
    pub fn try_from_slice(src: &[u8]) -> (r: Option<Self>)
        ensures
            r is Some <==> src@.len() == LENDING_MARKET_V2_LEN && src@[1] <= 3,
            r is Some ==> r->0.serialized() == src@,
    {
        if src.len() != LENDING_MARKET_V2_LEN {
            return None;
        }
        let tag = match AccountTag::from_byte(src[1]) {
            Some(t) => t,
            None => {
                return None;
            },
        };
        let market = LendingMarket {
            version: src[0],
            tag,
            bump_seed: src[2],
            owner: Pubkey::new_from_array(read_array::<32>(src, 3)),
            quote_currency: read_array::<32>(src, 35),
            token_program_id: Pubkey::new_from_array(read_array::<32>(src, 67)),
            oracle_program_id: Pubkey::new_from_array(read_array::<32>(src, 99)),
            switchboard_oracle_program_id: Pubkey::new_from_array(read_array::<32>(src, 131)),
        };
        assert(market.serialized() =~= src@);
        Some(market)
    }
}

impl ValidateTag for LendingMarket {
    open spec fn tag_is_valid(&self) -> bool {
        self.tag == AccountTag::LendingMarket
    }

    fn validate_tag(&self) -> (r: Result<(), LendingError>) {
        match self.tag {
            AccountTag::LendingMarket => Ok(()),
            _ => Err(LendingError::FailedToDeserialize),
        }
    }
}

impl From<LendingMarketV1> for LendingMarket {
    /// The market in the current layout: it gets the tag of a lending
    /// market, and the version becomes 2.
    fn from(lending_market_v1: LendingMarketV1) -> (r: LendingMarket) {
        LendingMarket {
            version: 2u8,
            tag: AccountTag::LendingMarket,
            bump_seed: lending_market_v1.bump_seed,
            owner: lending_market_v1.owner,
            quote_currency: lending_market_v1.quote_currency,
            token_program_id: lending_market_v1.token_program_id,
            oracle_program_id: lending_market_v1.oracle_program_id,
            switchboard_oracle_program_id: lending_market_v1.switchboard_oracle_program_id,
        }
    }
}

impl vstd::std_specs::convert::FromSpecImpl<LendingMarketV1> for LendingMarket {
    open spec fn obeys_from_spec() -> bool {
        true
    }

    open spec fn from_spec(lending_market_v1: LendingMarketV1) -> LendingMarket {
        LendingMarket {
            version: 2u8,
            tag: AccountTag::LendingMarket,
            bump_seed: lending_market_v1.bump_seed,
            owner: lending_market_v1.owner,
            quote_currency: lending_market_v1.quote_currency,
            token_program_id: lending_market_v1.token_program_id,
            oracle_program_id: lending_market_v1.oracle_program_id,
            switchboard_oracle_program_id: lending_market_v1.switchboard_oracle_program_id,
        }
    }
}

impl SmartPack for LendingMarket {
    /// From the fixed layout the market comes with version 2 and its tag,
    /// and the fields of the first 162 bytes; from the current layout it is
    /// the market whose bytes `src` holds.
    open spec fn is_unpacked_from(object: Self, src: Seq<u8>) -> bool {
        if version_spec(src) == 1 {
            fixed_layout_of(object).packed_fields() == src.subrange(0, 162).update(
                0,
                1u8,
            ) && object.version == 2 && object.tag == AccountTag::LendingMarket
        } else {
            object.serialized() == src
        }
    }

    /// Version 1 needs the 290 bytes of the fixed layout; version 2 the 163
    /// bytes of the current one, tagged as a lending market.
    open spec fn can_unpack(src: Seq<u8>) -> bool {
        ||| version_spec(src) == 1 && src.len() == LENDING_MARKET_LEN
        ||| version_spec(src) == 2 && src.len() == LENDING_MARKET_V2_LEN && src[1] == 1
    }

    open spec fn packed_as(object: Self, version: u8, dst: Seq<u8>) -> Seq<u8> {
        if version == 1 {
            overwritten(dst, 0, fixed_layout_of(object).packed_fields())
        } else {
            object.serialized()
        }
    }

    open spec fn pack_outcome(object: Self, version: u8, dst: Seq<u8>) -> Result<(), PackError> {
        if version == 1 {
            if dst.len() == LENDING_MARKET_LEN {
                Ok(())
            } else {
                Err(PackError::InvalidAccountData)
            }
        } else if version == 2 {
            Ok(())
        } else {
            Err(PackError::Lending(LendingError::FailedToSerialize))
        }
    }

    fn version(src: &[u8]) -> (r: u8) {
        if src.len() == 0 {
            UNINITIALIZED_VERSION
        } else {
            src[0]
        }
    }

    fn is_initialized(src: &[u8]) -> (r: bool) {
        Self::version(src) != UNINITIALIZED_VERSION
    }

    fn smart_unpack(src: &[u8]) -> (r: Result<Self, LendingError>) {
        let version = Self::version(src);
        if version == 1 {
            match LendingMarketV1::unpack(src) {
                Err(_e) => Err(LendingError::FailedToDeserialize),
                Ok(object) => {
                    let market = LendingMarket::from(object);
                    proof {
                        assert(object.packed_fields()[0] == object.version);
                        assert(fixed_layout_of(market) == object);
                        assert(src@.subrange(0, 162).update(0, 1u8) =~= src@.subrange(0, 162));
                    }
                    Ok(market)
                },
            }
        } else if version == 2 {
            match LendingMarket::try_from_slice(src) {
                Some(object) => {
                    assert(object.serialized()[1] == object.tag.byte_spec());
                    match object.validate_tag() {
                        Ok(_) => Ok(object),
                        Err(e) => Err(e),
                    }
                },
                None => Err(LendingError::FailedToDeserialize),
            }
        } else {
            Err(LendingError::FailedToDeserialize)
        }
    }

    fn smart_pack(object: Self, version: u8, dst: &mut Vec<u8>) -> (r: Result<(), PackError>) {
        if version == 1 {
            match LendingMarketV1::pack(LendingMarketV1::from(object), dst) {
                Ok(_) => Ok(()),
                Err(e) => Err(e),
            }
        } else if version == 2 {
            let serialized = object.try_to_vec();
            *dst = serialized;
            Ok(())
        } else {
            Err(PackError::Lending(LendingError::FailedToSerialize))
        }
    }
}

/// A market is determined by its bytes in the current layout.
pub proof fn lemma_serialized_injective(a: LendingMarket, b: LendingMarket)
    requires
        a.serialized() == b.serialized(),
    ensures
        a == b,
{
    let s = a.serialized();
    let t = b.serialized();
    assert(a.version == s[0] && b.version == t[0]);
    assert(a.tag.byte_spec() == s[1] && b.tag.byte_spec() == t[1]);
    assert(a.bump_seed == s[2] && b.bump_seed == t[2]);
    assert(a.owner@ =~= s.subrange(3, 35));
    assert(b.owner@ =~= t.subrange(3, 35));
    assert(a.quote_currency@ =~= s.subrange(35, 67));
    assert(b.quote_currency@ =~= t.subrange(35, 67));
    assert(a.token_program_id@ =~= s.subrange(67, 99));
    assert(b.token_program_id@ =~= t.subrange(67, 99));
    assert(a.oracle_program_id@ =~= s.subrange(99, 131));
    assert(b.oracle_program_id@ =~= t.subrange(99, 131));
    assert(a.switchboard_oracle_program_id@ =~= s.subrange(131, 163));
    assert(b.switchboard_oracle_program_id@ =~= t.subrange(131, 163));
    lemma_pubkey_ext(a.owner, b.owner);
    lemma_array_ext(a.quote_currency, b.quote_currency);
    lemma_pubkey_ext(a.token_program_id, b.token_program_id);
    lemma_pubkey_ext(a.oracle_program_id, b.oracle_program_id);
    lemma_pubkey_ext(a.switchboard_oracle_program_id, b.switchboard_oracle_program_id);
}

/// A tagged market written in the current layout is read back unchanged.
pub proof fn lemma_smart_pack_unpack_current(market: LendingMarket, unpacked: LendingMarket)
    requires
        market.version == 2,
        market.tag == AccountTag::LendingMarket,
        LendingMarket::is_unpacked_from(unpacked, market.serialized()),
    ensures
        LendingMarket::can_unpack(market.serialized()),
        unpacked == market,
{
    assert(market.serialized()[0] == 2);
    assert(market.serialized()[1] == 1);
    lemma_serialized_injective(unpacked, market);
}

} // verus!
