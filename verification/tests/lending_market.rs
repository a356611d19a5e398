use solana_program::pubkey::Pubkey as SolanaPubkey;
use token_lending::error::LendingError;
use token_lending::pubkey::Pubkey;
use token_lending::smart_pack::{AccountTag, PackError, SmartPack, ValidateTag};
use token_lending::state::lending_market::{
    InitLendingMarketParams, LendingMarket, LENDING_MARKET_V2_LEN,
};
use token_lending::state::lending_market_metadata::{
    InitLendingMarketMetadataParams, LendingMarketMetadata, LENDING_MARKET_METADATA_LEN,
};
use token_lending::state::lending_market_v0::{LendingMarketV0, LENDING_MARKET_V0_LEN};
use token_lending::state::lending_market_v1::{LendingMarketV1, LENDING_MARKET_LEN};
use token_lending::state::{PROGRAM_VERSION, UNINITIALIZED_VERSION};

fn new_unique() -> Pubkey {
    Pubkey(SolanaPubkey::new_unique().to_bytes())
}

fn token_id() -> Pubkey {
    Pubkey(spl_token::id().to_bytes())
}

fn market_v2() -> LendingMarket {
    LendingMarket {
        version: 2,
        tag: AccountTag::LendingMarket,
        bump_seed: 1,
        owner: new_unique(),
        quote_currency: [1; 32],
        token_program_id: token_id(),
        oracle_program_id: new_unique(),
        switchboard_oracle_program_id: new_unique(),
    }
}

#[test]
fn from_lending_market_v1() {
    let v1 = LendingMarketV1 {
        version: 2,
        bump_seed: 1,
        owner: new_unique(),
        quote_currency: [1; 32],
        token_program_id: token_id(),
        oracle_program_id: new_unique(),
        switchboard_oracle_program_id: new_unique(),
    };

    let v2: LendingMarket = v1.clone().into();
    assert_eq!(v2.version, v1.version);
    assert_eq!(v2.tag, AccountTag::LendingMarket);
    assert_eq!(v2.bump_seed, v1.bump_seed);
    assert_eq!(v2.owner, v1.owner);
    assert_eq!(v2.quote_currency, v1.quote_currency);
    assert_eq!(v2.token_program_id, v1.token_program_id);
    assert_eq!(v2.oracle_program_id, v1.oracle_program_id);
    assert_eq!(
        v2.switchboard_oracle_program_id,
        v1.switchboard_oracle_program_id
    );
}

#[test]
fn unpack_from_v1() {
    let v1 = LendingMarketV1 {
        version: 1,
        bump_seed: 1,
        owner: new_unique(),
        quote_currency: [1; 32],
        token_program_id: token_id(),
        oracle_program_id: new_unique(),
        switchboard_oracle_program_id: new_unique(),
    };

    let mut buf = vec![0; LENDING_MARKET_LEN];
    LendingMarketV1::pack(v1.clone(), &mut buf).unwrap();

    let v2 = LendingMarket::smart_unpack(&buf).unwrap();
    assert_eq!(v2.version, 2);
    assert_eq!(v2.tag, AccountTag::LendingMarket);
    assert_eq!(v2.bump_seed, v1.bump_seed);
    assert_eq!(v2.owner, v1.owner);
    assert_eq!(v2.quote_currency, v1.quote_currency);
    assert_eq!(v2.token_program_id, v1.token_program_id);
    assert_eq!(v2.oracle_program_id, v1.oracle_program_id);
    assert_eq!(
        v2.switchboard_oracle_program_id,
        v1.switchboard_oracle_program_id
    );
}

#[test]
fn unpack_from_v2() {
    let v2 = market_v2();

    let buf = v2.try_to_vec();
    let v2_new = LendingMarket::smart_unpack(&buf).unwrap();

    assert_eq!(v2, v2_new);
}

#[test]
fn pack_to_v1() {
    let v2 = market_v2();

    let mut buf = vec![0; 10000];
    buf.truncate(LENDING_MARKET_LEN);

    LendingMarket::smart_pack(v2.clone(), 1, &mut buf).unwrap();
    let v1 = LendingMarketV1::unpack(&buf).unwrap();

    assert_eq!(v1.version, 1);
    assert_eq!(v2.tag, AccountTag::LendingMarket);
    assert_eq!(v2.bump_seed, v1.bump_seed);
    assert_eq!(v2.owner, v1.owner);
    assert_eq!(v2.quote_currency, v1.quote_currency);
    assert_eq!(v2.token_program_id, v1.token_program_id);
    assert_eq!(v2.oracle_program_id, v1.oracle_program_id);
    assert_eq!(
        v2.switchboard_oracle_program_id,
        v1.switchboard_oracle_program_id
    );
}

#[test]
fn pack_to_v2() {
    let v2 = market_v2();

    let mut buf = vec![0; 8]; // too short: the current layout resizes

    LendingMarket::smart_pack(v2.clone(), 2, &mut buf).unwrap();
    let v2_new = LendingMarket::smart_unpack(&buf).unwrap();

    assert_eq!(v2, v2_new);
}

#[test]
fn from_lending_market_v2() {
    let v2 = market_v2();

    let v1: LendingMarketV1 = v2.clone().into();
    assert_eq!(v1.version, 1);
    assert_eq!(v2.bump_seed, v1.bump_seed);
    assert_eq!(v2.owner, v1.owner);
    assert_eq!(v2.quote_currency, v1.quote_currency);
    assert_eq!(v2.token_program_id, v1.token_program_id);
    assert_eq!(v2.oracle_program_id, v1.oracle_program_id);
    assert_eq!(
        v2.switchboard_oracle_program_id,
        v1.switchboard_oracle_program_id
    );
}

#[test]
fn lending_market_current_layout_is_borsh() {
    let v2 = market_v2();
    let expected = borsh::to_vec(&(
        2u8,
        1u8,
        1u8,
        v2.owner.0,
        v2.quote_currency,
        v2.token_program_id.0,
        v2.oracle_program_id.0,
        v2.switchboard_oracle_program_id.0,
    ))
    .unwrap();
    assert_eq!(expected.len(), LENDING_MARKET_V2_LEN);
    assert_eq!(v2.try_to_vec(), expected);
    assert_eq!(LendingMarket::try_from_slice(&expected), Some(v2));
    // a trailing byte is refused, as is a missing one
    let mut longer = expected.clone();
    longer.push(0);
    assert_eq!(LendingMarket::try_from_slice(&longer), None);
    assert_eq!(LendingMarket::try_from_slice(&expected[..162]), None);
    // a tag byte that stands for no tag
    let mut bad = expected.clone();
    bad[1] = 4;
    assert_eq!(LendingMarket::try_from_slice(&bad), None);
}

#[test]
fn lending_market_fixed_layout_offsets() {
    let v1 = LendingMarketV1 {
        version: 1,
        bump_seed: 7,
        owner: Pubkey([2; 32]),
        quote_currency: [3; 32],
        token_program_id: Pubkey([4; 32]),
        oracle_program_id: Pubkey([5; 32]),
        switchboard_oracle_program_id: Pubkey([6; 32]),
    };
    let mut buf = vec![0xEEu8; LENDING_MARKET_LEN];
    v1.pack_into_slice(&mut buf);
    assert_eq!(buf[0], 1);
    assert_eq!(buf[1], 7);
    assert_eq!(&buf[2..34], &[2u8; 32]);
    assert_eq!(&buf[34..66], &[3u8; 32]);
    assert_eq!(&buf[66..98], &[4u8; 32]);
    assert_eq!(&buf[98..130], &[5u8; 32]);
    assert_eq!(&buf[130..162], &[6u8; 32]);
    // the padding is left alone
    assert!(buf[162..].iter().all(|b| *b == 0xEE));
    assert_eq!(LendingMarketV1::unpack_from_slice(&buf), Ok(v1));
    assert!(v1.is_initialized());
}

#[test]
fn lending_market_v1_unpack_errors() {
    let v1 = LendingMarketV1 {
        version: 1,
        bump_seed: 7,
        owner: Pubkey([2; 32]),
        quote_currency: [3; 32],
        token_program_id: Pubkey([4; 32]),
        oracle_program_id: Pubkey([5; 32]),
        switchboard_oracle_program_id: Pubkey([6; 32]),
    };
    let mut buf = vec![0u8; LENDING_MARKET_LEN];
    assert_eq!(LendingMarketV1::pack(v1, &mut buf), Ok(()));
    assert_eq!(LendingMarketV1::unpack(&buf), Ok(v1));
    // wrong lengths
    assert_eq!(LendingMarketV1::unpack(&buf[..289]), Err(PackError::InvalidAccountData));
    let mut short = vec![0u8; 289];
    assert_eq!(LendingMarketV1::pack(v1, &mut short), Err(PackError::InvalidAccountData));
    assert_eq!(short, vec![0u8; 289]);
    // uninitialized
    let zeros = vec![0u8; LENDING_MARKET_LEN];
    assert_eq!(LendingMarketV1::unpack(&zeros), Err(PackError::UninitializedAccount));
    assert_eq!(
        LendingMarketV1::unpack_unchecked(&zeros).map(|m| m.version),
        Ok(UNINITIALIZED_VERSION)
    );
    // a version from the future
    buf[0] = PROGRAM_VERSION + 1;
    assert_eq!(LendingMarketV1::unpack(&buf), Err(PackError::InvalidAccountData));
    assert_eq!(LendingMarketV1::unpack_from_slice(&buf), Err(PackError::InvalidAccountData));
}

#[test]
fn lending_market_v0_conversion_and_layout() {
    let v2 = market_v2();
    let v0: LendingMarketV0 = v2.into();
    assert_eq!(v0.version, v2.version);
    assert_eq!(v0.bump_seed, v2.bump_seed);
    assert_eq!(v0.owner, v2.owner);
    assert_eq!(v0.token_program_id, v2.token_program_id);
    // the first layout had no oracle program: the token program stands in
    assert_eq!(v0.oracle_program_id, v2.token_program_id);
    assert_eq!(v0.switchboard_oracle_program_id, v2.switchboard_oracle_program_id);
    let mut stored = v0;
    stored.version = 1;
    let mut buf = vec![0u8; LENDING_MARKET_V0_LEN];
    assert_eq!(LendingMarketV0::pack(stored, &mut buf), Ok(()));
    assert_eq!(LendingMarketV0::unpack(&buf), Ok(stored));
    assert!(stored.is_initialized());
}

#[test]
fn smart_unpack_refuses_unknown_versions() {
    assert_eq!(LendingMarket::version(&[]), 0);
    assert!(!LendingMarket::is_initialized(&[]));
    assert_eq!(LendingMarket::version(&[2, 9]), 2);
    assert!(LendingMarket::is_initialized(&[2, 9]));
    assert_eq!(LendingMarket::smart_unpack(&[]), Err(LendingError::FailedToDeserialize));
    assert_eq!(
        LendingMarket::smart_unpack(&vec![0u8; LENDING_MARKET_LEN]),
        Err(LendingError::FailedToDeserialize)
    );
    let mut three = market_v2().try_to_vec();
    three[0] = 3;
    assert_eq!(LendingMarket::smart_unpack(&three), Err(LendingError::FailedToDeserialize));
    // version 1 needs the fixed length
    let mut one = vec![0u8; LENDING_MARKET_LEN - 1];
    one[0] = 1;
    assert_eq!(LendingMarket::smart_unpack(&one), Err(LendingError::FailedToDeserialize));
    // version 2 with the tag of a reserve
    let mut wrong = market_v2();
    wrong.tag = AccountTag::Reserve;
    assert_eq!(wrong.validate_tag(), Err(LendingError::FailedToDeserialize));
    assert_eq!(
        LendingMarket::smart_unpack(&wrong.try_to_vec()),
        Err(LendingError::FailedToDeserialize)
    );
    assert_eq!(market_v2().validate_tag(), Ok(()));
}

#[test]
fn smart_pack_errors_leave_buffer_alone() {
    let v2 = market_v2();
    let mut buf = vec![5u8; 100];
    assert_eq!(
        LendingMarket::smart_pack(v2, 1, &mut buf),
        Err(PackError::InvalidAccountData)
    );
    assert_eq!(buf, vec![5u8; 100]);
    assert_eq!(
        LendingMarket::smart_pack(v2, 3, &mut buf),
        Err(PackError::Lending(LendingError::FailedToSerialize))
    );
    assert_eq!(
        LendingMarket::smart_pack(v2, 0, &mut buf),
        Err(PackError::Lending(LendingError::FailedToSerialize))
    );
    assert_eq!(buf, vec![5u8; 100]);
    assert_eq!(LendingMarket::smart_pack(v2, 2, &mut buf), Ok(()));
    assert_eq!(buf.len(), LENDING_MARKET_V2_LEN);
}

#[test]
fn lending_market_new_and_init() {
    let params = InitLendingMarketParams {
        bump_seed: 254,
        owner: new_unique(),
        quote_currency: *b"USD\0\0\0\0\0\0\0\0\0\0\0\0\0\0\0\0\0\0\0\0\0\0\0\0\0\0\0\0\0",
        token_program_id: token_id(),
        oracle_program_id: new_unique(),
        switchboard_oracle_program_id: new_unique(),
    };
    let market = LendingMarket::new(params);
    assert_eq!(market.version, PROGRAM_VERSION);
    assert_eq!(market.tag, AccountTag::LendingMarket);
    assert_eq!(market.bump_seed, 254);
    assert_eq!(market.owner, params.owner);
    assert_eq!(market.quote_currency, params.quote_currency);
    assert_eq!(market.token_program_id, params.token_program_id);
    assert_eq!(market.oracle_program_id, params.oracle_program_id);
    assert_eq!(market.switchboard_oracle_program_id, params.switchboard_oracle_program_id);
    let mut blank = LendingMarket::default();
    assert_eq!(blank.version, 0);
    assert_eq!(blank.tag, AccountTag::UnInitialized);
    assert_eq!(blank.tag, AccountTag::default());
    blank.init(params);
    assert_eq!(blank, market);
}

#[test]
fn account_tag_bytes() {
    for (tag, byte) in [
        (AccountTag::UnInitialized, 0u8),
        (AccountTag::LendingMarket, 1),
        (AccountTag::Reserve, 2),
        (AccountTag::Obligation, 3),
    ] {
        assert_eq!(tag.to_byte(), byte);
        assert_eq!(AccountTag::from_byte(byte), Some(tag));
    }
    assert_eq!(AccountTag::from_byte(4), None);
    assert_eq!(AccountTag::from_byte(255), None);
}

#[test]
fn metadata_pack_round_trip() {
    let mut name = [0u8; 50];
    name[..4].copy_from_slice(b"Main");
    let params = InitLendingMarketMetadataParams {
        bump_seed: 1,
        market_address: new_unique(),
        market_name: name,
        market_description: [b'd'; 50],
        market_image_url: [b'u'; 50],
    };
    let metadata = LendingMarketMetadata::new(params);
    assert_eq!(metadata.version, PROGRAM_VERSION);
    assert!(metadata.is_initialized());
    let mut blank = LendingMarketMetadata {
        version: 0,
        market_address: Pubkey([0; 32]),
        market_name: [0; 50],
        market_description: [0; 50],
        market_image_url: [0; 50],
    };
    assert!(!blank.is_initialized());
    blank.init(params);
    assert_eq!(blank, metadata);
    let mut buf = vec![9u8; LENDING_MARKET_METADATA_LEN];
    metadata.pack_into_slice(&mut buf);
    assert_eq!(buf[0], PROGRAM_VERSION);
    assert_eq!(&buf[1..33], &params.market_address.0);
    assert_eq!(&buf[33..83], &name);
    assert_eq!(&buf[83..133], &[b'd'; 50]);
    assert_eq!(&buf[133..183], &[b'u'; 50]);
    assert!(buf[183..].iter().all(|b| *b == 9));
    assert_eq!(LendingMarketMetadata::unpack_from_slice(&buf), Ok(metadata));
}

#[test]
fn pubkey_helpers() {
    let a = new_unique();
    let b = new_unique();
    assert!(a.key_eq(&a));
    assert!(!a.key_eq(&b));
    assert_eq!(Pubkey::new_from_array(a.to_bytes()), a);
    assert_eq!(Pubkey::default(), Pubkey([0; 32]));
    let mut c = a;
    c.0[31] ^= 1;
    assert!(!a.key_eq(&c));
}

#[test]
fn metadata_smart_pack() {
    let metadata = LendingMarketMetadata::new(InitLendingMarketMetadataParams {
        bump_seed: 1,
        market_address: new_unique(),
        market_name: [b'n'; 50],
        market_description: [b'd'; 50],
        market_image_url: [b'u'; 50],
    });
    let mut buf = vec![0u8; LENDING_MARKET_METADATA_LEN];
    assert_eq!(LendingMarketMetadata::smart_pack(metadata, 1, &mut buf), Ok(()));
    assert_eq!(<LendingMarketMetadata as SmartPack>::version(&buf), 1);
    assert!(<LendingMarketMetadata as SmartPack>::is_initialized(&buf));
    assert_eq!(LendingMarketMetadata::smart_unpack(&buf), Ok(metadata));
    assert_eq!(LendingMarketMetadata::unpack(&buf), Ok(metadata));
    // only version 1 exists
    assert_eq!(
        LendingMarketMetadata::smart_pack(metadata, 2, &mut buf),
        Err(PackError::Lending(LendingError::FailedToSerialize))
    );
    let mut short = vec![0u8; 10];
    assert_eq!(
        LendingMarketMetadata::smart_pack(metadata, 1, &mut short),
        Err(PackError::InvalidAccountData)
    );
    assert_eq!(short, vec![0u8; 10]);
    assert_eq!(
        LendingMarketMetadata::smart_unpack(&buf[..100]),
        Err(LendingError::FailedToDeserialize)
    );
    assert_eq!(LendingMarketMetadata::smart_unpack(&[]), Err(LendingError::FailedToDeserialize));
    let zeros = vec![0u8; LENDING_MARKET_METADATA_LEN];
    assert!(!<LendingMarketMetadata as SmartPack>::is_initialized(&zeros));
    assert_eq!(LendingMarketMetadata::smart_unpack(&zeros), Err(LendingError::FailedToDeserialize));
    assert_eq!(LendingMarketMetadata::unpack(&zeros), Err(PackError::UninitializedAccount));
    let mut two = buf.clone();
    two[0] = 2;
    assert_eq!(LendingMarketMetadata::smart_unpack(&two), Err(LendingError::FailedToDeserialize));
    assert_eq!(LendingMarketMetadata::unpack(&two).map(|m| m.version), Ok(2));
}
