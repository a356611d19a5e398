use solana_program::pubkey::Pubkey as SolanaPubkey;
use spl_token::solana_program::program_option::COption;
use spl_token::solana_program::program_pack::Pack;
use spl_token::state::{Account, AccountState};
use token_lending::instruction::AccountMeta;
use token_lending::math::decimal::Decimal;
use token_lending::pubkey::Pubkey;
use token_lending::wrapper::{
    begin, check_no_ctokens_received, conclude_liquidation, liquidate_without_receiving_ctokens,
    max_deposit, max_deposit_amount, max_repay, plan, token_balance, WrapperAction, WrapperError,
    WrapperFailure, WrapperInstruction, TOKEN_ACCOUNT_LEN,
};

fn key(byte: u8) -> Pubkey {
    Pubkey([byte; 32])
}

fn token_account(amount: u64) -> Vec<u8> {
    let account = Account {
        mint: Default::default(),
        owner: Default::default(),
        amount,
        delegate: COption::None,
        state: AccountState::Initialized,
        is_native: COption::None,
        delegated_amount: 77,
        close_authority: COption::None,
    };
    let mut data = vec![0u8; Account::LEN];
    Account::pack(account, &mut data).unwrap();
    data
}

fn authority(market: &Pubkey, program: &Pubkey) -> Pubkey {
    let (address, _) = SolanaPubkey::find_program_address(
        &[&market.0[..32]],
        &SolanaPubkey::new_from_array(program.0),
    );
    Pubkey(address.to_bytes())
}

fn token_id() -> Pubkey {
    Pubkey(spl_token::id().to_bytes())
}

#[test]
fn token_balance_reads_the_amount() {
    assert_eq!(TOKEN_ACCOUNT_LEN, Account::LEN);
    assert_eq!(token_balance(&token_account(123_456_789)), Some(123_456_789));
    assert_eq!(token_balance(&token_account(0)), Some(0));
    assert_eq!(token_balance(&token_account(u64::MAX)), Some(u64::MAX));
    // a longer buffer is read from its start
    let mut longer = token_account(5);
    longer.extend_from_slice(&[1, 2, 3]);
    assert_eq!(token_balance(&longer), Some(5));
    // too short
    assert_eq!(token_balance(&token_account(5)[..164]), None);
    assert_eq!(token_balance(&[]), None);
    // a state byte that the token program does not know
    let mut bad = token_account(5);
    bad[108] = 9;
    assert_eq!(token_balance(&bad), None);
}

#[test]
fn ctoken_check() {
    assert_eq!(check_no_ctokens_received(10, 10), Ok(()));
    assert_eq!(check_no_ctokens_received(10, 9), Ok(()));
    assert_eq!(check_no_ctokens_received(10, 11), Err(WrapperError::ReceivedCTokens));
    assert_eq!(check_no_ctokens_received(0, u64::MAX), Err(WrapperError::ReceivedCTokens));
    assert_eq!(WrapperError::ReceivedCTokens.code(), 0);
    assert_eq!(WrapperError::ReceivedCTokens.message(), "Received ctokens");
}

#[test]
fn deposit_of_everything_respects_the_limit() {
    // room for 40
    assert_eq!(max_deposit_amount(100, 1000, Decimal::from(960u64)), Ok(40));
    assert_eq!(max_deposit_amount(30, 1000, Decimal::from(960u64)), Ok(30));
    // room is rounded down
    assert_eq!(
        max_deposit_amount(100, 1000, Decimal::from_scaled_val(960_500_000_000_000_000_000)),
        Ok(39)
    );
    // a reserve above its limit takes nothing
    assert_eq!(max_deposit_amount(100, 1000, Decimal::from(2000u64)), Ok(0));
    assert_eq!(max_deposit_amount(u64::MAX, u64::MAX, Decimal::zero()), Ok(u64::MAX));
    assert_eq!(max_deposit_amount(5, 0, Decimal::zero()), Ok(0));
}

#[test]
fn wrapper_instruction_bytes() {
    let liquidate = WrapperInstruction::LiquidateWithoutReceivingCtokens { liquidity_amount: 0x0102030405060708 };
    assert_eq!(liquidate.try_to_vec(), vec![0, 8, 7, 6, 5, 4, 3, 2, 1]);
    assert_eq!(liquidate.try_to_vec(), borsh::to_vec(&(0u8, 0x0102030405060708u64)).unwrap());
    assert_eq!(WrapperInstruction::RepayMax.try_to_vec(), vec![1]);
    assert_eq!(WrapperInstruction::DepositMax.try_to_vec(), vec![2]);
    for ix in [liquidate, WrapperInstruction::RepayMax, WrapperInstruction::DepositMax] {
        assert_eq!(WrapperInstruction::try_from_slice(&ix.try_to_vec()), Some(ix));
    }
    assert_eq!(WrapperInstruction::try_from_slice(&[]), None);
    assert_eq!(WrapperInstruction::try_from_slice(&[3]), None);
    assert_eq!(WrapperInstruction::try_from_slice(&[1, 0]), None);
    assert_eq!(WrapperInstruction::try_from_slice(&[0, 1, 2, 3]), None);
    assert_eq!(WrapperInstruction::try_from_slice(&[0, 1, 2, 3, 4, 5, 6, 7, 8, 9]), None);
    assert_eq!(liquidate.accounts_expected(), 16);
    assert_eq!(WrapperInstruction::RepayMax.accounts_expected(), 8);
    assert_eq!(WrapperInstruction::DepositMax.accounts_expected(), 15);
}

#[test]
fn liquidate_without_receiving_ctokens_instruction() {
    let ix = liquidate_without_receiving_ctokens(
        key(1), 500, key(2), key(3), key(4), key(5), key(6), key(7), key(8), key(9), key(10),
        key(11), key(12), key(13), key(14), key(15),
    )
    .unwrap();
    assert_eq!(ix.program_id, key(1));
    assert_eq!(ix.data, WrapperInstruction::LiquidateWithoutReceivingCtokens { liquidity_amount: 500 }.try_to_vec());
    assert_eq!(
        ix.accounts,
        vec![
            AccountMeta::new_readonly(key(2), false),
            AccountMeta::new(key(3), false),
            AccountMeta::new(key(4), false),
            AccountMeta::new(key(5), false),
            AccountMeta::new(key(6), false),
            AccountMeta::new(key(7), false),
            AccountMeta::new(key(8), false),
            AccountMeta::new(key(9), false),
            AccountMeta::new(key(10), false),
            AccountMeta::new(key(11), false),
            AccountMeta::new(key(12), false),
            AccountMeta::new(key(13), false),
            AccountMeta::new(key(14), false),
            AccountMeta::new_readonly(authority(&key(14), &key(2)), false),
            AccountMeta::new_readonly(key(15), true),
            AccountMeta::new_readonly(token_id(), false),
        ]
    );
}

#[test]
fn max_repay_instruction() {
    let ix = max_repay(key(1), key(2), key(3), key(4), key(5), key(6), key(7), key(8));
    assert_eq!(ix.program_id, key(1));
    assert_eq!(ix.data, vec![1]);
    assert_eq!(
        ix.accounts,
        vec![
            AccountMeta::new_readonly(key(2), false),
            AccountMeta::new(key(3), false),
            AccountMeta::new(key(4), false),
            AccountMeta::new(key(5), false),
            AccountMeta::new(key(6), false),
            AccountMeta::new(key(7), false),
            AccountMeta::new_readonly(key(8), true),
            AccountMeta::new_readonly(token_id(), false),
        ]
    );
}

#[test]
fn max_deposit_instruction() {
    let ix = max_deposit(
        key(1), key(2), key(3), key(4), key(5), key(6), key(7), key(8), key(9), key(10), key(11),
        key(12), key(13), key(14),
    )
    .unwrap();
    assert_eq!(ix.program_id, key(1));
    assert_eq!(ix.data, vec![2]);
    assert_eq!(
        ix.accounts,
        vec![
            AccountMeta::new_readonly(key(2), false),
            AccountMeta::new(key(3), false),
            AccountMeta::new(key(4), false),
            AccountMeta::new(key(5), false),
            AccountMeta::new(key(6), false),
            AccountMeta::new(key(7), false),
            AccountMeta::new_readonly(key(8), false),
            AccountMeta::new_readonly(authority(&key(8), &key(2)), false),
            AccountMeta::new(key(9), false),
            AccountMeta::new(key(10), false),
            AccountMeta::new(key(11), true),
            AccountMeta::new_readonly(key(12), false),
            AccountMeta::new_readonly(key(13), false),
            AccountMeta::new_readonly(key(14), true),
            AccountMeta::new_readonly(token_id(), false),
        ]
    );
}

#[test]
fn wrapper_begin_and_plan() {
    let liquidate = WrapperInstruction::LiquidateWithoutReceivingCtokens { liquidity_amount: 9 };
    assert_eq!(begin(&liquidate.try_to_vec(), 16), Ok(liquidate));
    assert_eq!(begin(&liquidate.try_to_vec(), 15), Err(WrapperFailure::NotEnoughAccountKeys));
    assert_eq!(begin(&[1], 8), Ok(WrapperInstruction::RepayMax));
    assert_eq!(begin(&[1], 7), Err(WrapperFailure::NotEnoughAccountKeys));
    assert_eq!(begin(&[2], 15), Ok(WrapperInstruction::DepositMax));
    assert_eq!(begin(&[2], 14), Err(WrapperFailure::NotEnoughAccountKeys));
    assert_eq!(begin(&[7], 100), Err(WrapperFailure::InvalidInstructionData));
    assert_eq!(begin(&[], 100), Err(WrapperFailure::InvalidInstructionData));
    let data = token_account(500);
    assert_eq!(
        plan(liquidate, &data, 0, Decimal::zero()),
        Ok(WrapperAction::Liquidate { liquidity_amount: 9, ctoken_balance_before: 500 })
    );
    assert_eq!(
        plan(WrapperInstruction::RepayMax, &data, 0, Decimal::zero()),
        Ok(WrapperAction::Repay { liquidity_amount: 500 })
    );
    assert_eq!(
        plan(WrapperInstruction::DepositMax, &data, 1000, Decimal::from(700u64)),
        Ok(WrapperAction::Deposit { liquidity_amount: 300 })
    );
    assert_eq!(
        plan(WrapperInstruction::DepositMax, &data, 1000, Decimal::from(100u64)),
        Ok(WrapperAction::Deposit { liquidity_amount: 500 })
    );
    assert_eq!(
        plan(WrapperInstruction::RepayMax, &data[..100], 0, Decimal::zero()),
        Err(WrapperFailure::InvalidAccountData)
    );
    assert_eq!(conclude_liquidation(500, &token_account(500)), Ok(()));
    assert_eq!(conclude_liquidation(500, &token_account(499)), Ok(()));
    assert_eq!(
        conclude_liquidation(500, &token_account(501)),
        Err(WrapperFailure::Wrapper(WrapperError::ReceivedCTokens))
    );
    assert_eq!(conclude_liquidation(500, &[]), Err(WrapperFailure::InvalidAccountData));
}
