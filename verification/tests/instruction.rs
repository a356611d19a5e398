use solana_program::pubkey::Pubkey as SolanaPubkey;
use token_lending::error::LendingError;
use token_lending::instruction::{
    borrow_obligation_liquidity, deposit_obligation_collateral, deposit_reserve_liquidity,
    deposit_reserve_liquidity_and_obligation_collateral, find_market_authority,
    flash_borrow_reserve_liquidity, flash_repay_reserve_liquidity, init_lending_market,
    init_obligation, init_reserve, liquidate_obligation,
    liquidate_obligation_and_redeem_reserve_collateral, push_reserve_config,
    read_reserve_config, redeem_fees, redeem_reserve_collateral, refresh_obligation,
    refresh_reserve, repay_obligation_liquidity, set_lending_market_owner,
    update_reserve_config, withdraw_obligation_collateral,
    withdraw_obligation_collateral_and_redeem_reserve_collateral, AccountMeta, Instruction,
    LendingInstruction, RESERVE_CONFIG_LEN,
};
use token_lending::pubkey::Pubkey;
use token_lending::state::reserve::{ReserveConfig, ReserveFees};

fn key(byte: u8) -> Pubkey {
    Pubkey([byte; 32])
}

fn authority(market: &Pubkey, program: &Pubkey) -> Pubkey {
    let (address, _) = SolanaPubkey::find_program_address(
        &[&market.0[..32]],
        &SolanaPubkey::new_from_array(program.0),
    );
    Pubkey(address.to_bytes())
}

fn token_id() -> Pubkey {
    Pubkey(spl_token::id().to_bytes())
}

fn rent_id() -> Pubkey {
    Pubkey(solana_program::sysvar::rent::id().to_bytes())
}

fn instructions_id() -> Pubkey {
    Pubkey(solana_program::sysvar::instructions::id().to_bytes())
}

fn config() -> ReserveConfig {
    ReserveConfig {
        optimal_utilization_rate: 80,
        loan_to_value_ratio: 50,
        liquidation_bonus: 5,
        max_liquidation_bonus: 7,
        liquidation_threshold: 55,
        max_liquidation_threshold: 65,
        min_borrow_rate: 1,
        optimal_borrow_rate: 0x0204,
        max_borrow_rate: 300,
        fees: ReserveFees {
            borrow_fee_wad: 100_000_000_000,
            flash_loan_fee_wad: 3_000_000_000_000_000,
            host_fee_percentage: 20,
        },
        deposit_limit: 0x1122334455667788,
        borrow_limit: u64::MAX,
        fee_receiver: key(0xFE),
        added_borrow_weight_bps: 1234,
    }
}

#[test]
fn init_lending_market_instruction() {
    let ix = init_lending_market(
        key(1),
        key(2),
        [7; 32],
        key(3),
        key(4),
        key(5),
    );
    assert_eq!(ix.program_id, key(1));
    assert_eq!(ix.data, (LendingInstruction::InitLendingMarket { owner: key(2), quote_currency: [7; 32] }).try_to_vec());
    assert_eq!(
        ix.accounts,
        vec![
            AccountMeta::new(key(3), false),
            AccountMeta::new_readonly(rent_id(), false),
            AccountMeta::new_readonly(token_id(), false),
            AccountMeta::new_readonly(key(4), false),
            AccountMeta::new_readonly(key(5), false),
        ]
    );
}

#[test]
fn set_lending_market_owner_instruction() {
    let ix = set_lending_market_owner(
        key(1),
        key(2),
        key(3),
        key(4),
    );
    assert_eq!(ix.program_id, key(1));
    assert_eq!(ix.data, (LendingInstruction::SetLendingMarketOwner { new_owner: key(4) }).try_to_vec());
    assert_eq!(
        ix.accounts,
        vec![
            AccountMeta::new(key(2), false),
            AccountMeta::new_readonly(key(3), true),
        ]
    );
}

#[test]
fn init_reserve_instruction() {
    let ix = init_reserve(
        key(1),
        987_654_321,
        config(),
        key(2),
        key(3),
        key(4),
        key(5),
        key(6),
        key(7),
        key(8),
        key(9),
        key(10),
        key(11),
        key(12),
        key(13),
        key(14),
    ).unwrap();
    assert_eq!(ix.program_id, key(1));
    assert_eq!(ix.data, (LendingInstruction::InitReserve { liquidity_amount: 987_654_321, config: config() }).try_to_vec());
    assert_eq!(
        ix.accounts,
        vec![
            AccountMeta::new(key(2), false),
            AccountMeta::new(key(3), false),
            AccountMeta::new(key(4), false),
            AccountMeta::new_readonly(key(5), false),
            AccountMeta::new(key(6), false),
            AccountMeta::new(config().fee_receiver, false),
            AccountMeta::new(key(7), false),
            AccountMeta::new(key(8), false),
            AccountMeta::new_readonly(key(9), false),
            AccountMeta::new_readonly(key(10), false),
            AccountMeta::new_readonly(key(11), false),
            AccountMeta::new_readonly(key(12), false),
            AccountMeta::new_readonly(authority(&key(12), &key(1)), false),
            AccountMeta::new_readonly(key(13), true),
            AccountMeta::new_readonly(key(14), true),
            AccountMeta::new_readonly(rent_id(), false),
            AccountMeta::new_readonly(token_id(), false),
        ]
    );
}

#[test]
fn refresh_reserve_instruction() {
    let ix = refresh_reserve(
        key(1),
        key(2),
        key(3),
        key(4),
    );
    assert_eq!(ix.program_id, key(1));
    assert_eq!(ix.data, (LendingInstruction::RefreshReserve).try_to_vec());
    assert_eq!(
        ix.accounts,
        vec![
            AccountMeta::new(key(2), false),
            AccountMeta::new_readonly(key(3), false),
            AccountMeta::new_readonly(key(4), false),
        ]
    );
}

#[test]
fn deposit_reserve_liquidity_instruction() {
    let ix = deposit_reserve_liquidity(
        key(1),
        987_654_321,
        key(2),
        key(3),
        key(4),
        key(5),
        key(6),
        key(7),
        key(8),
    ).unwrap();
    assert_eq!(ix.program_id, key(1));
    assert_eq!(ix.data, (LendingInstruction::DepositReserveLiquidity { liquidity_amount: 987_654_321 }).try_to_vec());
    assert_eq!(
        ix.accounts,
        vec![
            AccountMeta::new(key(2), false),
            AccountMeta::new(key(3), false),
            AccountMeta::new(key(4), false),
            AccountMeta::new(key(5), false),
            AccountMeta::new(key(6), false),
            AccountMeta::new_readonly(key(7), false),
            AccountMeta::new_readonly(authority(&key(7), &key(1)), false),
            AccountMeta::new_readonly(key(8), true),
            AccountMeta::new_readonly(token_id(), false),
        ]
    );
}

#[test]
fn redeem_reserve_collateral_instruction() {
    let ix = redeem_reserve_collateral(
        key(1),
        987_654_321,
        key(2),
        key(3),
        key(4),
        key(5),
        key(6),
        key(7),
        key(8),
    ).unwrap();
    assert_eq!(ix.program_id, key(1));
    assert_eq!(ix.data, (LendingInstruction::RedeemReserveCollateral { collateral_amount: 987_654_321 }).try_to_vec());
    assert_eq!(
        ix.accounts,
        vec![
            AccountMeta::new(key(2), false),
            AccountMeta::new(key(3), false),
            AccountMeta::new(key(4), false),
            AccountMeta::new(key(5), false),
            AccountMeta::new(key(6), false),
            AccountMeta::new_readonly(key(7), false),
            AccountMeta::new_readonly(authority(&key(7), &key(1)), false),
            AccountMeta::new_readonly(key(8), true),
            AccountMeta::new_readonly(token_id(), false),
        ]
    );
}

#[test]
fn init_obligation_instruction() {
    let ix = init_obligation(
        key(1),
        key(2),
        key(3),
        key(4),
    );
    assert_eq!(ix.program_id, key(1));
    assert_eq!(ix.data, (LendingInstruction::InitObligation).try_to_vec());
    assert_eq!(
        ix.accounts,
        vec![
            AccountMeta::new(key(2), false),
            AccountMeta::new_readonly(key(3), false),
            AccountMeta::new_readonly(key(4), true),
            AccountMeta::new_readonly(rent_id(), false),
            AccountMeta::new_readonly(token_id(), false),
        ]
    );
}

#[test]
fn deposit_obligation_collateral_instruction() {
    let ix = deposit_obligation_collateral(
        key(1),
        987_654_321,
        key(2),
        key(3),
        key(4),
        key(5),
        key(6),
        key(7),
        key(8),
    );
    assert_eq!(ix.program_id, key(1));
    assert_eq!(ix.data, (LendingInstruction::DepositObligationCollateral { collateral_amount: 987_654_321 }).try_to_vec());
    assert_eq!(
        ix.accounts,
        vec![
            AccountMeta::new(key(2), false),
            AccountMeta::new(key(3), false),
            AccountMeta::new(key(4), false),
            AccountMeta::new(key(5), false),
            AccountMeta::new_readonly(key(6), false),
            AccountMeta::new_readonly(key(7), true),
            AccountMeta::new_readonly(key(8), true),
            AccountMeta::new_readonly(token_id(), false),
        ]
    );
}

#[test]
fn deposit_reserve_liquidity_and_obligation_collateral_instruction() {
    let ix = deposit_reserve_liquidity_and_obligation_collateral(
        key(1),
        987_654_321,
        key(2),
        key(3),
        key(4),
        key(5),
        key(6),
        key(7),
        key(8),
        key(9),
        key(10),
        key(11),
        key(12),
        key(13),
    ).unwrap();
    assert_eq!(ix.program_id, key(1));
    assert_eq!(ix.data, (LendingInstruction::DepositReserveLiquidityAndObligationCollateral { liquidity_amount: 987_654_321 }).try_to_vec());
    assert_eq!(
        ix.accounts,
        vec![
            AccountMeta::new(key(2), false),
            AccountMeta::new(key(3), false),
            AccountMeta::new(key(4), false),
            AccountMeta::new(key(5), false),
            AccountMeta::new(key(6), false),
            AccountMeta::new_readonly(key(7), false),
            AccountMeta::new_readonly(authority(&key(7), &key(1)), false),
            AccountMeta::new(key(8), false),
            AccountMeta::new(key(9), false),
            AccountMeta::new(key(10), true),
            AccountMeta::new_readonly(key(11), false),
            AccountMeta::new_readonly(key(12), false),
            AccountMeta::new_readonly(key(13), true),
            AccountMeta::new_readonly(token_id(), false),
        ]
    );
}

#[test]
fn withdraw_obligation_collateral_and_redeem_reserve_collateral_instruction() {
    let ix = withdraw_obligation_collateral_and_redeem_reserve_collateral(
        key(1),
        987_654_321,
        key(2),
        key(3),
        key(4),
        key(5),
        key(6),
        key(7),
        key(8),
        key(9),
        key(10),
        key(11),
    ).unwrap();
    assert_eq!(ix.program_id, key(1));
    assert_eq!(ix.data, (LendingInstruction::WithdrawObligationCollateralAndRedeemReserveCollateral { collateral_amount: 987_654_321 }).try_to_vec());
    assert_eq!(
        ix.accounts,
        vec![
            AccountMeta::new(key(2), false),
            AccountMeta::new(key(3), false),
            AccountMeta::new(key(4), false),
            AccountMeta::new(key(5), false),
            AccountMeta::new_readonly(key(6), false),
            AccountMeta::new_readonly(authority(&key(6), &key(1)), false),
            AccountMeta::new(key(7), false),
            AccountMeta::new(key(8), false),
            AccountMeta::new(key(9), false),
            AccountMeta::new_readonly(key(10), true),
            AccountMeta::new_readonly(key(11), true),
            AccountMeta::new_readonly(token_id(), false),
        ]
    );
}

#[test]
fn withdraw_obligation_collateral_instruction() {
    let ix = withdraw_obligation_collateral(
        key(1),
        987_654_321,
        key(2),
        key(3),
        key(4),
        key(5),
        key(6),
        key(7),
    ).unwrap();
    assert_eq!(ix.program_id, key(1));
    assert_eq!(ix.data, (LendingInstruction::WithdrawObligationCollateral { collateral_amount: 987_654_321 }).try_to_vec());
    assert_eq!(
        ix.accounts,
        vec![
            AccountMeta::new(key(2), false),
            AccountMeta::new(key(3), false),
            AccountMeta::new_readonly(key(4), false),
            AccountMeta::new(key(5), false),
            AccountMeta::new_readonly(key(6), false),
            AccountMeta::new_readonly(authority(&key(6), &key(1)), false),
            AccountMeta::new_readonly(key(7), true),
            AccountMeta::new_readonly(token_id(), false),
        ]
    );
}

#[test]
fn repay_obligation_liquidity_instruction() {
    let ix = repay_obligation_liquidity(
        key(1),
        987_654_321,
        key(2),
        key(3),
        key(4),
        key(5),
        key(6),
        key(7),
    );
    assert_eq!(ix.program_id, key(1));
    assert_eq!(ix.data, (LendingInstruction::RepayObligationLiquidity { liquidity_amount: 987_654_321 }).try_to_vec());
    assert_eq!(
        ix.accounts,
        vec![
            AccountMeta::new(key(2), false),
            AccountMeta::new(key(3), false),
            AccountMeta::new(key(4), false),
            AccountMeta::new(key(5), false),
            AccountMeta::new_readonly(key(6), false),
            AccountMeta::new_readonly(key(7), true),
            AccountMeta::new_readonly(token_id(), false),
        ]
    );
}

#[test]
fn liquidate_obligation_instruction() {
    let ix = liquidate_obligation(
        key(1),
        987_654_321,
        key(2),
        key(3),
        key(4),
        key(5),
        key(6),
        key(7),
        key(8),
        key(9),
        key(10),
    ).unwrap();
    assert_eq!(ix.program_id, key(1));
    assert_eq!(ix.data, (LendingInstruction::LiquidateObligation { liquidity_amount: 987_654_321 }).try_to_vec());
    assert_eq!(
        ix.accounts,
        vec![
            AccountMeta::new(key(2), false),
            AccountMeta::new(key(3), false),
            AccountMeta::new(key(4), false),
            AccountMeta::new(key(5), false),
            AccountMeta::new_readonly(key(6), false),
            AccountMeta::new(key(7), false),
            AccountMeta::new(key(8), false),
            AccountMeta::new_readonly(key(9), false),
            AccountMeta::new_readonly(authority(&key(9), &key(1)), false),
            AccountMeta::new_readonly(key(10), true),
            AccountMeta::new_readonly(token_id(), false),
        ]
    );
}

#[test]
fn update_reserve_config_instruction() {
    let ix = update_reserve_config(
        key(1),
        config(),
        key(2),
        key(3),
        key(4),
        key(5),
        key(6),
        key(7),
    ).unwrap();
    assert_eq!(ix.program_id, key(1));
    assert_eq!(ix.data, (LendingInstruction::UpdateReserveConfig { config: config() }).try_to_vec());
    assert_eq!(
        ix.accounts,
        vec![
            AccountMeta::new(key(2), false),
            AccountMeta::new_readonly(key(3), false),
            AccountMeta::new_readonly(authority(&key(3), &key(1)), false),
            AccountMeta::new_readonly(key(4), true),
            AccountMeta::new_readonly(key(5), false),
            AccountMeta::new_readonly(key(6), false),
            AccountMeta::new_readonly(key(7), false),
        ]
    );
}

#[test]
fn liquidate_obligation_and_redeem_reserve_collateral_instruction() {
    let ix = liquidate_obligation_and_redeem_reserve_collateral(
        key(1),
        987_654_321,
        key(2),
        key(3),
        key(4),
        key(5),
        key(6),
        key(7),
        key(8),
        key(9),
        key(10),
        key(11),
        key(12),
        key(13),
        key(14),
    ).unwrap();
    assert_eq!(ix.program_id, key(1));
    assert_eq!(ix.data, (LendingInstruction::LiquidateObligationAndRedeemReserveCollateral { liquidity_amount: 987_654_321 }).try_to_vec());
    assert_eq!(
        ix.accounts,
        vec![
            AccountMeta::new(key(2), false),
            AccountMeta::new(key(3), false),
            AccountMeta::new(key(4), false),
            AccountMeta::new(key(5), false),
            AccountMeta::new(key(6), false),
            AccountMeta::new(key(7), false),
            AccountMeta::new(key(8), false),
            AccountMeta::new(key(9), false),
            AccountMeta::new(key(10), false),
            AccountMeta::new(key(11), false),
            AccountMeta::new(key(12), false),
            AccountMeta::new_readonly(key(13), false),
            AccountMeta::new_readonly(authority(&key(13), &key(1)), false),
            AccountMeta::new_readonly(key(14), true),
            AccountMeta::new_readonly(token_id(), false),
        ]
    );
}

#[test]
fn redeem_fees_instruction() {
    let ix = redeem_fees(
        key(1),
        key(2),
        key(3),
        key(4),
        key(5),
    ).unwrap();
    assert_eq!(ix.program_id, key(1));
    assert_eq!(ix.data, (LendingInstruction::RedeemFees).try_to_vec());
    assert_eq!(
        ix.accounts,
        vec![
            AccountMeta::new(key(2), false),
            AccountMeta::new(key(3), false),
            AccountMeta::new(key(4), false),
            AccountMeta::new_readonly(key(5), false),
            AccountMeta::new_readonly(authority(&key(5), &key(1)), false),
            AccountMeta::new_readonly(token_id(), false),
        ]
    );
}

#[test]
fn flash_borrow_reserve_liquidity_instruction() {
    let ix = flash_borrow_reserve_liquidity(
        key(1),
        987_654_321,
        key(2),
        key(3),
        key(4),
        key(5),
    ).unwrap();
    assert_eq!(ix.program_id, key(1));
    assert_eq!(ix.data, (LendingInstruction::FlashBorrowReserveLiquidity { liquidity_amount: 987_654_321 }).try_to_vec());
    assert_eq!(
        ix.accounts,
        vec![
            AccountMeta::new(key(2), false),
            AccountMeta::new(key(3), false),
            AccountMeta::new(key(4), false),
            AccountMeta::new_readonly(key(5), false),
            AccountMeta::new_readonly(authority(&key(5), &key(1)), false),
            AccountMeta::new_readonly(instructions_id(), false),
            AccountMeta::new_readonly(token_id(), false),
        ]
    );
}

#[test]
fn flash_repay_reserve_liquidity_instruction() {
    let ix = flash_repay_reserve_liquidity(
        key(1),
        987_654_321,
        3,
        key(2),
        key(3),
        key(4),
        key(5),
        key(6),
        key(7),
        key(8),
    );
    assert_eq!(ix.program_id, key(1));
    assert_eq!(ix.data, (LendingInstruction::FlashRepayReserveLiquidity { liquidity_amount: 987_654_321, borrow_instruction_index: 3 }).try_to_vec());
    assert_eq!(
        ix.accounts,
        vec![
            AccountMeta::new(key(2), false),
            AccountMeta::new(key(3), false),
            AccountMeta::new(key(4), false),
            AccountMeta::new(key(5), false),
            AccountMeta::new(key(6), false),
            AccountMeta::new_readonly(key(7), false),
            AccountMeta::new_readonly(key(8), true),
            AccountMeta::new_readonly(instructions_id(), false),
            AccountMeta::new_readonly(token_id(), false),
        ]
    );
}

#[test]
fn refresh_obligation_instruction() {
    let ix = refresh_obligation(key(1), key(2), vec![key(3), key(4), key(5)]);
    assert_eq!(ix.program_id, key(1));
    assert_eq!(ix.data, vec![7]);
    assert_eq!(
        ix.accounts,
        vec![
            AccountMeta::new(key(2), false),
            AccountMeta::new_readonly(key(3), false),
            AccountMeta::new_readonly(key(4), false),
            AccountMeta::new_readonly(key(5), false),
        ]
    );
    let none = refresh_obligation(key(1), key(2), vec![]);
    assert_eq!(none.accounts, vec![AccountMeta::new(key(2), false)]);
}

#[test]
fn borrow_obligation_liquidity_instruction() {
    let fixed = vec![
        AccountMeta::new(key(2), false),
        AccountMeta::new(key(3), false),
        AccountMeta::new(key(4), false),
        AccountMeta::new(key(5), false),
        AccountMeta::new(key(6), false),
        AccountMeta::new_readonly(key(7), false),
        AccountMeta::new_readonly(authority(&key(7), &key(1)), false),
        AccountMeta::new_readonly(key(8), true),
        AccountMeta::new_readonly(token_id(), false),
    ];
    let ix = borrow_obligation_liquidity(
        key(1), 55, key(2), key(3), key(4), key(5), key(6), key(7), key(8), None,
    )
    .unwrap();
    assert_eq!(ix.program_id, key(1));
    assert_eq!(ix.data, (LendingInstruction::BorrowObligationLiquidity { liquidity_amount: 55 }).try_to_vec());
    assert_eq!(ix.accounts, fixed);
    let with_host = borrow_obligation_liquidity(
        key(1), 55, key(2), key(3), key(4), key(5), key(6), key(7), key(8), Some(key(9)),
    )
    .unwrap();
    let mut expected = fixed.clone();
    expected.push(AccountMeta::new(key(9), false));
    assert_eq!(with_host.accounts, expected);
}

#[test]
fn market_authority_is_the_program_derived_address() {
    for (market, program) in [(key(1), key(2)), (key(2), key(1)), (key(200), token_id())] {
        let (address, bump) = SolanaPubkey::find_program_address(
            &[&market.0[..32]],
            &SolanaPubkey::new_from_array(program.0),
        );
        assert_eq!(
            find_market_authority(&market, &program),
            Some((Pubkey(address.to_bytes()), bump))
        );
        assert_ne!(Pubkey(address.to_bytes()), market);
        assert_ne!(Pubkey(address.to_bytes()), program);
    }
}

#[test]
fn account_meta_constructors() {
    assert_eq!(
        AccountMeta::new(key(1), true),
        AccountMeta { pubkey: key(1), is_signer: true, is_writable: true }
    );
    assert_eq!(
        AccountMeta::new_readonly(key(1), false),
        AccountMeta { pubkey: key(1), is_signer: false, is_writable: false }
    );
    let ix = Instruction { program_id: key(1), accounts: vec![], data: vec![1] };
    assert_eq!(ix.clone(), ix);
}

#[test]
fn instruction_bytes_follow_borsh() {
    let amount = 0x0102030405060708u64;
    let cases: Vec<(LendingInstruction, Vec<u8>)> = vec![
        (
            LendingInstruction::InitLendingMarket { owner: key(9), quote_currency: [7; 32] },
            borsh::to_vec(&(0u8, [9u8; 32], [7u8; 32])).unwrap(),
        ),
        (
            LendingInstruction::SetLendingMarketOwner { new_owner: key(9) },
            borsh::to_vec(&(1u8, [9u8; 32])).unwrap(),
        ),
        (LendingInstruction::RefreshReserve, vec![3]),
        (
            LendingInstruction::DepositReserveLiquidity { liquidity_amount: amount },
            borsh::to_vec(&(4u8, amount)).unwrap(),
        ),
        (
            LendingInstruction::RedeemReserveCollateral { collateral_amount: amount },
            borsh::to_vec(&(5u8, amount)).unwrap(),
        ),
        (LendingInstruction::InitObligation, vec![6]),
        (LendingInstruction::RefreshObligation, vec![7]),
        (
            LendingInstruction::DepositObligationCollateral { collateral_amount: amount },
            borsh::to_vec(&(8u8, amount)).unwrap(),
        ),
        (
            LendingInstruction::WithdrawObligationCollateral { collateral_amount: amount },
            borsh::to_vec(&(9u8, amount)).unwrap(),
        ),
        (
            LendingInstruction::BorrowObligationLiquidity { liquidity_amount: amount },
            borsh::to_vec(&(10u8, amount)).unwrap(),
        ),
        (
            LendingInstruction::RepayObligationLiquidity { liquidity_amount: amount },
            borsh::to_vec(&(11u8, amount)).unwrap(),
        ),
        (
            LendingInstruction::LiquidateObligation { liquidity_amount: amount },
            borsh::to_vec(&(12u8, amount)).unwrap(),
        ),
        (LendingInstruction::FlashLoan { amount }, borsh::to_vec(&(13u8, amount)).unwrap()),
        (
            LendingInstruction::DepositReserveLiquidityAndObligationCollateral {
                liquidity_amount: amount,
            },
            borsh::to_vec(&(14u8, amount)).unwrap(),
        ),
        (
            LendingInstruction::WithdrawObligationCollateralAndRedeemReserveCollateral {
                collateral_amount: amount,
            },
            borsh::to_vec(&(15u8, amount)).unwrap(),
        ),
        (
            LendingInstruction::LiquidateObligationAndRedeemReserveCollateral {
                liquidity_amount: amount,
            },
            borsh::to_vec(&(17u8, amount)).unwrap(),
        ),
        (LendingInstruction::RedeemFees, vec![18]),
        (
            LendingInstruction::FlashBorrowReserveLiquidity { liquidity_amount: amount },
            borsh::to_vec(&(19u8, amount)).unwrap(),
        ),
        (
            LendingInstruction::FlashRepayReserveLiquidity {
                liquidity_amount: amount,
                borrow_instruction_index: 3,
            },
            borsh::to_vec(&(20u8, amount, 3u8)).unwrap(),
        ),
    ];
    for (instruction, bytes) in cases {
        assert_eq!(instruction.try_to_vec(), bytes);
        assert_eq!(LendingInstruction::unpack(&bytes), Ok(instruction));
    }
    assert_eq!(
        (LendingInstruction::DepositReserveLiquidity { liquidity_amount: amount }).try_to_vec(),
        vec![4, 8, 7, 6, 5, 4, 3, 2, 1]
    );
}

#[test]
fn reserve_config_bytes_follow_borsh() {
    let c = config();
    let expected = borsh::to_vec(&(
        (
            c.optimal_utilization_rate,
            c.loan_to_value_ratio,
            c.liquidation_bonus,
            c.max_liquidation_bonus,
            c.liquidation_threshold,
            c.max_liquidation_threshold,
        ),
        (c.min_borrow_rate, c.optimal_borrow_rate, c.max_borrow_rate),
        (c.fees.borrow_fee_wad, c.fees.flash_loan_fee_wad, c.fees.host_fee_percentage),
        (c.deposit_limit, c.borrow_limit, c.fee_receiver.0, c.added_borrow_weight_bps),
    ))
    .unwrap();
    assert_eq!(expected.len(), RESERVE_CONFIG_LEN);
    let mut buf = vec![0xAB];
    push_reserve_config(&mut buf, &c);
    assert_eq!(buf[0], 0xAB);
    assert_eq!(&buf[1..], &expected[..]);
    assert_eq!(read_reserve_config(&buf, 1), c);
    let init = LendingInstruction::InitReserve { liquidity_amount: 77, config: c };
    let mut bytes = vec![2u8];
    bytes.extend_from_slice(&77u64.to_le_bytes());
    bytes.extend_from_slice(&expected);
    assert_eq!(init.try_to_vec(), bytes);
    assert_eq!(LendingInstruction::unpack(&bytes), Ok(init));
    let update = LendingInstruction::UpdateReserveConfig { config: c };
    let mut bytes = vec![16u8];
    bytes.extend_from_slice(&expected);
    assert_eq!(update.try_to_vec(), bytes);
    assert_eq!(LendingInstruction::unpack(&bytes), Ok(update));
}

#[test]
fn unpack_refuses_malformed_instructions() {
    let bad = Err(LendingError::InstructionUnpackError);
    assert_eq!(LendingInstruction::unpack(&[]), bad);
    assert_eq!(LendingInstruction::unpack(&[21]), bad);
    assert_eq!(LendingInstruction::unpack(&[255, 0, 0]), bad);
    // a byte too many and a byte too few
    assert_eq!(LendingInstruction::unpack(&[3, 0]), bad);
    assert_eq!(LendingInstruction::unpack(&[4, 1, 2, 3, 4, 5, 6, 7]), bad);
    assert_eq!(LendingInstruction::unpack(&[4, 1, 2, 3, 4, 5, 6, 7, 8, 9]), bad);
    assert_eq!(LendingInstruction::unpack(&[20, 1, 2, 3, 4, 5, 6, 7, 8]), bad);
    assert_eq!(LendingInstruction::unpack(&vec![2u8; 93]), bad);
    assert!(LendingInstruction::unpack(&vec![2u8; 94]).is_ok());
    assert_eq!(LendingInstruction::unpack(&vec![0u8; 64]), bad);
    assert!(LendingInstruction::unpack(&vec![0u8; 65]).is_ok());
}
