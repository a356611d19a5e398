//! Convenience operations around the lending program: liquidating without
//! accepting collateral shares, repaying and depositing whatever a token
//! account holds.

use crate::error::LendingError;
use crate::instruction::{
    find_market_authority, program_address, readonly, token_program_bytes, token_program_id,
    writable, AccountMeta, AccountMetaView, Instruction, InstructionView,
};
use crate::math::decimal::Decimal;
use crate::packing::{le_u64, push_u64_le, read_u64_le, u64_le};
use crate::pubkey::Pubkey;
use solana_program::program_pack::Pack;
use vstd::prelude::*;
use vstd::std_specs::convert::FromSpec;

verus! {

broadcast use crate::math::decimal::lemma_scaled_view;

/// Instruction types
#[derive(Clone, Copy, Debug, PartialEq, Eq, Structural)]
pub enum WrapperInstruction {
    /// Liquidate, and fail if the liquidator was paid in collateral shares
    /// rather than in liquidity.
    LiquidateWithoutReceivingCtokens {
        /// amount to liquidate
        liquidity_amount: u64,
    },
    /// Repay obligation liquidity with max amount in token account
    RepayMax,
    /// Deposit max
    DepositMax,
}

/// Errors of the wrapper operations.
#[derive(Clone, Copy, Debug, PartialEq, Eq, Structural)]
pub enum WrapperError {
    /// Received ctokens
    ReceivedCTokens,
}

impl WrapperError {
    /// The number that the error goes by.
    pub fn code(&self) -> (r: u32)
        ensures
            r == 0,
    {
        match self {
            WrapperError::ReceivedCTokens => 0,
        }
    }

    /// What the error says.
    pub fn message(&self) -> (r: &'static str)
        ensures
            r@ == "Received ctokens"@,
    {
        match self {
            WrapperError::ReceivedCTokens => "Received ctokens",
        }
    }
}

/// Size of a packed token account.
pub const TOKEN_ACCOUNT_LEN: usize = 165;

impl WrapperInstruction {
    /// The bytes of the instruction: the number of the variant, then its
    /// fields.
    pub open spec fn serialized(self) -> Seq<u8> {
        match self {
            WrapperInstruction::LiquidateWithoutReceivingCtokens { liquidity_amount } => seq![0u8]
                + u64_le(liquidity_amount),
            WrapperInstruction::RepayMax => seq![1u8],
            WrapperInstruction::DepositMax => seq![2u8],
        }
    }

    /// The instruction as bytes.
    pub fn try_to_vec(&self) -> (r: Vec<u8>)
        ensures
            r@ == self.serialized(),
    {
        let mut buf: Vec<u8> = Vec::new();
        match self {
            WrapperInstruction::LiquidateWithoutReceivingCtokens { liquidity_amount } => {
                buf.push(0u8);
                push_u64_le(&mut buf, *liquidity_amount);
            },
            WrapperInstruction::RepayMax => {
                buf.push(1u8);
            },
            WrapperInstruction::DepositMax => {
                buf.push(2u8);
            },
        }
        assert(buf@ =~= self.serialized());
        buf
    }

    /// The instruction that `input` holds, if it holds exactly the bytes of
    /// one.
    pub open spec fn parsed(input: Seq<u8>) -> Option<Self> {
        if input.len() == 9 && input[0] == 0 {
            Some(
                WrapperInstruction::LiquidateWithoutReceivingCtokens {
                    liquidity_amount: le_u64(input.subrange(1, 9)),
                },
            )
        } else if input.len() == 1 && input[0] == 1 {
            Some(WrapperInstruction::RepayMax)
        } else if input.len() == 1 && input[0] == 2 {
            Some(WrapperInstruction::DepositMax)
        } else {
            None
        }
    }

    /// Reads an instruction: `input` has to hold exactly the bytes of one.
    pub fn try_from_slice(input: &[u8]) -> (r: Option<Self>)
        ensures
            r == Self::parsed(input@),
            r is Some ==> r->0.serialized() == input@,
    {
        if input.len() == 9 && input[0] == 0 {
            let liquidity_amount = read_u64_le(input, 1);
            proof {
                crate::packing::lemma_le_u64_round_trip(input@.subrange(1, 9));
                assert(seq![0u8] + input@.subrange(1, 9) =~= input@);
            }
            Some(WrapperInstruction::LiquidateWithoutReceivingCtokens { liquidity_amount })
        } else if input.len() == 1 && input[0] == 1 {
            assert(seq![1u8] =~= input@);
            Some(WrapperInstruction::RepayMax)
        } else if input.len() == 1 && input[0] == 2 {
            assert(seq![2u8] =~= input@);
            Some(WrapperInstruction::DepositMax)
        } else {
            None
        }
    }

    /// How many accounts the instruction takes.
    pub open spec fn accounts_expected_spec(self) -> usize {
        match self {
            WrapperInstruction::LiquidateWithoutReceivingCtokens { .. } => 16usize,
            WrapperInstruction::RepayMax => 8usize,
            WrapperInstruction::DepositMax => 15usize,
        }
    }

    /// How many accounts the instruction takes.
    pub fn accounts_expected(&self) -> (r: usize)
        ensures
            r == self.accounts_expected_spec(),
    {
        match self {
            WrapperInstruction::LiquidateWithoutReceivingCtokens { .. } => 16,
            WrapperInstruction::RepayMax => 8,
            WrapperInstruction::DepositMax => 15,
        }
    }
}

/// The balance that the token program reads from a packed token account, or
/// `None` where it refuses the bytes.
pub uninterp spec fn token_account_amount(data: Seq<u8>) -> Option<u64>;

/// Calls `spl_token::state::Account::unpack_from_slice` and hands back the
/// `amount` of the account. The token program reads the amount from the
/// eight bytes at offset 64; whether it accepts the other fields is left to
/// it. It indexes the first 165 bytes, so the buffer has to hold them.
#[verifier::external_body]
fn unpack_token_amount(data: &[u8]) -> (r: Option<u64>)
    requires
        data@.len() >= TOKEN_ACCOUNT_LEN,
    ensures
        r == token_account_amount(data@),
        r is Some ==> r->0 == le_u64(data@.subrange(64, 72)),
{
    match spl_token::state::Account::unpack_from_slice(data) {
        Ok(account) => Some(account.amount),
        Err(_) => None,
    }
}

/// The balance of the token account in `data`: `None` where the buffer is
/// shorter than a token account or the token program refuses it.
pub fn token_balance(data: &[u8]) -> (r: Option<u64>)
    ensures
        r == (if data@.len() >= TOKEN_ACCOUNT_LEN {
            token_account_amount(data@)
        } else {
            None
        }),
        r is Some ==> r->0 == le_u64(data@.subrange(64, 72)),
{
    if data.len() >= TOKEN_ACCOUNT_LEN {
        unpack_token_amount(data)
    } else {
        None
    }
}

/// The verdict on a liquidation that was to pay out in liquidity:
/// `ReceivedCTokens` where the balance of collateral shares grew.
pub fn check_no_ctokens_received(balance_before: u64, balance_after: u64) -> (r: Result<
    (),
    WrapperError,
>)
    ensures
        r == (if balance_after > balance_before {
            Err::<(), WrapperError>(WrapperError::ReceivedCTokens)
        } else {
            Ok(())
        }),
{
    if balance_after > balance_before {
        Err(WrapperError::ReceivedCTokens)
    } else {
        Ok(())
    }
}

/// What a deposit of everything comes to: the balance, or what the reserve
/// still takes up to its deposit limit if that is less.
pub open spec fn max_deposit_amount_spec(balance: u64, deposit_limit: u64, total_supply: Decimal) -> Result<
    u64,
    LendingError,
> {
    match Decimal::from_spec(deposit_limit).saturating_sub_spec(total_supply).try_floor_u64_spec() {
        Ok(room) => Ok(
            if balance <= room {
                balance
            } else {
                room
            },
        ),
        Err(e) => Err(e),
    }
}

/// The amount to deposit where everything in a token account is to go into
/// a reserve that holds `total_supply` and takes no more than
/// `deposit_limit`.
pub fn max_deposit_amount(balance: u64, deposit_limit: u64, total_supply: Decimal) -> (r: Result<
    u64,
    LendingError,
>)
    ensures
        r == max_deposit_amount_spec(balance, deposit_limit, total_supply),
{
    let room = match Decimal::from(deposit_limit).saturating_sub(total_supply).try_floor_u64() {
        Ok(v) => v,
        Err(e) => {
            return Err(e);
        },
    };
    Ok(
        if balance <= room {
            balance
        } else {
            room
        },
    )
}

/// Why a wrapper operation stopped.
#[derive(Clone, Copy, Debug, PartialEq, Eq, Structural)]
pub enum WrapperFailure {
    /// The instruction data is not an instruction of the wrapper.
    InvalidInstructionData,
    /// Fewer accounts were handed in than the instruction takes.
    NotEnoughAccountKeys,
    /// A token account could not be read.
    InvalidAccountData,
    /// An error of the wrapper itself.
    Wrapper(WrapperError),
    /// An error of the lending protocol.
    Lending(LendingError),
}

/// What the wrapper asks the lending program to do.
#[derive(Clone, Copy, Debug, PartialEq, Eq, Structural)]
pub enum WrapperAction {
    /// Liquidate and redeem; afterwards the balance of collateral shares
    /// must not exceed `ctoken_balance_before`.
    Liquidate {
        /// Amount of liquidity to repay.
        liquidity_amount: u64,
        /// Collateral shares the liquidator held before.
        ctoken_balance_before: u64,
    },
    /// Repay `liquidity_amount` of an obligation's debt.
    Repay {
        /// Amount of liquidity to repay.
        liquidity_amount: u64,
    },
    /// Deposit `liquidity_amount` into a reserve and on into an obligation.
    Deposit {
        /// Amount of liquidity to deposit.
        liquidity_amount: u64,
    },
}

/// The instruction in `input`, given that `account_count` accounts came with
/// it: `InvalidInstructionData` where the bytes are no instruction,
/// `NotEnoughAccountKeys` where accounts are missing.
pub fn begin(input: &[u8], account_count: usize) -> (r: Result<WrapperInstruction, WrapperFailure>)
    ensures
        r == (match WrapperInstruction::parsed(input@) {
            None => Err::<WrapperInstruction, WrapperFailure>(
                WrapperFailure::InvalidInstructionData,
            ),
            Some(instruction) => if account_count < instruction.accounts_expected_spec() {
                Err(WrapperFailure::NotEnoughAccountKeys)
            } else {
                Ok(instruction)
            },
        }),
{
    let instruction = match WrapperInstruction::try_from_slice(input) {
        Some(v) => v,
        None => {
            return Err(WrapperFailure::InvalidInstructionData);
        },
    };
    if account_count < instruction.accounts_expected() {
        return Err(WrapperFailure::NotEnoughAccountKeys);
    }
    Ok(instruction)
}

/// The balance in a token account, as a wrapper operation needs it.
pub open spec fn balance_spec(data: Seq<u8>) -> Result<u64, WrapperFailure> {
    if data.len() >= TOKEN_ACCOUNT_LEN {
        match token_account_amount(data) {
            Some(amount) => Ok(amount),
            None => Err(WrapperFailure::InvalidAccountData),
        }
    } else {
        Err(WrapperFailure::InvalidAccountData)
    }
}

/// The action that an instruction of the wrapper leads to, given the data
/// of the liquidator's collateral account for a liquidation, or of the
/// source liquidity account for the others, and for a deposit the reserve's
/// deposit limit and what it holds.
pub open spec fn plan_spec(
    instruction: WrapperInstruction,
    token_account_data: Seq<u8>,
    deposit_limit: u64,
    total_supply: Decimal,
) -> Result<WrapperAction, WrapperFailure> {
    match balance_spec(token_account_data) {
        Err(e) => Err(e),
        Ok(balance) => match instruction {
            WrapperInstruction::LiquidateWithoutReceivingCtokens { liquidity_amount } => Ok(
                WrapperAction::Liquidate { liquidity_amount, ctoken_balance_before: balance },
            ),
            WrapperInstruction::RepayMax => Ok(WrapperAction::Repay { liquidity_amount: balance }),
            WrapperInstruction::DepositMax => match max_deposit_amount_spec(
                balance,
                deposit_limit,
                total_supply,
            ) {
                Ok(liquidity_amount) => Ok(WrapperAction::Deposit { liquidity_amount }),
                Err(e) => Err(WrapperFailure::Lending(e)),
            },
        },
    }
}

/// Decides what the lending program is asked to do. A liquidation notes
/// the collateral shares held before it; a repayment pays all that the
/// source account holds; a deposit puts in all that the source account
/// holds, as far as the reserve's deposit limit leaves room.
pub fn plan(
    instruction: WrapperInstruction,
    token_account_data: &[u8],
    deposit_limit: u64,
    total_supply: Decimal,
) -> (r: Result<WrapperAction, WrapperFailure>)
    ensures
        r == plan_spec(instruction, token_account_data@, deposit_limit, total_supply),
{
    let balance = match token_balance(token_account_data) {
        Some(v) => v,
        None => {
            return Err(WrapperFailure::InvalidAccountData);
        },
    };
    match instruction {
        WrapperInstruction::LiquidateWithoutReceivingCtokens { liquidity_amount } => Ok(
            WrapperAction::Liquidate { liquidity_amount, ctoken_balance_before: balance },
        ),
        WrapperInstruction::RepayMax => Ok(WrapperAction::Repay { liquidity_amount: balance }),
        WrapperInstruction::DepositMax => match max_deposit_amount(
            balance,
            deposit_limit,
            total_supply,
        ) {
            Ok(liquidity_amount) => Ok(WrapperAction::Deposit { liquidity_amount }),
            Err(e) => Err(WrapperFailure::Lending(e)),
        },
    }
}

/// The verdict once the lending program has run a liquidation:
/// `ReceivedCTokens` where the liquidator's collateral account holds more
/// shares than before.
pub fn conclude_liquidation(ctoken_balance_before: u64, collateral_account_data: &[u8]) -> (r:
    Result<(), WrapperFailure>)
    ensures
        r == (match balance_spec(collateral_account_data@) {
            Err(e) => Err::<(), WrapperFailure>(e),
            Ok(after) => if after > ctoken_balance_before {
                Err(WrapperFailure::Wrapper(WrapperError::ReceivedCTokens))
            } else {
                Ok(())
            },
        }),
{
    let after = match token_balance(collateral_account_data) {
        Some(v) => v,
        None => {
            return Err(WrapperFailure::InvalidAccountData);
        },
    };
    match check_no_ctokens_received(ctoken_balance_before, after) {
        Ok(_) => Ok(()),
        Err(e) => Err(WrapperFailure::Wrapper(e)),
    }
}

/// The accounts of the instruction that `liquidate_without_receiving_ctokens` makes, in order.
pub open spec fn liquidate_without_receiving_ctokens_accounts(
    program_id: Pubkey,
    solend_program_id: Pubkey,
    source_liquidity_pubkey: Pubkey,
    destination_collateral_pubkey: Pubkey,
    destination_liquidity_pubkey: Pubkey,
    repay_reserve_pubkey: Pubkey,
    repay_reserve_liquidity_supply_pubkey: Pubkey,
    withdraw_reserve_pubkey: Pubkey,
    withdraw_reserve_collateral_mint_pubkey: Pubkey,
    withdraw_reserve_collateral_supply_pubkey: Pubkey,
    withdraw_reserve_liquidity_supply_pubkey: Pubkey,
    withdraw_reserve_liquidity_fee_receiver_pubkey: Pubkey,
    obligation_pubkey: Pubkey,
    lending_market_pubkey: Pubkey,
    user_transfer_authority_pubkey: Pubkey,
    authority: (Seq<u8>, u8),
) -> Seq<AccountMetaView> {
    seq![
        readonly(solend_program_id@, false),
        writable(source_liquidity_pubkey@, false),
        writable(destination_collateral_pubkey@, false),
        writable(destination_liquidity_pubkey@, false),
        writable(repay_reserve_pubkey@, false),
        writable(repay_reserve_liquidity_supply_pubkey@, false),
        writable(withdraw_reserve_pubkey@, false),
        writable(withdraw_reserve_collateral_mint_pubkey@, false),
        writable(withdraw_reserve_collateral_supply_pubkey@, false),
        writable(withdraw_reserve_liquidity_supply_pubkey@, false),
        writable(withdraw_reserve_liquidity_fee_receiver_pubkey@, false),
        writable(obligation_pubkey@, false),
        writable(lending_market_pubkey@, false),
        readonly(authority.0, false),
        readonly(user_transfer_authority_pubkey@, true),
        readonly(token_program_bytes(), false),
    ]
}

/// Creates a `LiquidateWithoutReceivingCtokens` instruction. `None` in the event that no authority can be derived for the
/// market.
#[allow(clippy::too_many_arguments)]
pub fn liquidate_without_receiving_ctokens(
    program_id: Pubkey,
    liquidity_amount: u64,
    solend_program_id: Pubkey,
    source_liquidity_pubkey: Pubkey,
    destination_collateral_pubkey: Pubkey,
    destination_liquidity_pubkey: Pubkey,
    repay_reserve_pubkey: Pubkey,
    repay_reserve_liquidity_supply_pubkey: Pubkey,
    withdraw_reserve_pubkey: Pubkey,
    withdraw_reserve_collateral_mint_pubkey: Pubkey,
    withdraw_reserve_collateral_supply_pubkey: Pubkey,
    withdraw_reserve_liquidity_supply_pubkey: Pubkey,
    withdraw_reserve_liquidity_fee_receiver_pubkey: Pubkey,
    obligation_pubkey: Pubkey,
    lending_market_pubkey: Pubkey,
    user_transfer_authority_pubkey: Pubkey,
) -> (r: Option<Instruction>)
    ensures
        match program_address(lending_market_pubkey@, solend_program_id@) {
            Some(authority) => r is Some && r->0@ == (InstructionView {
                program_id: program_id@,
                accounts: liquidate_without_receiving_ctokens_accounts(program_id, solend_program_id, source_liquidity_pubkey, destination_collateral_pubkey, destination_liquidity_pubkey, repay_reserve_pubkey, repay_reserve_liquidity_supply_pubkey, withdraw_reserve_pubkey, withdraw_reserve_collateral_mint_pubkey, withdraw_reserve_collateral_supply_pubkey, withdraw_reserve_liquidity_supply_pubkey, withdraw_reserve_liquidity_fee_receiver_pubkey, obligation_pubkey, lending_market_pubkey, user_transfer_authority_pubkey, authority),
                data: (WrapperInstruction::LiquidateWithoutReceivingCtokens { liquidity_amount }).serialized(),
            }),
            None => r is None,
        },
{
    let authority = match find_market_authority(&lending_market_pubkey, &solend_program_id) {
        Some(found) => found,
        None => {
            return None;
        },
    };
    let mut accounts: Vec<AccountMeta> = Vec::new();
    accounts.push(AccountMeta::new_readonly(solend_program_id, false));
    accounts.push(AccountMeta::new(source_liquidity_pubkey, false));
    accounts.push(AccountMeta::new(destination_collateral_pubkey, false));
    accounts.push(AccountMeta::new(destination_liquidity_pubkey, false));
    accounts.push(AccountMeta::new(repay_reserve_pubkey, false));
    accounts.push(AccountMeta::new(repay_reserve_liquidity_supply_pubkey, false));
    accounts.push(AccountMeta::new(withdraw_reserve_pubkey, false));
    accounts.push(AccountMeta::new(withdraw_reserve_collateral_mint_pubkey, false));
    accounts.push(AccountMeta::new(withdraw_reserve_collateral_supply_pubkey, false));
    accounts.push(AccountMeta::new(withdraw_reserve_liquidity_supply_pubkey, false));
    accounts.push(AccountMeta::new(withdraw_reserve_liquidity_fee_receiver_pubkey, false));
    accounts.push(AccountMeta::new(obligation_pubkey, false));
    accounts.push(AccountMeta::new(lending_market_pubkey, false));
    accounts.push(AccountMeta::new_readonly(authority.0, false));
    accounts.push(AccountMeta::new_readonly(user_transfer_authority_pubkey, true));
    accounts.push(AccountMeta::new_readonly(token_program_id(), false));
    let data = (WrapperInstruction::LiquidateWithoutReceivingCtokens { liquidity_amount }).try_to_vec();
    let instruction = Instruction { program_id, accounts, data };
    assert(instruction@.accounts =~= liquidate_without_receiving_ctokens_accounts(program_id, solend_program_id, source_liquidity_pubkey, destination_collateral_pubkey, destination_liquidity_pubkey, repay_reserve_pubkey, repay_reserve_liquidity_supply_pubkey, withdraw_reserve_pubkey, withdraw_reserve_collateral_mint_pubkey, withdraw_reserve_collateral_supply_pubkey, withdraw_reserve_liquidity_supply_pubkey, withdraw_reserve_liquidity_fee_receiver_pubkey, obligation_pubkey, lending_market_pubkey, user_transfer_authority_pubkey, (authority.0@, authority.1)));
    Some(instruction)
}

/// The accounts of the instruction that `max_repay` makes, in order.
pub open spec fn max_repay_accounts(
    program_id: Pubkey,
    solend_program_id: Pubkey,
    source_liquidity_pubkey: Pubkey,
    destination_liquidity_pubkey: Pubkey,
    repay_reserve_pubkey: Pubkey,
    obligation_pubkey: Pubkey,
    lending_market_pubkey: Pubkey,
    user_transfer_authority_pubkey: Pubkey,
) -> Seq<AccountMetaView> {
    seq![
        readonly(solend_program_id@, false),
        writable(source_liquidity_pubkey@, false),
        writable(destination_liquidity_pubkey@, false),
        writable(repay_reserve_pubkey@, false),
        writable(obligation_pubkey@, false),
        writable(lending_market_pubkey@, false),
        readonly(user_transfer_authority_pubkey@, true),
        readonly(token_program_bytes(), false),
    ]
}

/// max repay instruction
#[allow(clippy::too_many_arguments)]
pub fn max_repay(
    program_id: Pubkey,
    solend_program_id: Pubkey,
    source_liquidity_pubkey: Pubkey,
    destination_liquidity_pubkey: Pubkey,
    repay_reserve_pubkey: Pubkey,
    obligation_pubkey: Pubkey,
    lending_market_pubkey: Pubkey,
    user_transfer_authority_pubkey: Pubkey,
) -> (r: Instruction)
    ensures
        r@ == (InstructionView {
            program_id: program_id@,
            accounts: max_repay_accounts(program_id, solend_program_id, source_liquidity_pubkey, destination_liquidity_pubkey, repay_reserve_pubkey, obligation_pubkey, lending_market_pubkey, user_transfer_authority_pubkey),
            data: (WrapperInstruction::RepayMax).serialized(),
        }),
{
    let mut accounts: Vec<AccountMeta> = Vec::new();
    accounts.push(AccountMeta::new_readonly(solend_program_id, false));
    accounts.push(AccountMeta::new(source_liquidity_pubkey, false));
    accounts.push(AccountMeta::new(destination_liquidity_pubkey, false));
    accounts.push(AccountMeta::new(repay_reserve_pubkey, false));
    accounts.push(AccountMeta::new(obligation_pubkey, false));
    accounts.push(AccountMeta::new(lending_market_pubkey, false));
    accounts.push(AccountMeta::new_readonly(user_transfer_authority_pubkey, true));
    accounts.push(AccountMeta::new_readonly(token_program_id(), false));
    let data = (WrapperInstruction::RepayMax).try_to_vec();
    let instruction = Instruction { program_id, accounts, data };
    assert(instruction@.accounts =~= max_repay_accounts(program_id, solend_program_id, source_liquidity_pubkey, destination_liquidity_pubkey, repay_reserve_pubkey, obligation_pubkey, lending_market_pubkey, user_transfer_authority_pubkey));
    instruction
}

/// The accounts of the instruction that `max_deposit` makes, in order.
pub open spec fn max_deposit_accounts(
    program_id: Pubkey,
    solend_program_id: Pubkey,
    source_liquidity_pubkey: Pubkey,
    user_collateral_pubkey: Pubkey,
    reserve_pubkey: Pubkey,
    reserve_liquidity_supply_pubkey: Pubkey,
    reserve_collateral_mint_pubkey: Pubkey,
    lending_market_pubkey: Pubkey,
    destination_deposit_collateral_pubkey: Pubkey,
    obligation_pubkey: Pubkey,
    obligation_owner_pubkey: Pubkey,
    reserve_liquidity_pyth_oracle_pubkey: Pubkey,
    reserve_liquidity_switchboard_oracle_pubkey: Pubkey,
    user_transfer_authority_pubkey: Pubkey,
    authority: (Seq<u8>, u8),
) -> Seq<AccountMetaView> {
    seq![
        readonly(solend_program_id@, false),
        writable(source_liquidity_pubkey@, false),
        writable(user_collateral_pubkey@, false),
        writable(reserve_pubkey@, false),
        writable(reserve_liquidity_supply_pubkey@, false),
        writable(reserve_collateral_mint_pubkey@, false),
        readonly(lending_market_pubkey@, false),
        readonly(authority.0, false),
        writable(destination_deposit_collateral_pubkey@, false),
        writable(obligation_pubkey@, false),
        writable(obligation_owner_pubkey@, true),
        readonly(reserve_liquidity_pyth_oracle_pubkey@, false),
        readonly(reserve_liquidity_switchboard_oracle_pubkey@, false),
        readonly(user_transfer_authority_pubkey@, true),
        readonly(token_program_bytes(), false),
    ]
}

/// max deposit `None` in the event that no authority can be derived for the
/// market.
#[allow(clippy::too_many_arguments)]
pub fn max_deposit(
    program_id: Pubkey,
    solend_program_id: Pubkey,
    source_liquidity_pubkey: Pubkey,
    user_collateral_pubkey: Pubkey,
    reserve_pubkey: Pubkey,
    reserve_liquidity_supply_pubkey: Pubkey,
    reserve_collateral_mint_pubkey: Pubkey,
    lending_market_pubkey: Pubkey,
    destination_deposit_collateral_pubkey: Pubkey,
    obligation_pubkey: Pubkey,
    obligation_owner_pubkey: Pubkey,
    reserve_liquidity_pyth_oracle_pubkey: Pubkey,
    reserve_liquidity_switchboard_oracle_pubkey: Pubkey,
    user_transfer_authority_pubkey: Pubkey,
) -> (r: Option<Instruction>)
    ensures
        match program_address(lending_market_pubkey@, solend_program_id@) {
            Some(authority) => r is Some && r->0@ == (InstructionView {
                program_id: program_id@,
                accounts: max_deposit_accounts(program_id, solend_program_id, source_liquidity_pubkey, user_collateral_pubkey, reserve_pubkey, reserve_liquidity_supply_pubkey, reserve_collateral_mint_pubkey, lending_market_pubkey, destination_deposit_collateral_pubkey, obligation_pubkey, obligation_owner_pubkey, reserve_liquidity_pyth_oracle_pubkey, reserve_liquidity_switchboard_oracle_pubkey, user_transfer_authority_pubkey, authority),
                data: (WrapperInstruction::DepositMax).serialized(),
            }),
            None => r is None,
        },
{
    let authority = match find_market_authority(&lending_market_pubkey, &solend_program_id) {
        Some(found) => found,
        None => {
            return None;
        },
    };
    let mut accounts: Vec<AccountMeta> = Vec::new();
    accounts.push(AccountMeta::new_readonly(solend_program_id, false));
    accounts.push(AccountMeta::new(source_liquidity_pubkey, false));
    accounts.push(AccountMeta::new(user_collateral_pubkey, false));
    accounts.push(AccountMeta::new(reserve_pubkey, false));
    accounts.push(AccountMeta::new(reserve_liquidity_supply_pubkey, false));
    accounts.push(AccountMeta::new(reserve_collateral_mint_pubkey, false));
    accounts.push(AccountMeta::new_readonly(lending_market_pubkey, false));
    accounts.push(AccountMeta::new_readonly(authority.0, false));
    accounts.push(AccountMeta::new(destination_deposit_collateral_pubkey, false));
    accounts.push(AccountMeta::new(obligation_pubkey, false));
    accounts.push(AccountMeta::new(obligation_owner_pubkey, true));
    accounts.push(AccountMeta::new_readonly(reserve_liquidity_pyth_oracle_pubkey, false));
    accounts.push(AccountMeta::new_readonly(reserve_liquidity_switchboard_oracle_pubkey, false));
    accounts.push(AccountMeta::new_readonly(user_transfer_authority_pubkey, true));
    accounts.push(AccountMeta::new_readonly(token_program_id(), false));
    let data = (WrapperInstruction::DepositMax).try_to_vec();
    let instruction = Instruction { program_id, accounts, data };
    assert(instruction@.accounts =~= max_deposit_accounts(program_id, solend_program_id, source_liquidity_pubkey, user_collateral_pubkey, reserve_pubkey, reserve_liquidity_supply_pubkey, reserve_collateral_mint_pubkey, lending_market_pubkey, destination_deposit_collateral_pubkey, obligation_pubkey, obligation_owner_pubkey, reserve_liquidity_pyth_oracle_pubkey, reserve_liquidity_switchboard_oracle_pubkey, user_transfer_authority_pubkey, (authority.0@, authority.1)));
    Some(instruction)
}

} // verus!
