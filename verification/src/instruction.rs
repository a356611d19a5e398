//! The instructions of the lending program and how they are put together.

use crate::error::LendingError;
use crate::flash_loan::BatchEntry;
use crate::packing::{
    le_u64, lemma_le_u64_round_trip, push_bytes, push_u64_le, read_array, read_u64_le, u64_le,
};
use crate::pubkey::Pubkey;
use crate::state::reserve::{ReserveConfig, ReserveFees};
use vstd::prelude::*;

verus! {

/// An account that an instruction names.
#[derive(Clone, Copy, Debug, PartialEq, Eq)]
pub struct AccountMeta {
    /// Address of the account.
    pub pubkey: Pubkey,
    /// Whether the account has to sign.
    pub is_signer: bool,
    /// Whether the instruction may change the account.
    pub is_writable: bool,
}

/// An account that an instruction names, with its address as bytes.
pub struct AccountMetaView {
    pub pubkey: Seq<u8>,
    pub is_signer: bool,
    pub is_writable: bool,
}

impl View for AccountMeta {
    type V = AccountMetaView;

    open spec fn view(&self) -> AccountMetaView {
        AccountMetaView {
            pubkey: self.pubkey@,
            is_signer: self.is_signer,
            is_writable: self.is_writable,
        }
    }
}

/// A writable account.
pub open spec fn writable(pubkey: Seq<u8>, is_signer: bool) -> AccountMetaView {
    AccountMetaView { pubkey, is_signer, is_writable: true }
}

/// A read-only account.
pub open spec fn readonly(pubkey: Seq<u8>, is_signer: bool) -> AccountMetaView {
    AccountMetaView { pubkey, is_signer, is_writable: false }
}

impl AccountMeta {
    /// A writable account.
    pub fn new(pubkey: Pubkey, is_signer: bool) -> (r: AccountMeta)
        ensures
            r@ == writable(pubkey@, is_signer),
            r.pubkey == pubkey,
    {
        AccountMeta { pubkey, is_signer, is_writable: true }
    }

    /// A read-only account.
    pub fn new_readonly(pubkey: Pubkey, is_signer: bool) -> (r: AccountMeta)
        ensures
            r@ == readonly(pubkey@, is_signer),
            r.pubkey == pubkey,
    {
        AccountMeta { pubkey, is_signer, is_writable: false }
    }
}

/// An instruction for a program.
#[derive(Clone, Debug, PartialEq, Eq)]
pub struct Instruction {
    /// The program that runs the instruction.
    pub program_id: Pubkey,
    /// The accounts it works on, in the order the program expects.
    pub accounts: Vec<AccountMeta>,
    /// What tells the program what to do.
    pub data: Vec<u8>,
}

/// An instruction as plain values.
pub struct InstructionView {
    pub program_id: Seq<u8>,
    pub accounts: Seq<AccountMetaView>,
    pub data: Seq<u8>,
}

impl View for Instruction {
    type V = InstructionView;

    open spec fn view(&self) -> InstructionView {
        InstructionView {
            program_id: self.program_id@,
            accounts: self.accounts@.map_values(|m: AccountMeta| m@),
            data: self.data@,
        }
    }
}

/// The two bytes of `x`, least significant first.
pub open spec fn u16_le(x: u16) -> Seq<u8> {
    seq![(x & 0xff) as u8, ((x >> 8) & 0xff) as u8]
}

/// The number that two bytes hold, least significant first.
pub open spec fn le_u16(s: Seq<u8>) -> u16
    recommends
        s.len() == 2,
{
    (s[0] as u16) | ((s[1] as u16) << 8)
}

/// Writing what was read gives the bytes.
pub proof fn lemma_le_u16_round_trip(s: Seq<u8>)
    requires
        s.len() == 2,
    ensures
        u16_le(le_u16(s)) == s,
{
    let a = s[0];
    let b = s[1];
    assert((((a as u16) | ((b as u16) << 8)) & 0xff) as u8 == a && ((((a as u16) | ((b as u16)
        << 8)) >> 8) & 0xff) as u8 == b) by (bit_vector);
    assert(u16_le(le_u16(s)) =~= s);
}

/// Size of the terms of a reserve inside an instruction.
pub const RESERVE_CONFIG_LEN: usize = 85;

/// The bytes of the terms of a reserve inside an instruction: the fields in
/// their order, numbers least significant byte first.
pub open spec fn reserve_config_bytes(config: ReserveConfig) -> Seq<u8> {
    seq![
        config.optimal_utilization_rate,
        config.loan_to_value_ratio,
        config.liquidation_bonus,
        config.max_liquidation_bonus,
        config.liquidation_threshold,
        config.max_liquidation_threshold,
    ] + u16_le(config.min_borrow_rate) + u16_le(config.optimal_borrow_rate) + u16_le(
        config.max_borrow_rate,
    ) + u64_le(config.fees.borrow_fee_wad) + u64_le(config.fees.flash_loan_fee_wad)
        + seq![config.fees.host_fee_percentage] + u64_le(config.deposit_limit) + u64_le(
        config.borrow_limit,
    ) + config.fee_receiver@ + u64_le(config.added_borrow_weight_bps)
}

/// The terms of a reserve take 85 bytes.
pub proof fn lemma_reserve_config_len(config: ReserveConfig)
    ensures
        reserve_config_bytes(config).len() == RESERVE_CONFIG_LEN,
{
}

fn push_u16_le(dst: &mut Vec<u8>, x: u16)
    ensures
        final(dst)@ == old(dst)@ + u16_le(x),
{
    dst.push((x & 0xff) as u8);
    dst.push(((x >> 8) & 0xff) as u8);
    assert(dst@ =~= old(dst)@ + u16_le(x));
}

fn read_u16_le(src: &[u8], at: usize) -> (x: u16)
    requires
        at + 2 <= src@.len(),
    ensures
        x == le_u16(src@.subrange(at as int, at + 2)),
{
    let _len: usize = src.len();
    (src[at] as u16) | ((src[at + 1] as u16) << 8)
}

/// Appends the terms of a reserve.
pub fn push_reserve_config(dst: &mut Vec<u8>, config: &ReserveConfig)
    ensures
        final(dst)@ == old(dst)@ + reserve_config_bytes(*config),
        reserve_config_bytes(*config).len() == RESERVE_CONFIG_LEN,
{
    let mut buf: Vec<u8> = Vec::new();
    buf.push(config.optimal_utilization_rate);
    buf.push(config.loan_to_value_ratio);
    buf.push(config.liquidation_bonus);
    buf.push(config.max_liquidation_bonus);
    buf.push(config.liquidation_threshold);
    buf.push(config.max_liquidation_threshold);
    push_u16_le(&mut buf, config.min_borrow_rate);
    push_u16_le(&mut buf, config.optimal_borrow_rate);
    push_u16_le(&mut buf, config.max_borrow_rate);
    push_u64_le(&mut buf, config.fees.borrow_fee_wad);
    push_u64_le(&mut buf, config.fees.flash_loan_fee_wad);
    buf.push(config.fees.host_fee_percentage);
    push_u64_le(&mut buf, config.deposit_limit);
    push_u64_le(&mut buf, config.borrow_limit);
    push_bytes(&mut buf, config.fee_receiver.0.as_slice());
    push_u64_le(&mut buf, config.added_borrow_weight_bps);
    assert(buf@ =~= reserve_config_bytes(*config));
    push_bytes(dst, buf.as_slice());
}

/// Reads the terms of a reserve from the 85 bytes at position `at`.
pub fn read_reserve_config(src: &[u8], at: usize) -> (config: ReserveConfig)
    requires
        at + RESERVE_CONFIG_LEN <= src@.len(),
    ensures
        reserve_config_bytes(config) == src@.subrange(at as int, at + RESERVE_CONFIG_LEN),
{
    let _len: usize = src.len();
    let config = ReserveConfig {
        optimal_utilization_rate: src[at],
        loan_to_value_ratio: src[at + 1],
        liquidation_bonus: src[at + 2],
        max_liquidation_bonus: src[at + 3],
        liquidation_threshold: src[at + 4],
        max_liquidation_threshold: src[at + 5],
        min_borrow_rate: read_u16_le(src, at + 6),
        optimal_borrow_rate: read_u16_le(src, at + 8),
        max_borrow_rate: read_u16_le(src, at + 10),
        fees: ReserveFees {
            borrow_fee_wad: read_u64_le(src, at + 12),
            flash_loan_fee_wad: read_u64_le(src, at + 20),
            host_fee_percentage: src[at + 28],
        },
        deposit_limit: read_u64_le(src, at + 29),
        borrow_limit: read_u64_le(src, at + 37),
        fee_receiver: Pubkey::new_from_array(read_array::<32>(src, at + 45)),
        added_borrow_weight_bps: read_u64_le(src, at + 77),
    };
    proof {
        lemma_le_u16_round_trip(src@.subrange(at + 6, at + 8));
        lemma_le_u16_round_trip(src@.subrange(at + 8, at + 10));
        lemma_le_u16_round_trip(src@.subrange(at + 10, at + 12));
        lemma_le_u64_round_trip(src@.subrange(at + 12, at + 20));
        lemma_le_u64_round_trip(src@.subrange(at + 20, at + 28));
        lemma_le_u64_round_trip(src@.subrange(at + 29, at + 37));
        lemma_le_u64_round_trip(src@.subrange(at + 37, at + 45));
        lemma_le_u64_round_trip(src@.subrange(at + 77, at + 85));
        assert(reserve_config_bytes(config) =~= src@.subrange(
            at as int,
            at + RESERVE_CONFIG_LEN,
        ));
    }
    config
}

/// Instructions supported by the lending program.
#[derive(Clone, Copy, Debug, PartialEq, Eq)]
pub enum LendingInstruction {
    /// Initializes a new lending market.
    InitLendingMarket {
        /// Owner authority which can add new reserves
        owner: Pubkey,
        /// Currency market prices are quoted in
        quote_currency: [u8; 32],
    },
    /// Sets the new owner of a lending market.
    SetLendingMarketOwner {
        /// The new owner
        new_owner: Pubkey,
    },
    /// Initializes a new lending market reserve.
    InitReserve {
        /// Initial amount of liquidity to deposit into the new reserve
        liquidity_amount: u64,
        /// Reserve configuration values
        config: ReserveConfig,
    },
    /// Accrue interest and update market price of liquidity on a reserve.
    RefreshReserve,
    /// Deposit liquidity into a reserve in exchange for collateral.
    DepositReserveLiquidity {
        /// Amount of liquidity to deposit in exchange for collateral tokens
        liquidity_amount: u64,
    },
    /// Redeem collateral from a reserve in exchange for liquidity.
    RedeemReserveCollateral {
        /// Amount of collateral tokens to redeem in exchange for liquidity
        collateral_amount: u64,
    },
    /// Initializes a new lending market obligation.
    InitObligation,
    /// Refresh an obligation's accrued interest and collateral and liquidity prices.
    RefreshObligation,
    /// Deposit collateral to an obligation.
    DepositObligationCollateral {
        /// Amount of collateral tokens to deposit
        collateral_amount: u64,
    },
    /// Withdraw collateral from an obligation.
    WithdrawObligationCollateral {
        /// Amount of collateral tokens to withdraw - u64::MAX for up to 100% of deposited amount
        collateral_amount: u64,
    },
    /// Borrow liquidity from a reserve by depositing collateral tokens.
    BorrowObligationLiquidity {
        /// Amount of liquidity to borrow - u64::MAX for 100% of borrowing power
        liquidity_amount: u64,
    },
    /// Repay borrowed liquidity to a reserve.
    RepayObligationLiquidity {
        /// Amount of liquidity to repay - u64::MAX for 100% of borrowed amount
        liquidity_amount: u64,
    },
    /// Repay borrowed liquidity to a reserve to receive collateral at a discount from an unhealthy obligation.
    LiquidateObligation {
        /// Amount of liquidity to repay - u64::MAX for up to 100% of borrowed amount
        liquidity_amount: u64,
    },
    /// Make a flash loan. No longer in use: see `FlashBorrowReserveLiquidity`.
    FlashLoan {
        /// The amount that is to be borrowed - u64::MAX for up to 100% of available liquidity
        amount: u64,
    },
    /// Combines DepositReserveLiquidity and DepositObligationCollateral
    DepositReserveLiquidityAndObligationCollateral {
        /// Amount of liquidity to deposit in exchange
        liquidity_amount: u64,
    },
    /// Combines WithdrawObligationCollateral and RedeemReserveCollateral
    WithdrawObligationCollateralAndRedeemReserveCollateral {
        /// Amount of collateral tokens to withdraw
        collateral_amount: u64,
    },
    /// Updates a reserves config and a reserve price oracle pubkeys
    UpdateReserveConfig {
        /// Reserve config to update to
        config: ReserveConfig,
    },
    /// Liquidates an unhealthy obligation and redeems the collateral that was seized.
    LiquidateObligationAndRedeemReserveCollateral {
        /// Amount of liquidity to repay - u64::MAX for up to 100% of borrowed amount
        liquidity_amount: u64,
    },
    /// Claims the protocol's fees from a reserve.
    RedeemFees,
    /// Flash borrow reserve liquidity
    FlashBorrowReserveLiquidity {
        /// Amount of liquidity to flash borrow
        liquidity_amount: u64,
    },
    /// Flash repay reserve liquidity
    FlashRepayReserveLiquidity {
        /// Amount of liquidity to flash repay
        liquidity_amount: u64,
        /// Index of FlashBorrowReserveLiquidity instruction
        borrow_instruction_index: u8,
    },
}

impl LendingInstruction {
    /// The bytes of the instruction: the number of the variant, then its
    /// fields in order, numbers least significant byte first.
    pub open spec fn serialized(self) -> Seq<u8> {
        match self {
            LendingInstruction::InitLendingMarket { owner, quote_currency } => seq![0u8] + owner@ + quote_currency@,
            LendingInstruction::SetLendingMarketOwner { new_owner } => seq![1u8] + new_owner@,
            LendingInstruction::InitReserve { liquidity_amount, config } => seq![2u8] + u64_le(liquidity_amount) + reserve_config_bytes(config),
            LendingInstruction::RefreshReserve => seq![3u8],
            LendingInstruction::DepositReserveLiquidity { liquidity_amount } => seq![4u8] + u64_le(liquidity_amount),
            LendingInstruction::RedeemReserveCollateral { collateral_amount } => seq![5u8] + u64_le(collateral_amount),
            LendingInstruction::InitObligation => seq![6u8],
            LendingInstruction::RefreshObligation => seq![7u8],
            LendingInstruction::DepositObligationCollateral { collateral_amount } => seq![8u8] + u64_le(collateral_amount),
            LendingInstruction::WithdrawObligationCollateral { collateral_amount } => seq![9u8] + u64_le(collateral_amount),
            LendingInstruction::BorrowObligationLiquidity { liquidity_amount } => seq![10u8] + u64_le(liquidity_amount),
            LendingInstruction::RepayObligationLiquidity { liquidity_amount } => seq![11u8] + u64_le(liquidity_amount),
            LendingInstruction::LiquidateObligation { liquidity_amount } => seq![12u8] + u64_le(liquidity_amount),
            LendingInstruction::FlashLoan { amount } => seq![13u8] + u64_le(amount),
            LendingInstruction::DepositReserveLiquidityAndObligationCollateral { liquidity_amount } => seq![14u8] + u64_le(liquidity_amount),
            LendingInstruction::WithdrawObligationCollateralAndRedeemReserveCollateral { collateral_amount } => seq![15u8] + u64_le(collateral_amount),
            LendingInstruction::UpdateReserveConfig { config } => seq![16u8] + reserve_config_bytes(config),
            LendingInstruction::LiquidateObligationAndRedeemReserveCollateral { liquidity_amount } => seq![17u8] + u64_le(liquidity_amount),
            LendingInstruction::RedeemFees => seq![18u8],
            LendingInstruction::FlashBorrowReserveLiquidity { liquidity_amount } => seq![19u8] + u64_le(liquidity_amount),
            LendingInstruction::FlashRepayReserveLiquidity { liquidity_amount, borrow_instruction_index } => seq![20u8] + u64_le(liquidity_amount) + seq![borrow_instruction_index],
        }
    }

    /// The number of bytes that the instruction with the leading byte `tag`
    /// takes, or `None` where no instruction starts with that byte.
    pub open spec fn packed_len(tag: u8) -> Option<nat> {
        if tag == 0 {
            Some(65nat)
        } else if tag == 1 {
            Some(33nat)
        } else if tag == 2 {
            Some(94nat)
        } else if tag == 3 {
            Some(1nat)
        } else if tag == 4 {
            Some(9nat)
        } else if tag == 5 {
            Some(9nat)
        } else if tag == 6 {
            Some(1nat)
        } else if tag == 7 {
            Some(1nat)
        } else if tag == 8 {
            Some(9nat)
        } else if tag == 9 {
            Some(9nat)
        } else if tag == 10 {
            Some(9nat)
        } else if tag == 11 {
            Some(9nat)
        } else if tag == 12 {
            Some(9nat)
        } else if tag == 13 {
            Some(9nat)
        } else if tag == 14 {
            Some(9nat)
        } else if tag == 15 {
            Some(9nat)
        } else if tag == 16 {
            Some(86nat)
        } else if tag == 17 {
            Some(9nat)
        } else if tag == 18 {
            Some(1nat)
        } else if tag == 19 {
            Some(9nat)
        } else if tag == 20 {
            Some(10nat)
        } else {
            None
        }
    }

    /// The instruction as bytes.
    pub fn try_to_vec(&self) -> (r: Vec<u8>)
        ensures
            r@ == self.serialized(),
    {
        let mut buf: Vec<u8> = Vec::new();
        match self {
            LendingInstruction::InitLendingMarket { owner, quote_currency } => {
                buf.push(0u8);
                push_bytes(&mut buf, owner.0.as_slice());
                push_bytes(&mut buf, quote_currency.as_slice());
            },
            LendingInstruction::SetLendingMarketOwner { new_owner } => {
                buf.push(1u8);
                push_bytes(&mut buf, new_owner.0.as_slice());
            },
            LendingInstruction::InitReserve { liquidity_amount, config } => {
                buf.push(2u8);
                push_u64_le(&mut buf, *liquidity_amount);
                push_reserve_config(&mut buf, config);
            },
            LendingInstruction::RefreshReserve => {
                buf.push(3u8);
            },
            LendingInstruction::DepositReserveLiquidity { liquidity_amount } => {
                buf.push(4u8);
                push_u64_le(&mut buf, *liquidity_amount);
            },
            LendingInstruction::RedeemReserveCollateral { collateral_amount } => {
                buf.push(5u8);
                push_u64_le(&mut buf, *collateral_amount);
            },
            LendingInstruction::InitObligation => {
                buf.push(6u8);
            },
            LendingInstruction::RefreshObligation => {
                buf.push(7u8);
            },
            LendingInstruction::DepositObligationCollateral { collateral_amount } => {
                buf.push(8u8);
                push_u64_le(&mut buf, *collateral_amount);
            },
            LendingInstruction::WithdrawObligationCollateral { collateral_amount } => {
                buf.push(9u8);
                push_u64_le(&mut buf, *collateral_amount);
            },
            LendingInstruction::BorrowObligationLiquidity { liquidity_amount } => {
                buf.push(10u8);
                push_u64_le(&mut buf, *liquidity_amount);
            },
            LendingInstruction::RepayObligationLiquidity { liquidity_amount } => {
                buf.push(11u8);
                push_u64_le(&mut buf, *liquidity_amount);
            },
            LendingInstruction::LiquidateObligation { liquidity_amount } => {
                buf.push(12u8);
                push_u64_le(&mut buf, *liquidity_amount);
            },
            LendingInstruction::FlashLoan { amount } => {
                buf.push(13u8);
                push_u64_le(&mut buf, *amount);
            },
            LendingInstruction::DepositReserveLiquidityAndObligationCollateral { liquidity_amount } => {
                buf.push(14u8);
                push_u64_le(&mut buf, *liquidity_amount);
            },
            LendingInstruction::WithdrawObligationCollateralAndRedeemReserveCollateral { collateral_amount } => {
                buf.push(15u8);
                push_u64_le(&mut buf, *collateral_amount);
            },
            LendingInstruction::UpdateReserveConfig { config } => {
                buf.push(16u8);
                push_reserve_config(&mut buf, config);
            },
            LendingInstruction::LiquidateObligationAndRedeemReserveCollateral { liquidity_amount } => {
                buf.push(17u8);
                push_u64_le(&mut buf, *liquidity_amount);
            },
            LendingInstruction::RedeemFees => {
                buf.push(18u8);
            },
            LendingInstruction::FlashBorrowReserveLiquidity { liquidity_amount } => {
                buf.push(19u8);
                push_u64_le(&mut buf, *liquidity_amount);
            },
            LendingInstruction::FlashRepayReserveLiquidity { liquidity_amount, borrow_instruction_index } => {
                buf.push(20u8);
                push_u64_le(&mut buf, *liquidity_amount);
                buf.push(*borrow_instruction_index);
            },
        }
        assert(buf@ =~= self.serialized());
        buf
    }

    /// Reads an instruction. `InstructionUnpackError` unless `input` holds
    /// exactly the bytes of one instruction.
    pub fn unpack(input: &[u8]) -> (r: Result<Self, LendingError>)
        ensures
            r is Ok <==> input@.len() > 0 && Self::packed_len(input@[0]) == Some(input@.len()),
            r is Ok ==> r->Ok_0.serialized() == input@,
            r is Err ==> r->Err_0 == LendingError::InstructionUnpackError,
    {
        if input.len() == 0 {
            return Err(LendingError::InstructionUnpackError);
        }
        let tag = input[0];
        if tag == 0 && input.len() == 65 {
            let owner = Pubkey::new_from_array(read_array::<32>(input, 1));
            let quote_currency = read_array::<32>(input, 33);
            let instruction = LendingInstruction::InitLendingMarket { owner, quote_currency };
            proof {
                assert(instruction.serialized() =~= input@);
            }
            Ok(instruction)
        } else if tag == 1 && input.len() == 33 {
            let new_owner = Pubkey::new_from_array(read_array::<32>(input, 1));
            let instruction = LendingInstruction::SetLendingMarketOwner { new_owner };
            proof {
                assert(instruction.serialized() =~= input@);
            }
            Ok(instruction)
        } else if tag == 2 && input.len() == 94 {
            let liquidity_amount = read_u64_le(input, 1);
            let config = read_reserve_config(input, 9);
            let instruction = LendingInstruction::InitReserve { liquidity_amount, config };
            proof {
                lemma_le_u64_round_trip(input@.subrange(1, 9));
                assert(instruction.serialized() =~= input@);
            }
            Ok(instruction)
        } else if tag == 3 && input.len() == 1 {
            let instruction = LendingInstruction::RefreshReserve;
            proof {
                assert(instruction.serialized() =~= input@);
            }
            Ok(instruction)
        } else if tag == 4 && input.len() == 9 {
            let liquidity_amount = read_u64_le(input, 1);
            let instruction = LendingInstruction::DepositReserveLiquidity { liquidity_amount };
            proof {
                lemma_le_u64_round_trip(input@.subrange(1, 9));
                assert(instruction.serialized() =~= input@);
            }
            Ok(instruction)
        } else if tag == 5 && input.len() == 9 {
            let collateral_amount = read_u64_le(input, 1);
            let instruction = LendingInstruction::RedeemReserveCollateral { collateral_amount };
            proof {
                lemma_le_u64_round_trip(input@.subrange(1, 9));
                assert(instruction.serialized() =~= input@);
            }
            Ok(instruction)
        } else if tag == 6 && input.len() == 1 {
            let instruction = LendingInstruction::InitObligation;
            proof {
                assert(instruction.serialized() =~= input@);
            }
            Ok(instruction)
        } else if tag == 7 && input.len() == 1 {
            let instruction = LendingInstruction::RefreshObligation;
            proof {
                assert(instruction.serialized() =~= input@);
            }
            Ok(instruction)
        } else if tag == 8 && input.len() == 9 {
            let collateral_amount = read_u64_le(input, 1);
            let instruction = LendingInstruction::DepositObligationCollateral { collateral_amount };
            proof {
                lemma_le_u64_round_trip(input@.subrange(1, 9));
                assert(instruction.serialized() =~= input@);
            }
            Ok(instruction)
        } else if tag == 9 && input.len() == 9 {
            let collateral_amount = read_u64_le(input, 1);
            let instruction = LendingInstruction::WithdrawObligationCollateral { collateral_amount };
            proof {
                lemma_le_u64_round_trip(input@.subrange(1, 9));
                assert(instruction.serialized() =~= input@);
            }
            Ok(instruction)
        } else if tag == 10 && input.len() == 9 {
            let liquidity_amount = read_u64_le(input, 1);
            let instruction = LendingInstruction::BorrowObligationLiquidity { liquidity_amount };
            proof {
                lemma_le_u64_round_trip(input@.subrange(1, 9));
                assert(instruction.serialized() =~= input@);
            }
            Ok(instruction)
        } else if tag == 11 && input.len() == 9 {
            let liquidity_amount = read_u64_le(input, 1);
            let instruction = LendingInstruction::RepayObligationLiquidity { liquidity_amount };
            proof {
                lemma_le_u64_round_trip(input@.subrange(1, 9));
                assert(instruction.serialized() =~= input@);
            }
            Ok(instruction)
        } else if tag == 12 && input.len() == 9 {
            let liquidity_amount = read_u64_le(input, 1);
            let instruction = LendingInstruction::LiquidateObligation { liquidity_amount };
            proof {
                lemma_le_u64_round_trip(input@.subrange(1, 9));
                assert(instruction.serialized() =~= input@);
            }
            Ok(instruction)
        } else if tag == 13 && input.len() == 9 {
            let amount = read_u64_le(input, 1);
            let instruction = LendingInstruction::FlashLoan { amount };
            proof {
                lemma_le_u64_round_trip(input@.subrange(1, 9));
                assert(instruction.serialized() =~= input@);
            }
            Ok(instruction)
        } else if tag == 14 && input.len() == 9 {
            let liquidity_amount = read_u64_le(input, 1);
            let instruction = LendingInstruction::DepositReserveLiquidityAndObligationCollateral { liquidity_amount };
            proof {
                lemma_le_u64_round_trip(input@.subrange(1, 9));
                assert(instruction.serialized() =~= input@);
            }
            Ok(instruction)
        } else if tag == 15 && input.len() == 9 {
            let collateral_amount = read_u64_le(input, 1);
            let instruction = LendingInstruction::WithdrawObligationCollateralAndRedeemReserveCollateral { collateral_amount };
            proof {
                lemma_le_u64_round_trip(input@.subrange(1, 9));
                assert(instruction.serialized() =~= input@);
            }
            Ok(instruction)
        } else if tag == 16 && input.len() == 86 {
            let config = read_reserve_config(input, 1);
            let instruction = LendingInstruction::UpdateReserveConfig { config };
            proof {
                assert(instruction.serialized() =~= input@);
            }
            Ok(instruction)
        } else if tag == 17 && input.len() == 9 {
            let liquidity_amount = read_u64_le(input, 1);
            let instruction = LendingInstruction::LiquidateObligationAndRedeemReserveCollateral { liquidity_amount };
            proof {
                lemma_le_u64_round_trip(input@.subrange(1, 9));
                assert(instruction.serialized() =~= input@);
            }
            Ok(instruction)
        } else if tag == 18 && input.len() == 1 {
            let instruction = LendingInstruction::RedeemFees;
            proof {
                assert(instruction.serialized() =~= input@);
            }
            Ok(instruction)
        } else if tag == 19 && input.len() == 9 {
            let liquidity_amount = read_u64_le(input, 1);
            let instruction = LendingInstruction::FlashBorrowReserveLiquidity { liquidity_amount };
            proof {
                lemma_le_u64_round_trip(input@.subrange(1, 9));
                assert(instruction.serialized() =~= input@);
            }
            Ok(instruction)
        } else if tag == 20 && input.len() == 10 {
            let liquidity_amount = read_u64_le(input, 1);
            let borrow_instruction_index = input[9];
            let instruction = LendingInstruction::FlashRepayReserveLiquidity { liquidity_amount, borrow_instruction_index };
            proof {
                lemma_le_u64_round_trip(input@.subrange(1, 9));
                assert(instruction.serialized() =~= input@);
            }
            Ok(instruction)
        } else {
            Err(LendingError::InstructionUnpackError)
        }
    }

    /// What the instruction is to the flash loan rules, `reserve` being the
    /// reserve account that it names.
    pub fn batch_entry(&self, reserve: Pubkey) -> (r: BatchEntry)
        ensures
            r == (match *self {
                LendingInstruction::FlashBorrowReserveLiquidity {
                    liquidity_amount,
                } => BatchEntry::FlashBorrow { reserve, liquidity_amount },
                LendingInstruction::FlashRepayReserveLiquidity {
                    liquidity_amount,
                    borrow_instruction_index,
                } => BatchEntry::FlashRepay { reserve, liquidity_amount, borrow_instruction_index },
                _ => BatchEntry::Other,
            }),
    {
        match self {
            LendingInstruction::FlashBorrowReserveLiquidity {
                liquidity_amount,
            } => BatchEntry::FlashBorrow { reserve, liquidity_amount: *liquidity_amount },
            LendingInstruction::FlashRepayReserveLiquidity {
                liquidity_amount,
                borrow_instruction_index,
            } => BatchEntry::FlashRepay {
                reserve,
                liquidity_amount: *liquidity_amount,
                borrow_instruction_index: *borrow_instruction_index,
            },
            _ => BatchEntry::Other,
        }
    }
}

/// Every instruction unpacks from its own bytes: they start with a byte
/// that stands for an instruction and have the length that goes with it.
pub proof fn lemma_serialized_unpacks(instruction: LendingInstruction)
    ensures
        instruction.serialized().len() > 0,
        LendingInstruction::packed_len(instruction.serialized()[0]) == Some(
            instruction.serialized().len(),
        ),
{
    match instruction {
        LendingInstruction::InitReserve { liquidity_amount, config } => {
            lemma_reserve_config_len(config);
        },
        LendingInstruction::UpdateReserveConfig { config } => {
            lemma_reserve_config_len(config);
        },
        _ => {},
    }
}

/// The address that the runtime derives for a program from one seed, with
/// the bump seed that makes it valid; `None` where no bump seed does.
pub uninterp spec fn program_address(seed: Seq<u8>, program_id: Seq<u8>) -> Option<(Seq<u8>, u8)>;

/// Calls `solana_program::pubkey::Pubkey::try_find_program_address` with the
/// 32 bytes of `seed` as the only seed. The derivation hashes the seed, a
/// bump seed and the program's address; the result depends on these bytes
/// alone.
#[verifier::external_body]
fn try_find_program_address(seed: &Pubkey, program_id: &Pubkey) -> (r: Option<(Pubkey, u8)>)
    ensures
        match r {
            Some(found) => program_address(seed@, program_id@) == Some((found.0@, found.1)),
            None => program_address(seed@, program_id@) is None,
        },
{
    let program = solana_program::pubkey::Pubkey::new_from_array(program_id.0);
    match solana_program::pubkey::Pubkey::try_find_program_address(&[&seed.0[..]], &program) {
        Some((address, bump_seed)) => Some((Pubkey(address.to_bytes()), bump_seed)),
        None => None,
    }
}

/// The authority of a lending market: the address derived for the lending
/// program from the market's address. `None` in the event that no bump seed
/// gives a valid address.
pub fn find_market_authority(lending_market: &Pubkey, program_id: &Pubkey) -> (r: Option<
    (Pubkey, u8),
>)
    ensures
        match r {
            Some(found) => program_address(lending_market@, program_id@) == Some(
                (found.0@, found.1),
            ),
            None => program_address(lending_market@, program_id@) is None,
        },
{
    try_find_program_address(lending_market, program_id)
}

/// The bytes of the token program's address.
pub open spec fn token_program_bytes() -> Seq<u8> {
    seq![
        6u8, 221, 246, 225, 215, 101, 161, 147, 217, 203, 225, 70, 206, 235, 121, 172, 28, 180,
        133, 237, 95, 91, 55, 145, 58, 140, 245, 133, 126, 255, 0, 169,
    ]
}

/// The bytes of the rent sysvar's address.
pub open spec fn rent_sysvar_bytes() -> Seq<u8> {
    seq![
        6u8, 167, 213, 23, 25, 44, 92, 81, 33, 140, 201, 76, 61, 74, 241, 127, 88, 218, 238, 8,
        155, 161, 253, 68, 227, 219, 217, 138, 0, 0, 0, 0,
    ]
}

/// The bytes of the instructions sysvar's address.
pub open spec fn instructions_sysvar_bytes() -> Seq<u8> {
    seq![
        6u8, 167, 213, 23, 24, 123, 209, 102, 53, 218, 212, 4, 85, 253, 194, 192, 193, 36, 198,
        143, 33, 86, 117, 165, 219, 186, 203, 95, 8, 0, 0, 0,
    ]
}

/// Calls `spl_token::id`: the address of the token program, which is
/// `TokenkegQfeZyiNwAJbNbGKPFXCWuBvf9Ss623VQ5DA`.
#[verifier::external_body]
pub(crate) fn token_program_id() -> (r: Pubkey)
    ensures
        r@ == token_program_bytes(),
{
    Pubkey(spl_token::id().to_bytes())
}

/// Calls `solana_program::sysvar::rent::id`: the address of the rent sysvar,
/// which is `SysvarRent111111111111111111111111111111111`.
#[verifier::external_body]
pub(crate) fn rent_sysvar_id() -> (r: Pubkey)
    ensures
        r@ == rent_sysvar_bytes(),
{
    Pubkey(solana_program::sysvar::rent::id().to_bytes())
}

/// Calls `solana_program::sysvar::instructions::id`: the address of the
/// instructions sysvar, which is
/// `Sysvar1nstructions1111111111111111111111111`.
#[verifier::external_body]
pub(crate) fn instructions_sysvar_id() -> (r: Pubkey)
    ensures
        r@ == instructions_sysvar_bytes(),
{
    Pubkey(solana_program::sysvar::instructions::id().to_bytes())
}

/// The accounts of the instruction that `init_lending_market` makes, in order.
pub open spec fn init_lending_market_accounts(
    program_id: Pubkey,
    owner: Pubkey,
    lending_market_pubkey: Pubkey,
    oracle_program_id: Pubkey,
    switchboard_oracle_program_id: Pubkey,
) -> Seq<AccountMetaView> {
    seq![
        writable(lending_market_pubkey@, false),
        readonly(rent_sysvar_bytes(), false),
        readonly(token_program_bytes(), false),
        readonly(oracle_program_id@, false),
        readonly(switchboard_oracle_program_id@, false),
    ]
}

/// Creates an 'InitLendingMarket' instruction.
pub fn init_lending_market(
    program_id: Pubkey,
    owner: Pubkey,
    quote_currency: [u8; 32],
    lending_market_pubkey: Pubkey,
    oracle_program_id: Pubkey,
    switchboard_oracle_program_id: Pubkey,
) -> (r: Instruction)
    ensures
        r@ == (InstructionView {
            program_id: program_id@,
            accounts: init_lending_market_accounts(program_id, owner, lending_market_pubkey, oracle_program_id, switchboard_oracle_program_id),
            data: (LendingInstruction::InitLendingMarket { owner, quote_currency }).serialized(),
        }),
{
    let mut accounts: Vec<AccountMeta> = Vec::new();
    accounts.push(AccountMeta::new(lending_market_pubkey, false));
    accounts.push(AccountMeta::new_readonly(rent_sysvar_id(), false));
    accounts.push(AccountMeta::new_readonly(token_program_id(), false));
    accounts.push(AccountMeta::new_readonly(oracle_program_id, false));
    accounts.push(AccountMeta::new_readonly(switchboard_oracle_program_id, false));
    let data = (LendingInstruction::InitLendingMarket { owner, quote_currency }).try_to_vec();
    let instruction = Instruction { program_id, accounts, data };
    assert(instruction@.accounts =~= init_lending_market_accounts(program_id, owner, lending_market_pubkey, oracle_program_id, switchboard_oracle_program_id));
    instruction
}

/// The accounts of the instruction that `set_lending_market_owner` makes, in order.
pub open spec fn set_lending_market_owner_accounts(
    program_id: Pubkey,
    lending_market_pubkey: Pubkey,
    lending_market_owner: Pubkey,
    new_owner: Pubkey,
) -> Seq<AccountMetaView> {
    seq![
        writable(lending_market_pubkey@, false),
        readonly(lending_market_owner@, true),
    ]
}

/// Creates a 'SetLendingMarketOwner' instruction.
pub fn set_lending_market_owner(
    program_id: Pubkey,
    lending_market_pubkey: Pubkey,
    lending_market_owner: Pubkey,
    new_owner: Pubkey,
) -> (r: Instruction)
    ensures
        r@ == (InstructionView {
            program_id: program_id@,
            accounts: set_lending_market_owner_accounts(program_id, lending_market_pubkey, lending_market_owner, new_owner),
            data: (LendingInstruction::SetLendingMarketOwner { new_owner }).serialized(),
        }),
{
    let mut accounts: Vec<AccountMeta> = Vec::new();
    accounts.push(AccountMeta::new(lending_market_pubkey, false));
    accounts.push(AccountMeta::new_readonly(lending_market_owner, true));
    let data = (LendingInstruction::SetLendingMarketOwner { new_owner }).try_to_vec();
    let instruction = Instruction { program_id, accounts, data };
    assert(instruction@.accounts =~= set_lending_market_owner_accounts(program_id, lending_market_pubkey, lending_market_owner, new_owner));
    instruction
}

/// The accounts of the instruction that `init_reserve` makes, in order.
pub open spec fn init_reserve_accounts(
    program_id: Pubkey,
    config: ReserveConfig,
    source_liquidity_pubkey: Pubkey,
    destination_collateral_pubkey: Pubkey,
    reserve_pubkey: Pubkey,
    reserve_liquidity_mint_pubkey: Pubkey,
    reserve_liquidity_supply_pubkey: Pubkey,
    reserve_collateral_mint_pubkey: Pubkey,
    reserve_collateral_supply_pubkey: Pubkey,
    pyth_product_pubkey: Pubkey,
    pyth_price_pubkey: Pubkey,
    switchboard_feed_pubkey: Pubkey,
    lending_market_pubkey: Pubkey,
    lending_market_owner_pubkey: Pubkey,
    user_transfer_authority_pubkey: Pubkey,
    authority: (Seq<u8>, u8),
) -> Seq<AccountMetaView> {
    seq![
        writable(source_liquidity_pubkey@, false),
        writable(destination_collateral_pubkey@, false),
        writable(reserve_pubkey@, false),
        readonly(reserve_liquidity_mint_pubkey@, false),
        writable(reserve_liquidity_supply_pubkey@, false),
        writable(config.fee_receiver@, false),
        writable(reserve_collateral_mint_pubkey@, false),
        writable(reserve_collateral_supply_pubkey@, false),
        readonly(pyth_product_pubkey@, false),
        readonly(pyth_price_pubkey@, false),
        readonly(switchboard_feed_pubkey@, false),
        readonly(lending_market_pubkey@, false),
        readonly(authority.0, false),
        readonly(lending_market_owner_pubkey@, true),
        readonly(user_transfer_authority_pubkey@, true),
        readonly(rent_sysvar_bytes(), false),
        readonly(token_program_bytes(), false),
    ]
}

/// Creates an 'InitReserve' instruction. `None` in the event that no authority can be derived for the
/// market.
#[allow(clippy::too_many_arguments)]
pub fn init_reserve(
    program_id: Pubkey,
    liquidity_amount: u64,
    config: ReserveConfig,
    source_liquidity_pubkey: Pubkey,
    destination_collateral_pubkey: Pubkey,
    reserve_pubkey: Pubkey,
    reserve_liquidity_mint_pubkey: Pubkey,
    reserve_liquidity_supply_pubkey: Pubkey,
    reserve_collateral_mint_pubkey: Pubkey,
    reserve_collateral_supply_pubkey: Pubkey,
    pyth_product_pubkey: Pubkey,
    pyth_price_pubkey: Pubkey,
    switchboard_feed_pubkey: Pubkey,
    lending_market_pubkey: Pubkey,
    lending_market_owner_pubkey: Pubkey,
    user_transfer_authority_pubkey: Pubkey,
) -> (r: Option<Instruction>)
    ensures
        match program_address(lending_market_pubkey@, program_id@) {
            Some(authority) => r is Some && r->0@ == (InstructionView {
                program_id: program_id@,
                accounts: init_reserve_accounts(program_id, config, source_liquidity_pubkey, destination_collateral_pubkey, reserve_pubkey, reserve_liquidity_mint_pubkey, reserve_liquidity_supply_pubkey, reserve_collateral_mint_pubkey, reserve_collateral_supply_pubkey, pyth_product_pubkey, pyth_price_pubkey, switchboard_feed_pubkey, lending_market_pubkey, lending_market_owner_pubkey, user_transfer_authority_pubkey, authority),
                data: (LendingInstruction::InitReserve { liquidity_amount, config }).serialized(),
            }),
            None => r is None,
        },
{
    let authority = match find_market_authority(&lending_market_pubkey, &program_id) {
        Some(found) => found,
        None => {
            return None;
        },
    };
    let mut accounts: Vec<AccountMeta> = Vec::new();
    accounts.push(AccountMeta::new(source_liquidity_pubkey, false));
    accounts.push(AccountMeta::new(destination_collateral_pubkey, false));
    accounts.push(AccountMeta::new(reserve_pubkey, false));
    accounts.push(AccountMeta::new_readonly(reserve_liquidity_mint_pubkey, false));
    accounts.push(AccountMeta::new(reserve_liquidity_supply_pubkey, false));
    accounts.push(AccountMeta::new(config.fee_receiver, false));
    accounts.push(AccountMeta::new(reserve_collateral_mint_pubkey, false));
    accounts.push(AccountMeta::new(reserve_collateral_supply_pubkey, false));
    accounts.push(AccountMeta::new_readonly(pyth_product_pubkey, false));
    accounts.push(AccountMeta::new_readonly(pyth_price_pubkey, false));
    accounts.push(AccountMeta::new_readonly(switchboard_feed_pubkey, false));
    accounts.push(AccountMeta::new_readonly(lending_market_pubkey, false));
    accounts.push(AccountMeta::new_readonly(authority.0, false));
    accounts.push(AccountMeta::new_readonly(lending_market_owner_pubkey, true));
    accounts.push(AccountMeta::new_readonly(user_transfer_authority_pubkey, true));
    accounts.push(AccountMeta::new_readonly(rent_sysvar_id(), false));
    accounts.push(AccountMeta::new_readonly(token_program_id(), false));
    let data = (LendingInstruction::InitReserve { liquidity_amount, config }).try_to_vec();
    let instruction = Instruction { program_id, accounts, data };
    assert(instruction@.accounts =~= init_reserve_accounts(program_id, config, source_liquidity_pubkey, destination_collateral_pubkey, reserve_pubkey, reserve_liquidity_mint_pubkey, reserve_liquidity_supply_pubkey, reserve_collateral_mint_pubkey, reserve_collateral_supply_pubkey, pyth_product_pubkey, pyth_price_pubkey, switchboard_feed_pubkey, lending_market_pubkey, lending_market_owner_pubkey, user_transfer_authority_pubkey, (authority.0@, authority.1)));
    Some(instruction)
}

/// The accounts of the instruction that `refresh_reserve` makes, in order.
pub open spec fn refresh_reserve_accounts(
    program_id: Pubkey,
    reserve_pubkey: Pubkey,
    reserve_liquidity_pyth_oracle_pubkey: Pubkey,
    reserve_liquidity_switchboard_oracle_pubkey: Pubkey,
) -> Seq<AccountMetaView> {
    seq![
        writable(reserve_pubkey@, false),
        readonly(reserve_liquidity_pyth_oracle_pubkey@, false),
        readonly(reserve_liquidity_switchboard_oracle_pubkey@, false),
    ]
}

/// Creates a `RefreshReserve` instruction
pub fn refresh_reserve(
    program_id: Pubkey,
    reserve_pubkey: Pubkey,
    reserve_liquidity_pyth_oracle_pubkey: Pubkey,
    reserve_liquidity_switchboard_oracle_pubkey: Pubkey,
) -> (r: Instruction)
    ensures
        r@ == (InstructionView {
            program_id: program_id@,
            accounts: refresh_reserve_accounts(program_id, reserve_pubkey, reserve_liquidity_pyth_oracle_pubkey, reserve_liquidity_switchboard_oracle_pubkey),
            data: (LendingInstruction::RefreshReserve).serialized(),
        }),
{
    let mut accounts: Vec<AccountMeta> = Vec::new();
    accounts.push(AccountMeta::new(reserve_pubkey, false));
    accounts.push(AccountMeta::new_readonly(reserve_liquidity_pyth_oracle_pubkey, false));
    accounts.push(AccountMeta::new_readonly(reserve_liquidity_switchboard_oracle_pubkey, false));
    let data = (LendingInstruction::RefreshReserve).try_to_vec();
    let instruction = Instruction { program_id, accounts, data };
    assert(instruction@.accounts =~= refresh_reserve_accounts(program_id, reserve_pubkey, reserve_liquidity_pyth_oracle_pubkey, reserve_liquidity_switchboard_oracle_pubkey));
    instruction
}

/// The accounts of the instruction that `deposit_reserve_liquidity` makes, in order.
pub open spec fn deposit_reserve_liquidity_accounts(
    program_id: Pubkey,
    source_liquidity_pubkey: Pubkey,
    destination_collateral_pubkey: Pubkey,
    reserve_pubkey: Pubkey,
    reserve_liquidity_supply_pubkey: Pubkey,
    reserve_collateral_mint_pubkey: Pubkey,
    lending_market_pubkey: Pubkey,
    user_transfer_authority_pubkey: Pubkey,
    authority: (Seq<u8>, u8),
) -> Seq<AccountMetaView> {
    seq![
        writable(source_liquidity_pubkey@, false),
        writable(destination_collateral_pubkey@, false),
        writable(reserve_pubkey@, false),
        writable(reserve_liquidity_supply_pubkey@, false),
        writable(reserve_collateral_mint_pubkey@, false),
        readonly(lending_market_pubkey@, false),
        readonly(authority.0, false),
        readonly(user_transfer_authority_pubkey@, true),
        readonly(token_program_bytes(), false),
    ]
}

/// Creates a 'DepositReserveLiquidity' instruction. `None` in the event that no authority can be derived for the
/// market.
#[allow(clippy::too_many_arguments)]
pub fn deposit_reserve_liquidity(
    program_id: Pubkey,
    liquidity_amount: u64,
    source_liquidity_pubkey: Pubkey,
    destination_collateral_pubkey: Pubkey,
    reserve_pubkey: Pubkey,
    reserve_liquidity_supply_pubkey: Pubkey,
    reserve_collateral_mint_pubkey: Pubkey,
    lending_market_pubkey: Pubkey,
    user_transfer_authority_pubkey: Pubkey,
) -> (r: Option<Instruction>)
    ensures
        match program_address(lending_market_pubkey@, program_id@) {
            Some(authority) => r is Some && r->0@ == (InstructionView {
                program_id: program_id@,
                accounts: deposit_reserve_liquidity_accounts(program_id, source_liquidity_pubkey, destination_collateral_pubkey, reserve_pubkey, reserve_liquidity_supply_pubkey, reserve_collateral_mint_pubkey, lending_market_pubkey, user_transfer_authority_pubkey, authority),
                data: (LendingInstruction::DepositReserveLiquidity { liquidity_amount }).serialized(),
            }),
            None => r is None,
        },
{
    let authority = match find_market_authority(&lending_market_pubkey, &program_id) {
        Some(found) => found,
        None => {
            return None;
        },
    };
    let mut accounts: Vec<AccountMeta> = Vec::new();
    accounts.push(AccountMeta::new(source_liquidity_pubkey, false));
    accounts.push(AccountMeta::new(destination_collateral_pubkey, false));
    accounts.push(AccountMeta::new(reserve_pubkey, false));
    accounts.push(AccountMeta::new(reserve_liquidity_supply_pubkey, false));
    accounts.push(AccountMeta::new(reserve_collateral_mint_pubkey, false));
    accounts.push(AccountMeta::new_readonly(lending_market_pubkey, false));
    accounts.push(AccountMeta::new_readonly(authority.0, false));
    accounts.push(AccountMeta::new_readonly(user_transfer_authority_pubkey, true));
    accounts.push(AccountMeta::new_readonly(token_program_id(), false));
    let data = (LendingInstruction::DepositReserveLiquidity { liquidity_amount }).try_to_vec();
    let instruction = Instruction { program_id, accounts, data };
    assert(instruction@.accounts =~= deposit_reserve_liquidity_accounts(program_id, source_liquidity_pubkey, destination_collateral_pubkey, reserve_pubkey, reserve_liquidity_supply_pubkey, reserve_collateral_mint_pubkey, lending_market_pubkey, user_transfer_authority_pubkey, (authority.0@, authority.1)));
    Some(instruction)
}

/// The accounts of the instruction that `redeem_reserve_collateral` makes, in order.
pub open spec fn redeem_reserve_collateral_accounts(
    program_id: Pubkey,
    source_collateral_pubkey: Pubkey,
    destination_liquidity_pubkey: Pubkey,
    reserve_pubkey: Pubkey,
    reserve_collateral_mint_pubkey: Pubkey,
    reserve_liquidity_supply_pubkey: Pubkey,
    lending_market_pubkey: Pubkey,
    user_transfer_authority_pubkey: Pubkey,
    authority: (Seq<u8>, u8),
) -> Seq<AccountMetaView> {
    seq![
        writable(source_collateral_pubkey@, false),
        writable(destination_liquidity_pubkey@, false),
        writable(reserve_pubkey@, false),
        writable(reserve_collateral_mint_pubkey@, false),
        writable(reserve_liquidity_supply_pubkey@, false),
        readonly(lending_market_pubkey@, false),
        readonly(authority.0, false),
        readonly(user_transfer_authority_pubkey@, true),
        readonly(token_program_bytes(), false),
    ]
}

/// Creates a 'RedeemReserveCollateral' instruction. `None` in the event that no authority can be derived for the
/// market.
#[allow(clippy::too_many_arguments)]
pub fn redeem_reserve_collateral(
    program_id: Pubkey,
    collateral_amount: u64,
    source_collateral_pubkey: Pubkey,
    destination_liquidity_pubkey: Pubkey,
    reserve_pubkey: Pubkey,
    reserve_collateral_mint_pubkey: Pubkey,
    reserve_liquidity_supply_pubkey: Pubkey,
    lending_market_pubkey: Pubkey,
    user_transfer_authority_pubkey: Pubkey,
) -> (r: Option<Instruction>)
    ensures
        match program_address(lending_market_pubkey@, program_id@) {
            Some(authority) => r is Some && r->0@ == (InstructionView {
                program_id: program_id@,
                accounts: redeem_reserve_collateral_accounts(program_id, source_collateral_pubkey, destination_liquidity_pubkey, reserve_pubkey, reserve_collateral_mint_pubkey, reserve_liquidity_supply_pubkey, lending_market_pubkey, user_transfer_authority_pubkey, authority),
                data: (LendingInstruction::RedeemReserveCollateral { collateral_amount }).serialized(),
            }),
            None => r is None,
        },
{
    let authority = match find_market_authority(&lending_market_pubkey, &program_id) {
        Some(found) => found,
        None => {
            return None;
        },
    };
    let mut accounts: Vec<AccountMeta> = Vec::new();
    accounts.push(AccountMeta::new(source_collateral_pubkey, false));
    accounts.push(AccountMeta::new(destination_liquidity_pubkey, false));
    accounts.push(AccountMeta::new(reserve_pubkey, false));
    accounts.push(AccountMeta::new(reserve_collateral_mint_pubkey, false));
    accounts.push(AccountMeta::new(reserve_liquidity_supply_pubkey, false));
    accounts.push(AccountMeta::new_readonly(lending_market_pubkey, false));
    accounts.push(AccountMeta::new_readonly(authority.0, false));
    accounts.push(AccountMeta::new_readonly(user_transfer_authority_pubkey, true));
    accounts.push(AccountMeta::new_readonly(token_program_id(), false));
    let data = (LendingInstruction::RedeemReserveCollateral { collateral_amount }).try_to_vec();
    let instruction = Instruction { program_id, accounts, data };
    assert(instruction@.accounts =~= redeem_reserve_collateral_accounts(program_id, source_collateral_pubkey, destination_liquidity_pubkey, reserve_pubkey, reserve_collateral_mint_pubkey, reserve_liquidity_supply_pubkey, lending_market_pubkey, user_transfer_authority_pubkey, (authority.0@, authority.1)));
    Some(instruction)
}

/// The accounts of the instruction that `init_obligation` makes, in order.
pub open spec fn init_obligation_accounts(
    program_id: Pubkey,
    obligation_pubkey: Pubkey,
    lending_market_pubkey: Pubkey,
    obligation_owner_pubkey: Pubkey,
) -> Seq<AccountMetaView> {
    seq![
        writable(obligation_pubkey@, false),
        readonly(lending_market_pubkey@, false),
        readonly(obligation_owner_pubkey@, true),
        readonly(rent_sysvar_bytes(), false),
        readonly(token_program_bytes(), false),
    ]
}

/// Creates an 'InitObligation' instruction.
pub fn init_obligation(
    program_id: Pubkey,
    obligation_pubkey: Pubkey,
    lending_market_pubkey: Pubkey,
    obligation_owner_pubkey: Pubkey,
) -> (r: Instruction)
    ensures
        r@ == (InstructionView {
            program_id: program_id@,
            accounts: init_obligation_accounts(program_id, obligation_pubkey, lending_market_pubkey, obligation_owner_pubkey),
            data: (LendingInstruction::InitObligation).serialized(),
        }),
{
    let mut accounts: Vec<AccountMeta> = Vec::new();
    accounts.push(AccountMeta::new(obligation_pubkey, false));
    accounts.push(AccountMeta::new_readonly(lending_market_pubkey, false));
    accounts.push(AccountMeta::new_readonly(obligation_owner_pubkey, true));
    accounts.push(AccountMeta::new_readonly(rent_sysvar_id(), false));
    accounts.push(AccountMeta::new_readonly(token_program_id(), false));
    let data = (LendingInstruction::InitObligation).try_to_vec();
    let instruction = Instruction { program_id, accounts, data };
    assert(instruction@.accounts =~= init_obligation_accounts(program_id, obligation_pubkey, lending_market_pubkey, obligation_owner_pubkey));
    instruction
}

/// The accounts of the instruction that `deposit_obligation_collateral` makes, in order.
pub open spec fn deposit_obligation_collateral_accounts(
    program_id: Pubkey,
    source_collateral_pubkey: Pubkey,
    destination_collateral_pubkey: Pubkey,
    deposit_reserve_pubkey: Pubkey,
    obligation_pubkey: Pubkey,
    lending_market_pubkey: Pubkey,
    obligation_owner_pubkey: Pubkey,
    user_transfer_authority_pubkey: Pubkey,
) -> Seq<AccountMetaView> {
    seq![
        writable(source_collateral_pubkey@, false),
        writable(destination_collateral_pubkey@, false),
        writable(deposit_reserve_pubkey@, false),
        writable(obligation_pubkey@, false),
        readonly(lending_market_pubkey@, false),
        readonly(obligation_owner_pubkey@, true),
        readonly(user_transfer_authority_pubkey@, true),
        readonly(token_program_bytes(), false),
    ]
}

/// Creates a 'DepositObligationCollateral' instruction.
#[allow(clippy::too_many_arguments)]
pub fn deposit_obligation_collateral(
    program_id: Pubkey,
    collateral_amount: u64,
    source_collateral_pubkey: Pubkey,
    destination_collateral_pubkey: Pubkey,
    deposit_reserve_pubkey: Pubkey,
    obligation_pubkey: Pubkey,
    lending_market_pubkey: Pubkey,
    obligation_owner_pubkey: Pubkey,
    user_transfer_authority_pubkey: Pubkey,
) -> (r: Instruction)
    ensures
        r@ == (InstructionView {
            program_id: program_id@,
            accounts: deposit_obligation_collateral_accounts(program_id, source_collateral_pubkey, destination_collateral_pubkey, deposit_reserve_pubkey, obligation_pubkey, lending_market_pubkey, obligation_owner_pubkey, user_transfer_authority_pubkey),
            data: (LendingInstruction::DepositObligationCollateral { collateral_amount }).serialized(),
        }),
{
    let mut accounts: Vec<AccountMeta> = Vec::new();
    accounts.push(AccountMeta::new(source_collateral_pubkey, false));
    accounts.push(AccountMeta::new(destination_collateral_pubkey, false));
    accounts.push(AccountMeta::new(deposit_reserve_pubkey, false));
    accounts.push(AccountMeta::new(obligation_pubkey, false));
    accounts.push(AccountMeta::new_readonly(lending_market_pubkey, false));
    accounts.push(AccountMeta::new_readonly(obligation_owner_pubkey, true));
    accounts.push(AccountMeta::new_readonly(user_transfer_authority_pubkey, true));
    accounts.push(AccountMeta::new_readonly(token_program_id(), false));
    let data = (LendingInstruction::DepositObligationCollateral { collateral_amount }).try_to_vec();
    let instruction = Instruction { program_id, accounts, data };
    assert(instruction@.accounts =~= deposit_obligation_collateral_accounts(program_id, source_collateral_pubkey, destination_collateral_pubkey, deposit_reserve_pubkey, obligation_pubkey, lending_market_pubkey, obligation_owner_pubkey, user_transfer_authority_pubkey));
    instruction
}

/// The accounts of the instruction that `deposit_reserve_liquidity_and_obligation_collateral` makes, in order.
pub open spec fn deposit_reserve_liquidity_and_obligation_collateral_accounts(
    program_id: Pubkey,
    source_liquidity_pubkey: Pubkey,
    user_collateral_pubkey: Pubkey,
    reserve_pubkey: Pubkey,
    reserve_liquidity_supply_pubkey: Pubkey,
    reserve_collateral_mint_pubkey: Pubkey,
    lending_market_pubkey: Pubkey,
    destination_deposit_collateral_pubkey: Pubkey,
    obligation_pubkey: Pubkey,
    obligation_owner_pubkey: Pubkey,
    reserve_liquidity_pyth_oracle_pubkey: Pubkey,
    reserve_liquidity_switchboard_oracle_pubkey: Pubkey,
    user_transfer_authority_pubkey: Pubkey,
    authority: (Seq<u8>, u8),
) -> Seq<AccountMetaView> {
    seq![
        writable(source_liquidity_pubkey@, false),
        writable(user_collateral_pubkey@, false),
        writable(reserve_pubkey@, false),
        writable(reserve_liquidity_supply_pubkey@, false),
        writable(reserve_collateral_mint_pubkey@, false),
        readonly(lending_market_pubkey@, false),
        readonly(authority.0, false),
        writable(destination_deposit_collateral_pubkey@, false),
        writable(obligation_pubkey@, false),
        writable(obligation_owner_pubkey@, true),
        readonly(reserve_liquidity_pyth_oracle_pubkey@, false),
        readonly(reserve_liquidity_switchboard_oracle_pubkey@, false),
        readonly(user_transfer_authority_pubkey@, true),
        readonly(token_program_bytes(), false),
    ]
}

/// Creates a 'DepositReserveLiquidityAndObligationCollateral' instruction. `None` in the event that no authority can be derived for the
/// market.
#[allow(clippy::too_many_arguments)]
pub fn deposit_reserve_liquidity_and_obligation_collateral(
    program_id: Pubkey,
    liquidity_amount: u64,
    source_liquidity_pubkey: Pubkey,
    user_collateral_pubkey: Pubkey,
    reserve_pubkey: Pubkey,
    reserve_liquidity_supply_pubkey: Pubkey,
    reserve_collateral_mint_pubkey: Pubkey,
    lending_market_pubkey: Pubkey,
    destination_deposit_collateral_pubkey: Pubkey,
    obligation_pubkey: Pubkey,
    obligation_owner_pubkey: Pubkey,
    reserve_liquidity_pyth_oracle_pubkey: Pubkey,
    reserve_liquidity_switchboard_oracle_pubkey: Pubkey,
    user_transfer_authority_pubkey: Pubkey,
) -> (r: Option<Instruction>)
    ensures
        match program_address(lending_market_pubkey@, program_id@) {
            Some(authority) => r is Some && r->0@ == (InstructionView {
                program_id: program_id@,
                accounts: deposit_reserve_liquidity_and_obligation_collateral_accounts(program_id, source_liquidity_pubkey, user_collateral_pubkey, reserve_pubkey, reserve_liquidity_supply_pubkey, reserve_collateral_mint_pubkey, lending_market_pubkey, destination_deposit_collateral_pubkey, obligation_pubkey, obligation_owner_pubkey, reserve_liquidity_pyth_oracle_pubkey, reserve_liquidity_switchboard_oracle_pubkey, user_transfer_authority_pubkey, authority),
                data: (LendingInstruction::DepositReserveLiquidityAndObligationCollateral { liquidity_amount }).serialized(),
            }),
            None => r is None,
        },
{
    let authority = match find_market_authority(&lending_market_pubkey, &program_id) {
        Some(found) => found,
        None => {
            return None;
        },
    };
    let mut accounts: Vec<AccountMeta> = Vec::new();
    accounts.push(AccountMeta::new(source_liquidity_pubkey, false));
    accounts.push(AccountMeta::new(user_collateral_pubkey, false));
    accounts.push(AccountMeta::new(reserve_pubkey, false));
    accounts.push(AccountMeta::new(reserve_liquidity_supply_pubkey, false));
    accounts.push(AccountMeta::new(reserve_collateral_mint_pubkey, false));
    accounts.push(AccountMeta::new_readonly(lending_market_pubkey, false));
    accounts.push(AccountMeta::new_readonly(authority.0, false));
    accounts.push(AccountMeta::new(destination_deposit_collateral_pubkey, false));
    accounts.push(AccountMeta::new(obligation_pubkey, false));
    accounts.push(AccountMeta::new(obligation_owner_pubkey, true));
    accounts.push(AccountMeta::new_readonly(reserve_liquidity_pyth_oracle_pubkey, false));
    accounts.push(AccountMeta::new_readonly(reserve_liquidity_switchboard_oracle_pubkey, false));
    accounts.push(AccountMeta::new_readonly(user_transfer_authority_pubkey, true));
    accounts.push(AccountMeta::new_readonly(token_program_id(), false));
    let data = (LendingInstruction::DepositReserveLiquidityAndObligationCollateral { liquidity_amount }).try_to_vec();
    let instruction = Instruction { program_id, accounts, data };
    assert(instruction@.accounts =~= deposit_reserve_liquidity_and_obligation_collateral_accounts(program_id, source_liquidity_pubkey, user_collateral_pubkey, reserve_pubkey, reserve_liquidity_supply_pubkey, reserve_collateral_mint_pubkey, lending_market_pubkey, destination_deposit_collateral_pubkey, obligation_pubkey, obligation_owner_pubkey, reserve_liquidity_pyth_oracle_pubkey, reserve_liquidity_switchboard_oracle_pubkey, user_transfer_authority_pubkey, (authority.0@, authority.1)));
    Some(instruction)
}

/// The accounts of the instruction that `withdraw_obligation_collateral_and_redeem_reserve_collateral` makes, in order.
pub open spec fn withdraw_obligation_collateral_and_redeem_reserve_collateral_accounts(
    program_id: Pubkey,
    source_collateral_pubkey: Pubkey,
    destination_collateral_pubkey: Pubkey,
    withdraw_reserve_pubkey: Pubkey,
    obligation_pubkey: Pubkey,
    lending_market_pubkey: Pubkey,
    destination_liquidity_pubkey: Pubkey,
    reserve_collateral_mint_pubkey: Pubkey,
    reserve_liquidity_supply_pubkey: Pubkey,
    obligation_owner_pubkey: Pubkey,
    user_transfer_authority_pubkey: Pubkey,
    authority: (Seq<u8>, u8),
) -> Seq<AccountMetaView> {
    seq![
        writable(source_collateral_pubkey@, false),
        writable(destination_collateral_pubkey@, false),
        writable(withdraw_reserve_pubkey@, false),
        writable(obligation_pubkey@, false),
        readonly(lending_market_pubkey@, false),
        readonly(authority.0, false),
        writable(destination_liquidity_pubkey@, false),
        writable(reserve_collateral_mint_pubkey@, false),
        writable(reserve_liquidity_supply_pubkey@, false),
        readonly(obligation_owner_pubkey@, true),
        readonly(user_transfer_authority_pubkey@, true),
        readonly(token_program_bytes(), false),
    ]
}

/// Creates a 'WithdrawObligationCollateralAndRedeemReserveCollateral' instruction. `None` in the event that no authority can be derived for the
/// market.
#[allow(clippy::too_many_arguments)]
pub fn withdraw_obligation_collateral_and_redeem_reserve_collateral(
    program_id: Pubkey,
    collateral_amount: u64,
    source_collateral_pubkey: Pubkey,
    destination_collateral_pubkey: Pubkey,
    withdraw_reserve_pubkey: Pubkey,
    obligation_pubkey: Pubkey,
    lending_market_pubkey: Pubkey,
    destination_liquidity_pubkey: Pubkey,
    reserve_collateral_mint_pubkey: Pubkey,
    reserve_liquidity_supply_pubkey: Pubkey,
    obligation_owner_pubkey: Pubkey,
    user_transfer_authority_pubkey: Pubkey,
) -> (r: Option<Instruction>)
    ensures
        match program_address(lending_market_pubkey@, program_id@) {
            Some(authority) => r is Some && r->0@ == (InstructionView {
                program_id: program_id@,
                accounts: withdraw_obligation_collateral_and_redeem_reserve_collateral_accounts(program_id, source_collateral_pubkey, destination_collateral_pubkey, withdraw_reserve_pubkey, obligation_pubkey, lending_market_pubkey, destination_liquidity_pubkey, reserve_collateral_mint_pubkey, reserve_liquidity_supply_pubkey, obligation_owner_pubkey, user_transfer_authority_pubkey, authority),
                data: (LendingInstruction::WithdrawObligationCollateralAndRedeemReserveCollateral {
                    collateral_amount,
                }).serialized(),
            }),
            None => r is None,
        },
{
    let authority = match find_market_authority(&lending_market_pubkey, &program_id) {
        Some(found) => found,
        None => {
            return None;
        },
    };
    let mut accounts: Vec<AccountMeta> = Vec::new();
    accounts.push(AccountMeta::new(source_collateral_pubkey, false));
    accounts.push(AccountMeta::new(destination_collateral_pubkey, false));
    accounts.push(AccountMeta::new(withdraw_reserve_pubkey, false));
    accounts.push(AccountMeta::new(obligation_pubkey, false));
    accounts.push(AccountMeta::new_readonly(lending_market_pubkey, false));
    accounts.push(AccountMeta::new_readonly(authority.0, false));
    accounts.push(AccountMeta::new(destination_liquidity_pubkey, false));
    accounts.push(AccountMeta::new(reserve_collateral_mint_pubkey, false));
    accounts.push(AccountMeta::new(reserve_liquidity_supply_pubkey, false));
    accounts.push(AccountMeta::new_readonly(obligation_owner_pubkey, true));
    accounts.push(AccountMeta::new_readonly(user_transfer_authority_pubkey, true));
    accounts.push(AccountMeta::new_readonly(token_program_id(), false));
    let data = (LendingInstruction::WithdrawObligationCollateralAndRedeemReserveCollateral {
        collateral_amount,
    }).try_to_vec();
    let instruction = Instruction { program_id, accounts, data };
    assert(instruction@.accounts =~= withdraw_obligation_collateral_and_redeem_reserve_collateral_accounts(program_id, source_collateral_pubkey, destination_collateral_pubkey, withdraw_reserve_pubkey, obligation_pubkey, lending_market_pubkey, destination_liquidity_pubkey, reserve_collateral_mint_pubkey, reserve_liquidity_supply_pubkey, obligation_owner_pubkey, user_transfer_authority_pubkey, (authority.0@, authority.1)));
    Some(instruction)
}

/// The accounts of the instruction that `withdraw_obligation_collateral` makes, in order.
pub open spec fn withdraw_obligation_collateral_accounts(
    program_id: Pubkey,
    source_collateral_pubkey: Pubkey,
    destination_collateral_pubkey: Pubkey,
    withdraw_reserve_pubkey: Pubkey,
    obligation_pubkey: Pubkey,
    lending_market_pubkey: Pubkey,
    obligation_owner_pubkey: Pubkey,
    authority: (Seq<u8>, u8),
) -> Seq<AccountMetaView> {
    seq![
        writable(source_collateral_pubkey@, false),
        writable(destination_collateral_pubkey@, false),
        readonly(withdraw_reserve_pubkey@, false),
        writable(obligation_pubkey@, false),
        readonly(lending_market_pubkey@, false),
        readonly(authority.0, false),
        readonly(obligation_owner_pubkey@, true),
        readonly(token_program_bytes(), false),
    ]
}

/// Creates a 'WithdrawObligationCollateral' instruction. `None` in the event that no authority can be derived for the
/// market.
#[allow(clippy::too_many_arguments)]
pub fn withdraw_obligation_collateral(
    program_id: Pubkey,
    collateral_amount: u64,
    source_collateral_pubkey: Pubkey,
    destination_collateral_pubkey: Pubkey,
    withdraw_reserve_pubkey: Pubkey,
    obligation_pubkey: Pubkey,
    lending_market_pubkey: Pubkey,
    obligation_owner_pubkey: Pubkey,
) -> (r: Option<Instruction>)
    ensures
        match program_address(lending_market_pubkey@, program_id@) {
            Some(authority) => r is Some && r->0@ == (InstructionView {
                program_id: program_id@,
                accounts: withdraw_obligation_collateral_accounts(program_id, source_collateral_pubkey, destination_collateral_pubkey, withdraw_reserve_pubkey, obligation_pubkey, lending_market_pubkey, obligation_owner_pubkey, authority),
                data: (LendingInstruction::WithdrawObligationCollateral { collateral_amount }).serialized(),
            }),
            None => r is None,
        },
{
    let authority = match find_market_authority(&lending_market_pubkey, &program_id) {
        Some(found) => found,
        None => {
            return None;
        },
    };
    let mut accounts: Vec<AccountMeta> = Vec::new();
    accounts.push(AccountMeta::new(source_collateral_pubkey, false));
    accounts.push(AccountMeta::new(destination_collateral_pubkey, false));
    accounts.push(AccountMeta::new_readonly(withdraw_reserve_pubkey, false));
    accounts.push(AccountMeta::new(obligation_pubkey, false));
    accounts.push(AccountMeta::new_readonly(lending_market_pubkey, false));
    accounts.push(AccountMeta::new_readonly(authority.0, false));
    accounts.push(AccountMeta::new_readonly(obligation_owner_pubkey, true));
    accounts.push(AccountMeta::new_readonly(token_program_id(), false));
    let data = (LendingInstruction::WithdrawObligationCollateral { collateral_amount }).try_to_vec();
    let instruction = Instruction { program_id, accounts, data };
    assert(instruction@.accounts =~= withdraw_obligation_collateral_accounts(program_id, source_collateral_pubkey, destination_collateral_pubkey, withdraw_reserve_pubkey, obligation_pubkey, lending_market_pubkey, obligation_owner_pubkey, (authority.0@, authority.1)));
    Some(instruction)
}

/// The accounts of the instruction that `repay_obligation_liquidity` makes, in order.
pub open spec fn repay_obligation_liquidity_accounts(
    program_id: Pubkey,
    source_liquidity_pubkey: Pubkey,
    destination_liquidity_pubkey: Pubkey,
    repay_reserve_pubkey: Pubkey,
    obligation_pubkey: Pubkey,
    lending_market_pubkey: Pubkey,
    user_transfer_authority_pubkey: Pubkey,
) -> Seq<AccountMetaView> {
    seq![
        writable(source_liquidity_pubkey@, false),
        writable(destination_liquidity_pubkey@, false),
        writable(repay_reserve_pubkey@, false),
        writable(obligation_pubkey@, false),
        readonly(lending_market_pubkey@, false),
        readonly(user_transfer_authority_pubkey@, true),
        readonly(token_program_bytes(), false),
    ]
}

/// Creates a `RepayObligationLiquidity` instruction
#[allow(clippy::too_many_arguments)]
pub fn repay_obligation_liquidity(
    program_id: Pubkey,
    liquidity_amount: u64,
    source_liquidity_pubkey: Pubkey,
    destination_liquidity_pubkey: Pubkey,
    repay_reserve_pubkey: Pubkey,
    obligation_pubkey: Pubkey,
    lending_market_pubkey: Pubkey,
    user_transfer_authority_pubkey: Pubkey,
) -> (r: Instruction)
    ensures
        r@ == (InstructionView {
            program_id: program_id@,
            accounts: repay_obligation_liquidity_accounts(program_id, source_liquidity_pubkey, destination_liquidity_pubkey, repay_reserve_pubkey, obligation_pubkey, lending_market_pubkey, user_transfer_authority_pubkey),
            data: (LendingInstruction::RepayObligationLiquidity { liquidity_amount }).serialized(),
        }),
{
    let mut accounts: Vec<AccountMeta> = Vec::new();
    accounts.push(AccountMeta::new(source_liquidity_pubkey, false));
    accounts.push(AccountMeta::new(destination_liquidity_pubkey, false));
    accounts.push(AccountMeta::new(repay_reserve_pubkey, false));
    accounts.push(AccountMeta::new(obligation_pubkey, false));
    accounts.push(AccountMeta::new_readonly(lending_market_pubkey, false));
    accounts.push(AccountMeta::new_readonly(user_transfer_authority_pubkey, true));
    accounts.push(AccountMeta::new_readonly(token_program_id(), false));
    let data = (LendingInstruction::RepayObligationLiquidity { liquidity_amount }).try_to_vec();
    let instruction = Instruction { program_id, accounts, data };
    assert(instruction@.accounts =~= repay_obligation_liquidity_accounts(program_id, source_liquidity_pubkey, destination_liquidity_pubkey, repay_reserve_pubkey, obligation_pubkey, lending_market_pubkey, user_transfer_authority_pubkey));
    instruction
}

/// The accounts of the instruction that `liquidate_obligation` makes, in order.
pub open spec fn liquidate_obligation_accounts(
    program_id: Pubkey,
    source_liquidity_pubkey: Pubkey,
    destination_collateral_pubkey: Pubkey,
    repay_reserve_pubkey: Pubkey,
    repay_reserve_liquidity_supply_pubkey: Pubkey,
    withdraw_reserve_pubkey: Pubkey,
    withdraw_reserve_collateral_supply_pubkey: Pubkey,
    obligation_pubkey: Pubkey,
    lending_market_pubkey: Pubkey,
    user_transfer_authority_pubkey: Pubkey,
    authority: (Seq<u8>, u8),
) -> Seq<AccountMetaView> {
    seq![
        writable(source_liquidity_pubkey@, false),
        writable(destination_collateral_pubkey@, false),
        writable(repay_reserve_pubkey@, false),
        writable(repay_reserve_liquidity_supply_pubkey@, false),
        readonly(withdraw_reserve_pubkey@, false),
        writable(withdraw_reserve_collateral_supply_pubkey@, false),
        writable(obligation_pubkey@, false),
        readonly(lending_market_pubkey@, false),
        readonly(authority.0, false),
        readonly(user_transfer_authority_pubkey@, true),
        readonly(token_program_bytes(), false),
    ]
}

/// Creates a `LiquidateObligation` instruction `None` in the event that no authority can be derived for the
/// market.
#[allow(clippy::too_many_arguments)]
pub fn liquidate_obligation(
    program_id: Pubkey,
    liquidity_amount: u64,
    source_liquidity_pubkey: Pubkey,
    destination_collateral_pubkey: Pubkey,
    repay_reserve_pubkey: Pubkey,
    repay_reserve_liquidity_supply_pubkey: Pubkey,
    withdraw_reserve_pubkey: Pubkey,
    withdraw_reserve_collateral_supply_pubkey: Pubkey,
    obligation_pubkey: Pubkey,
    lending_market_pubkey: Pubkey,
    user_transfer_authority_pubkey: Pubkey,
) -> (r: Option<Instruction>)
    ensures
        match program_address(lending_market_pubkey@, program_id@) {
            Some(authority) => r is Some && r->0@ == (InstructionView {
                program_id: program_id@,
                accounts: liquidate_obligation_accounts(program_id, source_liquidity_pubkey, destination_collateral_pubkey, repay_reserve_pubkey, repay_reserve_liquidity_supply_pubkey, withdraw_reserve_pubkey, withdraw_reserve_collateral_supply_pubkey, obligation_pubkey, lending_market_pubkey, user_transfer_authority_pubkey, authority),
                data: (LendingInstruction::LiquidateObligation { liquidity_amount }).serialized(),
            }),
            None => r is None,
        },
{
    let authority = match find_market_authority(&lending_market_pubkey, &program_id) {
        Some(found) => found,
        None => {
            return None;
        },
    };
    let mut accounts: Vec<AccountMeta> = Vec::new();
    accounts.push(AccountMeta::new(source_liquidity_pubkey, false));
    accounts.push(AccountMeta::new(destination_collateral_pubkey, false));
    accounts.push(AccountMeta::new(repay_reserve_pubkey, false));
    accounts.push(AccountMeta::new(repay_reserve_liquidity_supply_pubkey, false));
    accounts.push(AccountMeta::new_readonly(withdraw_reserve_pubkey, false));
    accounts.push(AccountMeta::new(withdraw_reserve_collateral_supply_pubkey, false));
    accounts.push(AccountMeta::new(obligation_pubkey, false));
    accounts.push(AccountMeta::new_readonly(lending_market_pubkey, false));
    accounts.push(AccountMeta::new_readonly(authority.0, false));
    accounts.push(AccountMeta::new_readonly(user_transfer_authority_pubkey, true));
    accounts.push(AccountMeta::new_readonly(token_program_id(), false));
    let data = (LendingInstruction::LiquidateObligation { liquidity_amount }).try_to_vec();
    let instruction = Instruction { program_id, accounts, data };
    assert(instruction@.accounts =~= liquidate_obligation_accounts(program_id, source_liquidity_pubkey, destination_collateral_pubkey, repay_reserve_pubkey, repay_reserve_liquidity_supply_pubkey, withdraw_reserve_pubkey, withdraw_reserve_collateral_supply_pubkey, obligation_pubkey, lending_market_pubkey, user_transfer_authority_pubkey, (authority.0@, authority.1)));
    Some(instruction)
}

/// The accounts of the instruction that `update_reserve_config` makes, in order.
pub open spec fn update_reserve_config_accounts(
    program_id: Pubkey,
    config: ReserveConfig,
    reserve_pubkey: Pubkey,
    lending_market_pubkey: Pubkey,
    lending_market_owner_pubkey: Pubkey,
    pyth_product_pubkey: Pubkey,
    pyth_price_pubkey: Pubkey,
    switchboard_feed_pubkey: Pubkey,
    authority: (Seq<u8>, u8),
) -> Seq<AccountMetaView> {
    seq![
        writable(reserve_pubkey@, false),
        readonly(lending_market_pubkey@, false),
        readonly(authority.0, false),
        readonly(lending_market_owner_pubkey@, true),
        readonly(pyth_product_pubkey@, false),
        readonly(pyth_price_pubkey@, false),
        readonly(switchboard_feed_pubkey@, false),
    ]
}

/// Creates an 'UpdateReserveConfig' instruction. `None` in the event that no authority can be derived for the
/// market.
#[allow(clippy::too_many_arguments)]
pub fn update_reserve_config(
    program_id: Pubkey,
    config: ReserveConfig,
    reserve_pubkey: Pubkey,
    lending_market_pubkey: Pubkey,
    lending_market_owner_pubkey: Pubkey,
    pyth_product_pubkey: Pubkey,
    pyth_price_pubkey: Pubkey,
    switchboard_feed_pubkey: Pubkey,
) -> (r: Option<Instruction>)
    ensures
        match program_address(lending_market_pubkey@, program_id@) {
            Some(authority) => r is Some && r->0@ == (InstructionView {
                program_id: program_id@,
                accounts: update_reserve_config_accounts(program_id, config, reserve_pubkey, lending_market_pubkey, lending_market_owner_pubkey, pyth_product_pubkey, pyth_price_pubkey, switchboard_feed_pubkey, authority),
                data: (LendingInstruction::UpdateReserveConfig { config }).serialized(),
            }),
            None => r is None,
        },
{
    let authority = match find_market_authority(&lending_market_pubkey, &program_id) {
        Some(found) => found,
        None => {
            return None;
        },
    };
    let mut accounts: Vec<AccountMeta> = Vec::new();
    accounts.push(AccountMeta::new(reserve_pubkey, false));
    accounts.push(AccountMeta::new_readonly(lending_market_pubkey, false));
    accounts.push(AccountMeta::new_readonly(authority.0, false));
    accounts.push(AccountMeta::new_readonly(lending_market_owner_pubkey, true));
    accounts.push(AccountMeta::new_readonly(pyth_product_pubkey, false));
    accounts.push(AccountMeta::new_readonly(pyth_price_pubkey, false));
    accounts.push(AccountMeta::new_readonly(switchboard_feed_pubkey, false));
    let data = (LendingInstruction::UpdateReserveConfig { config }).try_to_vec();
    let instruction = Instruction { program_id, accounts, data };
    assert(instruction@.accounts =~= update_reserve_config_accounts(program_id, config, reserve_pubkey, lending_market_pubkey, lending_market_owner_pubkey, pyth_product_pubkey, pyth_price_pubkey, switchboard_feed_pubkey, (authority.0@, authority.1)));
    Some(instruction)
}

/// The accounts of the instruction that `liquidate_obligation_and_redeem_reserve_collateral` makes, in order.
pub open spec fn liquidate_obligation_and_redeem_reserve_collateral_accounts(
    program_id: Pubkey,
    source_liquidity_pubkey: Pubkey,
    destination_collateral_pubkey: Pubkey,
    destination_liquidity_pubkey: Pubkey,
    repay_reserve_pubkey: Pubkey,
    repay_reserve_liquidity_supply_pubkey: Pubkey,
    withdraw_reserve_pubkey: Pubkey,
    withdraw_reserve_collateral_mint_pubkey: Pubkey,
    withdraw_reserve_collateral_supply_pubkey: Pubkey,
    withdraw_reserve_liquidity_supply_pubkey: Pubkey,
    withdraw_reserve_liquidity_fee_receiver_pubkey: Pubkey,
    obligation_pubkey: Pubkey,
    lending_market_pubkey: Pubkey,
    user_transfer_authority_pubkey: Pubkey,
    authority: (Seq<u8>, u8),
) -> Seq<AccountMetaView> {
    seq![
        writable(source_liquidity_pubkey@, false),
        writable(destination_collateral_pubkey@, false),
        writable(destination_liquidity_pubkey@, false),
        writable(repay_reserve_pubkey@, false),
        writable(repay_reserve_liquidity_supply_pubkey@, false),
        writable(withdraw_reserve_pubkey@, false),
        writable(withdraw_reserve_collateral_mint_pubkey@, false),
        writable(withdraw_reserve_collateral_supply_pubkey@, false),
        writable(withdraw_reserve_liquidity_supply_pubkey@, false),
        writable(withdraw_reserve_liquidity_fee_receiver_pubkey@, false),
        writable(obligation_pubkey@, false),
        readonly(lending_market_pubkey@, false),
        readonly(authority.0, false),
        readonly(user_transfer_authority_pubkey@, true),
        readonly(token_program_bytes(), false),
    ]
}

/// Creates a `LiquidateObligationAndRedeemReserveCollateral` instruction `None` in the event that no authority can be derived for the
/// market.
#[allow(clippy::too_many_arguments)]
pub fn liquidate_obligation_and_redeem_reserve_collateral(
    program_id: Pubkey,
    liquidity_amount: u64,
    source_liquidity_pubkey: Pubkey,
    destination_collateral_pubkey: Pubkey,
    destination_liquidity_pubkey: Pubkey,
    repay_reserve_pubkey: Pubkey,
    repay_reserve_liquidity_supply_pubkey: Pubkey,
    withdraw_reserve_pubkey: Pubkey,
    withdraw_reserve_collateral_mint_pubkey: Pubkey,
    withdraw_reserve_collateral_supply_pubkey: Pubkey,
    withdraw_reserve_liquidity_supply_pubkey: Pubkey,
    withdraw_reserve_liquidity_fee_receiver_pubkey: Pubkey,
    obligation_pubkey: Pubkey,
    lending_market_pubkey: Pubkey,
    user_transfer_authority_pubkey: Pubkey,
) -> (r: Option<Instruction>)
    ensures
        match program_address(lending_market_pubkey@, program_id@) {
            Some(authority) => r is Some && r->0@ == (InstructionView {
                program_id: program_id@,
                accounts: liquidate_obligation_and_redeem_reserve_collateral_accounts(program_id, source_liquidity_pubkey, destination_collateral_pubkey, destination_liquidity_pubkey, repay_reserve_pubkey, repay_reserve_liquidity_supply_pubkey, withdraw_reserve_pubkey, withdraw_reserve_collateral_mint_pubkey, withdraw_reserve_collateral_supply_pubkey, withdraw_reserve_liquidity_supply_pubkey, withdraw_reserve_liquidity_fee_receiver_pubkey, obligation_pubkey, lending_market_pubkey, user_transfer_authority_pubkey, authority),
                data: (LendingInstruction::LiquidateObligationAndRedeemReserveCollateral { liquidity_amount }).serialized(),
            }),
            None => r is None,
        },
{
    let authority = match find_market_authority(&lending_market_pubkey, &program_id) {
        Some(found) => found,
        None => {
            return None;
        },
    };
    let mut accounts: Vec<AccountMeta> = Vec::new();
    accounts.push(AccountMeta::new(source_liquidity_pubkey, false));
    accounts.push(AccountMeta::new(destination_collateral_pubkey, false));
    accounts.push(AccountMeta::new(destination_liquidity_pubkey, false));
    accounts.push(AccountMeta::new(repay_reserve_pubkey, false));
    accounts.push(AccountMeta::new(repay_reserve_liquidity_supply_pubkey, false));
    accounts.push(AccountMeta::new(withdraw_reserve_pubkey, false));
    accounts.push(AccountMeta::new(withdraw_reserve_collateral_mint_pubkey, false));
    accounts.push(AccountMeta::new(withdraw_reserve_collateral_supply_pubkey, false));
    accounts.push(AccountMeta::new(withdraw_reserve_liquidity_supply_pubkey, false));
    accounts.push(AccountMeta::new(withdraw_reserve_liquidity_fee_receiver_pubkey, false));
    accounts.push(AccountMeta::new(obligation_pubkey, false));
    accounts.push(AccountMeta::new_readonly(lending_market_pubkey, false));
    accounts.push(AccountMeta::new_readonly(authority.0, false));
    accounts.push(AccountMeta::new_readonly(user_transfer_authority_pubkey, true));
    accounts.push(AccountMeta::new_readonly(token_program_id(), false));
    let data = (LendingInstruction::LiquidateObligationAndRedeemReserveCollateral { liquidity_amount }).try_to_vec();
    let instruction = Instruction { program_id, accounts, data };
    assert(instruction@.accounts =~= liquidate_obligation_and_redeem_reserve_collateral_accounts(program_id, source_liquidity_pubkey, destination_collateral_pubkey, destination_liquidity_pubkey, repay_reserve_pubkey, repay_reserve_liquidity_supply_pubkey, withdraw_reserve_pubkey, withdraw_reserve_collateral_mint_pubkey, withdraw_reserve_collateral_supply_pubkey, withdraw_reserve_liquidity_supply_pubkey, withdraw_reserve_liquidity_fee_receiver_pubkey, obligation_pubkey, lending_market_pubkey, user_transfer_authority_pubkey, (authority.0@, authority.1)));
    Some(instruction)
}

/// The accounts of the instruction that `redeem_fees` makes, in order.
pub open spec fn redeem_fees_accounts(
    program_id: Pubkey,
    reserve_pubkey: Pubkey,
    reserve_liquidity_fee_receiver_pubkey: Pubkey,
    reserve_supply_liquidity_pubkey: Pubkey,
    lending_market_pubkey: Pubkey,
    authority: (Seq<u8>, u8),
) -> Seq<AccountMetaView> {
    seq![
        writable(reserve_pubkey@, false),
        writable(reserve_liquidity_fee_receiver_pubkey@, false),
        writable(reserve_supply_liquidity_pubkey@, false),
        readonly(lending_market_pubkey@, false),
        readonly(authority.0, false),
        readonly(token_program_bytes(), false),
    ]
}

/// Creates a `RedeemFees` instruction `None` in the event that no authority can be derived for the
/// market.
pub fn redeem_fees(
    program_id: Pubkey,
    reserve_pubkey: Pubkey,
    reserve_liquidity_fee_receiver_pubkey: Pubkey,
    reserve_supply_liquidity_pubkey: Pubkey,
    lending_market_pubkey: Pubkey,
) -> (r: Option<Instruction>)
    ensures
        match program_address(lending_market_pubkey@, program_id@) {
            Some(authority) => r is Some && r->0@ == (InstructionView {
                program_id: program_id@,
                accounts: redeem_fees_accounts(program_id, reserve_pubkey, reserve_liquidity_fee_receiver_pubkey, reserve_supply_liquidity_pubkey, lending_market_pubkey, authority),
                data: (LendingInstruction::RedeemFees).serialized(),
            }),
            None => r is None,
        },
{
    let authority = match find_market_authority(&lending_market_pubkey, &program_id) {
        Some(found) => found,
        None => {
            return None;
        },
    };
    let mut accounts: Vec<AccountMeta> = Vec::new();
    accounts.push(AccountMeta::new(reserve_pubkey, false));
    accounts.push(AccountMeta::new(reserve_liquidity_fee_receiver_pubkey, false));
    accounts.push(AccountMeta::new(reserve_supply_liquidity_pubkey, false));
    accounts.push(AccountMeta::new_readonly(lending_market_pubkey, false));
    accounts.push(AccountMeta::new_readonly(authority.0, false));
    accounts.push(AccountMeta::new_readonly(token_program_id(), false));
    let data = (LendingInstruction::RedeemFees).try_to_vec();
    let instruction = Instruction { program_id, accounts, data };
    assert(instruction@.accounts =~= redeem_fees_accounts(program_id, reserve_pubkey, reserve_liquidity_fee_receiver_pubkey, reserve_supply_liquidity_pubkey, lending_market_pubkey, (authority.0@, authority.1)));
    Some(instruction)
}

/// The accounts of the instruction that `flash_borrow_reserve_liquidity` makes, in order.
pub open spec fn flash_borrow_reserve_liquidity_accounts(
    program_id: Pubkey,
    source_liquidity_pubkey: Pubkey,
    destination_liquidity_pubkey: Pubkey,
    reserve_pubkey: Pubkey,
    lending_market_pubkey: Pubkey,
    authority: (Seq<u8>, u8),
) -> Seq<AccountMetaView> {
    seq![
        writable(source_liquidity_pubkey@, false),
        writable(destination_liquidity_pubkey@, false),
        writable(reserve_pubkey@, false),
        readonly(lending_market_pubkey@, false),
        readonly(authority.0, false),
        readonly(instructions_sysvar_bytes(), false),
        readonly(token_program_bytes(), false),
    ]
}

/// Creates a 'FlashBorrowReserveLiquidity' instruction. `None` in the event that no authority can be derived for the
/// market.
pub fn flash_borrow_reserve_liquidity(
    program_id: Pubkey,
    liquidity_amount: u64,
    source_liquidity_pubkey: Pubkey,
    destination_liquidity_pubkey: Pubkey,
    reserve_pubkey: Pubkey,
    lending_market_pubkey: Pubkey,
) -> (r: Option<Instruction>)
    ensures
        match program_address(lending_market_pubkey@, program_id@) {
            Some(authority) => r is Some && r->0@ == (InstructionView {
                program_id: program_id@,
                accounts: flash_borrow_reserve_liquidity_accounts(program_id, source_liquidity_pubkey, destination_liquidity_pubkey, reserve_pubkey, lending_market_pubkey, authority),
                data: (LendingInstruction::FlashBorrowReserveLiquidity { liquidity_amount }).serialized(),
            }),
            None => r is None,
        },
{
    let authority = match find_market_authority(&lending_market_pubkey, &program_id) {
        Some(found) => found,
        None => {
            return None;
        },
    };
    let mut accounts: Vec<AccountMeta> = Vec::new();
    accounts.push(AccountMeta::new(source_liquidity_pubkey, false));
    accounts.push(AccountMeta::new(destination_liquidity_pubkey, false));
    accounts.push(AccountMeta::new(reserve_pubkey, false));
    accounts.push(AccountMeta::new_readonly(lending_market_pubkey, false));
    accounts.push(AccountMeta::new_readonly(authority.0, false));
    accounts.push(AccountMeta::new_readonly(instructions_sysvar_id(), false));
    accounts.push(AccountMeta::new_readonly(token_program_id(), false));
    let data = (LendingInstruction::FlashBorrowReserveLiquidity { liquidity_amount }).try_to_vec();
    let instruction = Instruction { program_id, accounts, data };
    assert(instruction@.accounts =~= flash_borrow_reserve_liquidity_accounts(program_id, source_liquidity_pubkey, destination_liquidity_pubkey, reserve_pubkey, lending_market_pubkey, (authority.0@, authority.1)));
    Some(instruction)
}

/// The accounts of the instruction that `flash_repay_reserve_liquidity` makes, in order.
pub open spec fn flash_repay_reserve_liquidity_accounts(
    program_id: Pubkey,
    source_liquidity_pubkey: Pubkey,
    destination_liquidity_pubkey: Pubkey,
    reserve_liquidity_fee_receiver_pubkey: Pubkey,
    host_fee_receiver_pubkey: Pubkey,
    reserve_pubkey: Pubkey,
    lending_market_pubkey: Pubkey,
    user_transfer_authority_pubkey: Pubkey,
) -> Seq<AccountMetaView> {
    seq![
        writable(source_liquidity_pubkey@, false),
        writable(destination_liquidity_pubkey@, false),
        writable(reserve_liquidity_fee_receiver_pubkey@, false),
        writable(host_fee_receiver_pubkey@, false),
        writable(reserve_pubkey@, false),
        readonly(lending_market_pubkey@, false),
        readonly(user_transfer_authority_pubkey@, true),
        readonly(instructions_sysvar_bytes(), false),
        readonly(token_program_bytes(), false),
    ]
}

/// Creates a 'FlashRepayReserveLiquidity' instruction.
#[allow(clippy::too_many_arguments)]
pub fn flash_repay_reserve_liquidity(
    program_id: Pubkey,
    liquidity_amount: u64,
    borrow_instruction_index: u8,
    source_liquidity_pubkey: Pubkey,
    destination_liquidity_pubkey: Pubkey,
    reserve_liquidity_fee_receiver_pubkey: Pubkey,
    host_fee_receiver_pubkey: Pubkey,
    reserve_pubkey: Pubkey,
    lending_market_pubkey: Pubkey,
    user_transfer_authority_pubkey: Pubkey,
) -> (r: Instruction)
    ensures
        r@ == (InstructionView {
            program_id: program_id@,
            accounts: flash_repay_reserve_liquidity_accounts(program_id, source_liquidity_pubkey, destination_liquidity_pubkey, reserve_liquidity_fee_receiver_pubkey, host_fee_receiver_pubkey, reserve_pubkey, lending_market_pubkey, user_transfer_authority_pubkey),
            data: (LendingInstruction::FlashRepayReserveLiquidity {
                liquidity_amount,
                borrow_instruction_index,
            }).serialized(),
        }),
{
    let mut accounts: Vec<AccountMeta> = Vec::new();
    accounts.push(AccountMeta::new(source_liquidity_pubkey, false));
    accounts.push(AccountMeta::new(destination_liquidity_pubkey, false));
    accounts.push(AccountMeta::new(reserve_liquidity_fee_receiver_pubkey, false));
    accounts.push(AccountMeta::new(host_fee_receiver_pubkey, false));
    accounts.push(AccountMeta::new(reserve_pubkey, false));
    accounts.push(AccountMeta::new_readonly(lending_market_pubkey, false));
    accounts.push(AccountMeta::new_readonly(user_transfer_authority_pubkey, true));
    accounts.push(AccountMeta::new_readonly(instructions_sysvar_id(), false));
    accounts.push(AccountMeta::new_readonly(token_program_id(), false));
    let data = (LendingInstruction::FlashRepayReserveLiquidity {
        liquidity_amount,
        borrow_instruction_index,
    }).try_to_vec();
    let instruction = Instruction { program_id, accounts, data };
    assert(instruction@.accounts =~= flash_repay_reserve_liquidity_accounts(program_id, source_liquidity_pubkey, destination_liquidity_pubkey, reserve_liquidity_fee_receiver_pubkey, host_fee_receiver_pubkey, reserve_pubkey, lending_market_pubkey, user_transfer_authority_pubkey));
    instruction
}

/// The accounts of the instruction that `refresh_obligation` makes: the
/// obligation, then the reserves in their order.
pub open spec fn refresh_obligation_accounts(
    obligation_pubkey: Pubkey,
    reserve_pubkeys: Seq<Pubkey>,
) -> Seq<AccountMetaView> {
    seq![writable(obligation_pubkey@, false)] + reserve_pubkeys.map_values(
        |key: Pubkey| readonly(key@, false),
    )
}

/// Creates a 'RefreshObligation' instruction.
pub fn refresh_obligation(
    program_id: Pubkey,
    obligation_pubkey: Pubkey,
    reserve_pubkeys: Vec<Pubkey>,
) -> (r: Instruction)
    ensures
        r@ == (InstructionView {
            program_id: program_id@,
            accounts: refresh_obligation_accounts(obligation_pubkey, reserve_pubkeys@),
            data: LendingInstruction::RefreshObligation.serialized(),
        }),
{
    let mut accounts: Vec<AccountMeta> = Vec::new();
    accounts.push(AccountMeta::new(obligation_pubkey, false));
    let mut i: usize = 0;
    while i < reserve_pubkeys.len()
        invariant
            i <= reserve_pubkeys@.len(),
            accounts@.len() == i + 1,
            accounts@[0]@ == writable(obligation_pubkey@, false),
            forall|j: int|
                0 <= j < i ==> (#[trigger] accounts@[j + 1])@ == readonly(
                    reserve_pubkeys@[j]@,
                    false,
                ),
        decreases reserve_pubkeys@.len() - i,
    {
        accounts.push(AccountMeta::new_readonly(reserve_pubkeys[i], false));
        i = i + 1;
    }
    proof {
        let made = accounts@.map_values(|m: AccountMeta| m@);
        let wanted = refresh_obligation_accounts(obligation_pubkey, reserve_pubkeys@);
        assert(made.len() == wanted.len());
        assert forall|k: int| 0 <= k < made.len() implies made[k] == wanted[k] by {
            if k > 0 {
                assert(accounts@[(k - 1) + 1]@ == readonly(reserve_pubkeys@[k - 1]@, false));
            }
        }
        assert(made =~= wanted);
    }
    let data = LendingInstruction::RefreshObligation.try_to_vec();
    Instruction { program_id, accounts, data }
}

/// The accounts of the instruction that `borrow_obligation_liquidity`
/// makes, in order; the host fee receiver comes last where there is one.
pub open spec fn borrow_obligation_liquidity_accounts(
    source_liquidity_pubkey: Pubkey,
    destination_liquidity_pubkey: Pubkey,
    borrow_reserve_pubkey: Pubkey,
    borrow_reserve_liquidity_fee_receiver_pubkey: Pubkey,
    obligation_pubkey: Pubkey,
    lending_market_pubkey: Pubkey,
    obligation_owner_pubkey: Pubkey,
    host_fee_receiver_pubkey: Option<Pubkey>,
    authority: (Seq<u8>, u8),
) -> Seq<AccountMetaView> {
    let fixed = seq![
        writable(source_liquidity_pubkey@, false),
        writable(destination_liquidity_pubkey@, false),
        writable(borrow_reserve_pubkey@, false),
        writable(borrow_reserve_liquidity_fee_receiver_pubkey@, false),
        writable(obligation_pubkey@, false),
        readonly(lending_market_pubkey@, false),
        readonly(authority.0, false),
        readonly(obligation_owner_pubkey@, true),
        readonly(token_program_bytes(), false),
    ];
    match host_fee_receiver_pubkey {
        Some(host) => fixed.push(writable(host@, false)),
        None => fixed,
    }
}

/// Creates a 'BorrowObligationLiquidity' instruction. `None` in the event
/// that no authority can be derived for the market.
#[allow(clippy::too_many_arguments)]
pub fn borrow_obligation_liquidity(
    program_id: Pubkey,
    liquidity_amount: u64,
    source_liquidity_pubkey: Pubkey,
    destination_liquidity_pubkey: Pubkey,
    borrow_reserve_pubkey: Pubkey,
    borrow_reserve_liquidity_fee_receiver_pubkey: Pubkey,
    obligation_pubkey: Pubkey,
    lending_market_pubkey: Pubkey,
    obligation_owner_pubkey: Pubkey,
    host_fee_receiver_pubkey: Option<Pubkey>,
) -> (r: Option<Instruction>)
    ensures
        match program_address(lending_market_pubkey@, program_id@) {
            Some(authority) => r is Some && r->0@ == (InstructionView {
                program_id: program_id@,
                accounts: borrow_obligation_liquidity_accounts(
                    source_liquidity_pubkey,
                    destination_liquidity_pubkey,
                    borrow_reserve_pubkey,
                    borrow_reserve_liquidity_fee_receiver_pubkey,
                    obligation_pubkey,
                    lending_market_pubkey,
                    obligation_owner_pubkey,
                    host_fee_receiver_pubkey,
                    authority,
                ),
                data: (LendingInstruction::BorrowObligationLiquidity {
                    liquidity_amount,
                }).serialized(),
            }),
            None => r is None,
        },
{
    let authority = match find_market_authority(&lending_market_pubkey, &program_id) {
        Some(found) => found,
        None => {
            return None;
        },
    };
    let mut accounts: Vec<AccountMeta> = Vec::new();
    accounts.push(AccountMeta::new(source_liquidity_pubkey, false));
    accounts.push(AccountMeta::new(destination_liquidity_pubkey, false));
    accounts.push(AccountMeta::new(borrow_reserve_pubkey, false));
    accounts.push(AccountMeta::new(borrow_reserve_liquidity_fee_receiver_pubkey, false));
    accounts.push(AccountMeta::new(obligation_pubkey, false));
    accounts.push(AccountMeta::new_readonly(lending_market_pubkey, false));
    accounts.push(AccountMeta::new_readonly(authority.0, false));
    accounts.push(AccountMeta::new_readonly(obligation_owner_pubkey, true));
    accounts.push(AccountMeta::new_readonly(token_program_id(), false));
    match host_fee_receiver_pubkey {
        Some(host) => {
            accounts.push(AccountMeta::new(host, false));
        },
        None => {},
    }
    let data = (LendingInstruction::BorrowObligationLiquidity { liquidity_amount }).try_to_vec();
    let instruction = Instruction { program_id, accounts, data };
    assert(instruction@.accounts =~= borrow_obligation_liquidity_accounts(
        source_liquidity_pubkey,
        destination_liquidity_pubkey,
        borrow_reserve_pubkey,
        borrow_reserve_liquidity_fee_receiver_pubkey,
        obligation_pubkey,
        lending_market_pubkey,
        obligation_owner_pubkey,
        host_fee_receiver_pubkey,
        (authority.0@, authority.1),
    ));
    Some(instruction)
}

} // verus!
