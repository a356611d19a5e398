//! Pairing of flash borrows with their repayments inside one batch of
//! instructions.

use crate::error::LendingError;
use crate::pubkey::Pubkey;
use vstd::prelude::*;

verus! {

/// What one instruction of a batch is to the flash loan rules.
#[derive(Clone, Copy, Debug, PartialEq, Eq)]
pub enum BatchEntry {
    /// A flash borrow from `reserve`.
    FlashBorrow {
        /// The reserve that lends.
        reserve: Pubkey,
        /// What is borrowed.
        liquidity_amount: u64,
    },
    /// A flash repay to `reserve`.
    FlashRepay {
        /// The reserve that is repaid.
        reserve: Pubkey,
        /// What is paid back.
        liquidity_amount: u64,
        /// Position in the batch of the borrow that is repaid.
        borrow_instruction_index: u8,
    },
    /// An instruction of another program, or another instruction of this
    /// one.
    Other,
}

/// The outcome of going through the batch from position `from` on, for a
/// flash borrow at position `borrow_index` from `reserve` that has to be
/// repaid with at least `due`: whether a repayment was found, `found` saying
/// whether one was found before `from`. Any further flash borrow and any
/// second flash repay is `MultipleFlashBorrows`; a repay of another reserve,
/// of too little, or for another borrow is `InvalidFlashRepay`.
pub open spec fn scan_batch_spec(
    batch: Seq<BatchEntry>,
    from: nat,
    borrow_index: nat,
    reserve: Pubkey,
    due: u64,
    found: bool,
) -> Result<bool, LendingError>
    decreases batch.len() - from,
{
    if from >= batch.len() {
        Ok(found)
    } else {
        match batch[from as int] {
            BatchEntry::FlashBorrow { .. } => Err(LendingError::MultipleFlashBorrows),
            BatchEntry::FlashRepay {
                reserve: repaid,
                liquidity_amount,
                borrow_instruction_index,
            } => if found {
                Err(LendingError::MultipleFlashBorrows)
            } else if repaid != reserve || liquidity_amount < due
                || borrow_instruction_index as nat != borrow_index {
                Err(LendingError::InvalidFlashRepay)
            } else {
                scan_batch_spec(batch, from + 1, borrow_index, reserve, due, true)
            },
            BatchEntry::Other => scan_batch_spec(
                batch,
                from + 1,
                borrow_index,
                reserve,
                due,
                found,
            ),
        }
    }
}

/// Whether the flash borrow at `current_index` of `batch` may go ahead.
pub open spec fn check_flash_borrow_spec(
    batch: Seq<BatchEntry>,
    current_index: usize,
    reserve: Pubkey,
    due: u64,
    nested_call: bool,
) -> Result<(), LendingError> {
    if nested_call {
        Err(LendingError::FlashBorrowCpi)
    } else if current_index >= batch.len() {
        Err(LendingError::InvalidAccountInput)
    } else {
        match scan_batch_spec(batch, (current_index + 1) as nat, current_index as nat, reserve, due, false) {
            Err(e) => Err(e),
            Ok(found) => if found {
                Ok(())
            } else {
                Err(LendingError::NoFlashRepayFound)
            },
        }
    }
}

/// Checks a flash borrow from `reserve` at position `current_index` of
/// `batch`, which has to be repaid with at least `due`. The borrow must be
/// called directly (`FlashBorrowCpi` where `nested_call`), and exactly one
/// flash repay must follow it in the batch, to the same reserve, of at least
/// `due`, and naming this borrow; no other flash borrow may follow.
pub fn check_flash_borrow(
    batch: &Vec<BatchEntry>,
    current_index: usize,
    reserve: &Pubkey,
    due: u64,
    nested_call: bool,
) -> (r: Result<(), LendingError>)
    ensures
        r == check_flash_borrow_spec(batch@, current_index, *reserve, due, nested_call),
{
    if nested_call {
        return Err(LendingError::FlashBorrowCpi);
    }
    if current_index >= batch.len() {
        return Err(LendingError::InvalidAccountInput);
    }
    let mut found = false;
    let mut i: usize = current_index + 1;
    while i < batch.len()
        invariant
            !nested_call,
            current_index < i <= batch@.len(),
            scan_batch_spec(
                batch@,
                (current_index + 1) as nat,
                current_index as nat,
                *reserve,
                due,
                false,
            ) == scan_batch_spec(batch@, i as nat, current_index as nat, *reserve, due, found),
        decreases batch@.len() - i,
    {
        match batch[i] {
            BatchEntry::FlashBorrow { .. } => {
                return Err(LendingError::MultipleFlashBorrows);
            },
            BatchEntry::FlashRepay { reserve: repaid, liquidity_amount, borrow_instruction_index } => {
                if found {
                    return Err(LendingError::MultipleFlashBorrows);
                }
                if !repaid.key_eq(reserve) || liquidity_amount < due
                    || borrow_instruction_index as usize != current_index {
                    return Err(LendingError::InvalidFlashRepay);
                }
                found = true;
            },
            BatchEntry::Other => {},
        }
        i = i + 1;
    }
    if found {
        Ok(())
    } else {
        Err(LendingError::NoFlashRepayFound)
    }
}

/// What the flash repay at `current_index` of `batch` pays back: the amount
/// of the flash borrow that it names.
pub open spec fn check_flash_repay_spec(
    batch: Seq<BatchEntry>,
    current_index: usize,
    borrow_instruction_index: u8,
    reserve: Pubkey,
    nested_call: bool,
) -> Result<u64, LendingError> {
    if nested_call {
        Err(LendingError::FlashRepayCpi)
    } else if borrow_instruction_index as int >= current_index || current_index >= batch.len() {
        Err(LendingError::InvalidFlashRepay)
    } else {
        match batch[borrow_instruction_index as int] {
            BatchEntry::FlashBorrow { reserve: lender, liquidity_amount } => if lender == reserve {
                Ok(liquidity_amount)
            } else {
                Err(LendingError::InvalidFlashRepay)
            },
            _ => Err(LendingError::InvalidFlashRepay),
        }
    }
}

/// Checks a flash repay to `reserve` at position `current_index` of `batch`
/// and returns the principal of the borrow that it names. The repay must be
/// called directly (`FlashRepayCpi` where `nested_call`) and must name an
/// earlier flash borrow from the same reserve.
pub fn check_flash_repay(
    batch: &Vec<BatchEntry>,
    current_index: usize,
    borrow_instruction_index: u8,
    reserve: &Pubkey,
    nested_call: bool,
) -> (r: Result<u64, LendingError>)
    ensures
        r == check_flash_repay_spec(
            batch@,
            current_index,
            borrow_instruction_index,
            *reserve,
            nested_call,
        ),
{
    if nested_call {
        return Err(LendingError::FlashRepayCpi);
    }
    if borrow_instruction_index as usize >= current_index || current_index >= batch.len() {
        return Err(LendingError::InvalidFlashRepay);
    }
    match batch[borrow_instruction_index as usize] {
        BatchEntry::FlashBorrow { reserve: lender, liquidity_amount } => {
            if lender.key_eq(reserve) {
                Ok(liquidity_amount)
            } else {
                Err(LendingError::InvalidFlashRepay)
            }
        },
        _ => Err(LendingError::InvalidFlashRepay),
    }
}

} // verus!
