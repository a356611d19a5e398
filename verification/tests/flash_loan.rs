use token_lending::error::LendingError;
use token_lending::flash_loan::{check_flash_borrow, check_flash_repay, BatchEntry};
use token_lending::instruction::LendingInstruction;
use token_lending::pubkey::Pubkey;

const RESERVE: Pubkey = Pubkey([1; 32]);
const OTHER_RESERVE: Pubkey = Pubkey([2; 32]);

fn borrow(amount: u64) -> BatchEntry {
    BatchEntry::FlashBorrow { reserve: RESERVE, liquidity_amount: amount }
}

fn repay(amount: u64, index: u8) -> BatchEntry {
    BatchEntry::FlashRepay { reserve: RESERVE, liquidity_amount: amount, borrow_instruction_index: index }
}

#[test]
fn flash_borrow_with_matching_repay() {
    let batch = vec![borrow(1000), repay(1003, 0)];
    assert_eq!(check_flash_borrow(&batch, 0, &RESERVE, 1003, false), Ok(()));
    assert_eq!(check_flash_repay(&batch, 1, 0, &RESERVE, false), Ok(1000));
    // other instructions in between and around
    let batch = vec![BatchEntry::Other, borrow(1000), BatchEntry::Other, repay(2000, 1), BatchEntry::Other];
    assert_eq!(check_flash_borrow(&batch, 1, &RESERVE, 1003, false), Ok(()));
    assert_eq!(check_flash_repay(&batch, 3, 1, &RESERVE, false), Ok(1000));
}

#[test]
fn flash_repay_of_too_little() {
    let batch = vec![borrow(1000), repay(1002, 0)];
    assert_eq!(
        check_flash_borrow(&batch, 0, &RESERVE, 1003, false),
        Err(LendingError::InvalidFlashRepay)
    );
}

#[test]
fn second_flash_borrow_is_refused() {
    let batch = vec![borrow(1000), borrow(1000), repay(1003, 1)];
    assert_eq!(
        check_flash_borrow(&batch, 0, &RESERVE, 1003, false),
        Err(LendingError::MultipleFlashBorrows)
    );
}

#[test]
fn second_flash_repay_is_refused() {
    let batch = vec![borrow(1000), repay(1003, 0), repay(1003, 0)];
    assert_eq!(
        check_flash_borrow(&batch, 0, &RESERVE, 1003, false),
        Err(LendingError::MultipleFlashBorrows)
    );
}

#[test]
fn one_flash_pair_per_batch() {
    let batch = vec![borrow(1000), repay(1003, 0), borrow(1000), repay(1003, 2)];
    assert_eq!(
        check_flash_borrow(&batch, 0, &RESERVE, 1003, false),
        Err(LendingError::MultipleFlashBorrows)
    );
}

#[test]
fn flash_repay_has_to_match_the_borrow() {
    // a repay to another reserve
    let batch = vec![
        borrow(1000),
        BatchEntry::FlashRepay {
            reserve: OTHER_RESERVE,
            liquidity_amount: 1003,
            borrow_instruction_index: 0,
        },
    ];
    assert_eq!(
        check_flash_borrow(&batch, 0, &RESERVE, 1003, false),
        Err(LendingError::InvalidFlashRepay)
    );
    // a repay that names another instruction
    let batch = vec![BatchEntry::Other, borrow(1000), repay(1003, 0)];
    assert_eq!(
        check_flash_borrow(&batch, 1, &RESERVE, 1003, false),
        Err(LendingError::InvalidFlashRepay)
    );
    // no repay at all
    let batch = vec![borrow(1000), BatchEntry::Other];
    assert_eq!(
        check_flash_borrow(&batch, 0, &RESERVE, 1003, false),
        Err(LendingError::NoFlashRepayFound)
    );
    // a repay before the borrow does not count
    let batch = vec![repay(1003, 1), borrow(1000)];
    assert_eq!(
        check_flash_borrow(&batch, 1, &RESERVE, 1003, false),
        Err(LendingError::NoFlashRepayFound)
    );
    // a position outside the batch
    assert_eq!(
        check_flash_borrow(&batch, 2, &RESERVE, 1003, false),
        Err(LendingError::InvalidAccountInput)
    );
}

#[test]
fn flash_loans_in_nested_calls_are_refused() {
    let batch = vec![borrow(1000), repay(1003, 0)];
    assert_eq!(
        check_flash_borrow(&batch, 0, &RESERVE, 1003, true),
        Err(LendingError::FlashBorrowCpi)
    );
    assert_eq!(
        check_flash_repay(&batch, 1, 0, &RESERVE, true),
        Err(LendingError::FlashRepayCpi)
    );
}

#[test]
fn flash_repay_has_to_name_an_earlier_borrow_of_the_reserve() {
    let batch = vec![BatchEntry::Other, borrow(1000), repay(1003, 1)];
    assert_eq!(check_flash_repay(&batch, 2, 1, &RESERVE, false), Ok(1000));
    assert_eq!(
        check_flash_repay(&batch, 2, 0, &RESERVE, false),
        Err(LendingError::InvalidFlashRepay)
    );
    assert_eq!(
        check_flash_repay(&batch, 2, 2, &RESERVE, false),
        Err(LendingError::InvalidFlashRepay)
    );
    assert_eq!(
        check_flash_repay(&batch, 2, 3, &RESERVE, false),
        Err(LendingError::InvalidFlashRepay)
    );
    assert_eq!(
        check_flash_repay(&batch, 2, 1, &OTHER_RESERVE, false),
        Err(LendingError::InvalidFlashRepay)
    );
    assert_eq!(
        check_flash_repay(&batch, 5, 1, &RESERVE, false),
        Err(LendingError::InvalidFlashRepay)
    );
}

#[test]
fn batch_entries_from_instructions() {
    assert_eq!(
        LendingInstruction::FlashBorrowReserveLiquidity { liquidity_amount: 9 }.batch_entry(RESERVE),
        borrow(9)
    );
    assert_eq!(
        LendingInstruction::FlashRepayReserveLiquidity {
            liquidity_amount: 9,
            borrow_instruction_index: 4
        }
        .batch_entry(RESERVE),
        repay(9, 4)
    );
    assert_eq!(LendingInstruction::RefreshReserve.batch_entry(RESERVE), BatchEntry::Other);
    assert_eq!(
        LendingInstruction::FlashLoan { amount: 1 }.batch_entry(RESERVE),
        BatchEntry::Other
    );
}
