//! Interest accrual and solvency accounting for a pooled token lending
//! protocol: fixed-point decimals, the reserve interest-rate model, reserve
//! and obligation bookkeeping, liquidation pricing and the account formats
//! that carry this state.

pub mod amount;
pub mod error;
pub mod flash_loan;
pub mod instruction;
pub mod liquidation;
pub mod math;
pub mod operations;
pub mod oracles;
pub mod packing;
pub mod pubkey;
pub mod refresh;
pub mod smart_pack;
pub mod state;
pub mod wrapper;
