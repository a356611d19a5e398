//! The state that the protocol keeps in accounts.

use vstd::prelude::*;

pub mod last_update;
pub mod lending_market;
pub mod lending_market_metadata;
pub mod lending_market_v0;
pub mod lending_market_v1;
pub mod obligation;
pub mod rate_limiter;
pub mod reserve;
pub mod reserve_layout;

verus! {

/// Version that newly initialized accounts carry.
pub const PROGRAM_VERSION: u8 = 1;

/// Version byte of an account that was never initialized.
pub const UNINITIALIZED_VERSION: u8 = 0;

} // verus!
