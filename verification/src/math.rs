//! Fixed-point arithmetic.

pub mod decimal;
pub mod uint192;
