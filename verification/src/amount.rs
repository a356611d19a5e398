//! Amounts that an operation is asked for.

use vstd::prelude::*;

verus! {

/// An amount of tokens, or as much as the operation allows.
#[derive(Clone, Copy, Debug, PartialEq, Eq, Structural)]
pub enum Amount {
    /// Exactly this many.
    Exact(u64),
    /// As many as possible.
    Max,
}

impl Amount {
    /// The amount that a `u64` stands for on the wire, where `u64::MAX` means
    /// as much as possible.
    pub fn from_sentinel(value: u64) -> (r: Amount)
        ensures
            r == (if value == u64::MAX {
                Amount::Max
            } else {
                Amount::Exact(value)
            }),
    {
        if value == u64::MAX {
            Amount::Max
        } else {
            Amount::Exact(value)
        }
    }

    /// The `u64` that stands for the amount on the wire. An exact amount of
    /// `u64::MAX` cannot be told from `Max` there.
    pub fn to_sentinel(&self) -> (r: u64)
        ensures
            r == (match *self {
                Amount::Exact(v) => v,
                Amount::Max => u64::MAX,
            }),
    {
        match *self {
            Amount::Exact(v) => v,
            Amount::Max => u64::MAX,
        }
    }
}

} // verus!
