//! Reading and writing state that exists in more than one layout, told
//! apart by the leading version byte.

use crate::error::LendingError;
use vstd::prelude::*;

verus! {

/// Tag that says what kind of state an account holds.
#[derive(Clone, Copy, Debug, PartialEq, Eq, Structural)]
pub enum AccountTag {
    /// Uninitialized
    UnInitialized,
    /// LendingMarket
    LendingMarket,
    /// Reserve
    Reserve,
    /// Obligation
    Obligation,
}

impl Default for AccountTag {
    fn default() -> (r: AccountTag)
        ensures
            r == AccountTag::UnInitialized,
    {
        AccountTag::UnInitialized
    }
}

impl AccountTag {
    /// The byte that stands for the tag.
    pub open spec fn byte_spec(self) -> u8 {
        match self {
            AccountTag::UnInitialized => 0,
            AccountTag::LendingMarket => 1,
            AccountTag::Reserve => 2,
            AccountTag::Obligation => 3,
        }
    }

    /// The byte that stands for the tag.
    pub fn to_byte(&self) -> (r: u8)
        ensures
            r == self.byte_spec(),
    {
        match self {
            AccountTag::UnInitialized => 0,
            AccountTag::LendingMarket => 1,
            AccountTag::Reserve => 2,
            AccountTag::Obligation => 3,
        }
    }

    /// The tag that a byte stands for, if any.
    pub fn from_byte(byte: u8) -> (r: Option<AccountTag>)
        ensures
            r is Some <==> byte <= 3,
            r is Some ==> r->0.byte_spec() == byte,
    {
        if byte == 0 {
            Some(AccountTag::UnInitialized)
        } else if byte == 1 {
            Some(AccountTag::LendingMarket)
        } else if byte == 2 {
            Some(AccountTag::Reserve)
        } else if byte == 3 {
            Some(AccountTag::Obligation)
        } else {
            None
        }
    }
}

/// Why state could not be written to or read from a buffer.
#[derive(Clone, Copy, Debug, PartialEq, Eq, Structural)]
pub enum PackError {
    /// The buffer has the wrong length, or holds a version that is not known.
    InvalidAccountData,
    /// The buffer holds state that was never initialized.
    UninitializedAccount,
    /// An error of the lending protocol.
    Lending(LendingError),
}

/// State that carries a tag saying what it is.
pub trait ValidateTag {
    /// Whether the tag is the one that belongs to this kind of state.
    spec fn tag_is_valid(&self) -> bool;

    /// `FailedToDeserialize` where the tag is not the one that belongs to
    /// this kind of state.
    fn validate_tag(&self) -> (r: Result<(), LendingError>)
        ensures
            r == (if self.tag_is_valid() {
                Ok::<(), LendingError>(())
            } else {
                Err(LendingError::FailedToDeserialize)
            }),
    ;
}

/// The version of the state in `src`: its first byte, or the uninitialized
/// version for an empty buffer.
pub open spec fn version_spec(src: Seq<u8>) -> u8 {
    if src.len() == 0 {
        0
    } else {
        src[0]
    }
}

/// State that is stored in an older fixed layout or in the current
/// self-describing one.
pub trait SmartPack: Sized {
    /// Whether `object` is what `src` holds.
    spec fn is_unpacked_from(object: Self, src: Seq<u8>) -> bool;

    /// Whether `src` holds state in a known version.
    spec fn can_unpack(src: Seq<u8>) -> bool;

    /// What `smart_pack` leaves in a buffer that held `dst`, where it
    /// succeeds.
    spec fn packed_as(object: Self, version: u8, dst: Seq<u8>) -> Seq<u8>;

    /// What `smart_pack` returns.
    spec fn pack_outcome(object: Self, version: u8, dst: Seq<u8>) -> Result<(), PackError>;

    /// The version of the state in `src`.
    fn version(src: &[u8]) -> (r: u8)
        ensures
            r == version_spec(src@),
    ;

    /// Whether `src` holds initialized state.
    fn is_initialized(src: &[u8]) -> (r: bool)
        ensures
            r == (version_spec(src@) != 0),
    ;

    /// Reads the state from `src`, in whichever version it is stored.
    fn smart_unpack(src: &[u8]) -> (r: Result<Self, LendingError>)
        ensures
            r is Ok <==> Self::can_unpack(src@),
            r is Ok ==> Self::is_unpacked_from(r->Ok_0, src@),
            r is Err ==> r->Err_0 == LendingError::FailedToDeserialize,
    ;

    /// Writes `object` into `dst` in the layout of `version`. The current
    /// layout resizes the buffer to what it needs; the older one needs a
    /// buffer of its exact length.
    fn smart_pack(object: Self, version: u8, dst: &mut Vec<u8>) -> (r: Result<(), PackError>)
        ensures
            r == Self::pack_outcome(object, version, old(dst)@),
            r is Ok ==> final(dst)@ == Self::packed_as(object, version, old(dst)@),
            r is Err ==> final(dst)@ == old(dst)@,
    ;
}

} // verus!
