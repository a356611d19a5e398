//! Descriptive data of a lending market.

use crate::error::LendingError;
use crate::packing::{overwritten, push_bytes, read_array, write_bytes};
use crate::pubkey::Pubkey;
use crate::smart_pack::{version_spec, PackError, SmartPack};
use crate::state::{PROGRAM_VERSION, UNINITIALIZED_VERSION};
use vstd::prelude::*;

verus! {

/// market name size
pub const MARKET_NAME_SIZE: usize = 50;

/// market description size
pub const MARKET_DESCRIPTION_SIZE: usize = 50;

/// market image url size
pub const MARKET_IMAGE_URL_SIZE: usize = 50;

/// Size of packed metadata: 183 bytes of fields and 1000 of padding.
pub const LENDING_MARKET_METADATA_LEN: usize = 1183;

/// Lending market state
#[derive(Clone, Copy, Debug, PartialEq, Eq)]
pub struct LendingMarketMetadata {
    /// Version of lending market metadata
    pub version: u8,
    /// Market address
    pub market_address: Pubkey,
    /// Market name null padded
    pub market_name: [u8; 50],
    /// Market description null padded
    pub market_description: [u8; 50],
    /// Market image url
    pub market_image_url: [u8; 50],
}

/// Initialize a lending market metadata
#[derive(Clone, Copy, Debug, PartialEq, Eq)]
pub struct InitLendingMarketMetadataParams {
    /// Bump seed for derived authority address
    pub bump_seed: u8,
    /// Market address
    pub market_address: Pubkey,
    /// Market name null padded
    pub market_name: [u8; 50],
    /// Market description null padded
    pub market_description: [u8; 50],
    /// Market image url
    pub market_image_url: [u8; 50],
}

impl LendingMarketMetadata {
    /// The metadata that `params` describe.
    pub open spec fn new_spec(params: InitLendingMarketMetadataParams) -> Self {
        LendingMarketMetadata {
            version: PROGRAM_VERSION,
            market_address: params.market_address,
            market_name: params.market_name,
            market_description: params.market_description,
            market_image_url: params.market_image_url,
        }
    }

    /// Create a new lending market metadata
    pub fn new(params: InitLendingMarketMetadataParams) -> (r: Self)
        ensures
            r == Self::new_spec(params),
    {
        LendingMarketMetadata {
            version: PROGRAM_VERSION,
            market_address: params.market_address,
            market_name: params.market_name,
            market_description: params.market_description,
            market_image_url: params.market_image_url,
        }
    }

    /// Initialize a lending market metadata
    pub fn init(&mut self, params: InitLendingMarketMetadataParams)
        ensures
            *final(self) == Self::new_spec(params),
    {
        self.version = PROGRAM_VERSION;
        self.market_address = params.market_address;
        self.market_name = params.market_name;
        self.market_description = params.market_description;
        self.market_image_url = params.market_image_url;
    }

    /// Whether the metadata was initialized.
    pub fn is_initialized(&self) -> (r: bool)
        ensures
            r == (self.version != UNINITIALIZED_VERSION),
    {
        self.version != UNINITIALIZED_VERSION
    }

    /// The bytes of the fields, in the order of the layout.
    pub open spec fn packed_fields(self) -> Seq<u8> {
        seq![self.version] + self.market_address@ + self.market_name@ + self.market_description@
            + self.market_image_url@
    }

    /// Writes the fields over the first 183 bytes of `output`; the padding
    /// after them is left as it is.
    pub fn pack_into_slice(&self, output: &mut Vec<u8>)
        requires
            old(output)@.len() >= LENDING_MARKET_METADATA_LEN,
        ensures
            final(output)@ == overwritten(old(output)@, 0, self.packed_fields()),
            final(output)@.len() == old(output)@.len(),
            self.packed_fields().len() == 183,
    {
        let mut buf: Vec<u8> = Vec::new();
        buf.push(self.version);
        push_bytes(&mut buf, self.market_address.0.as_slice());
        push_bytes(&mut buf, self.market_name.as_slice());
        push_bytes(&mut buf, self.market_description.as_slice());
        push_bytes(&mut buf, self.market_image_url.as_slice());
        assert(buf@ =~= self.packed_fields());
        write_bytes(output, 0, buf.as_slice());
    }

    /// Reads metadata from the first 183 bytes of `input`.
    pub fn unpack_from_slice(input: &[u8]) -> (r: Result<Self, PackError>)
        requires
            input@.len() >= LENDING_MARKET_METADATA_LEN,
        ensures
            r is Ok,
            r->Ok_0.packed_fields() == input@.subrange(0, 183),
    {
        let metadata = LendingMarketMetadata {
            version: input[0],
            market_address: Pubkey::new_from_array(read_array::<32>(input, 1)),
            market_name: read_array::<50>(input, 33),
            market_description: read_array::<50>(input, 83),
            market_image_url: read_array::<50>(input, 133),
        };
        assert(metadata.packed_fields() =~= input@.subrange(0, 183));
        Ok(metadata)
    }
}


impl LendingMarketMetadata {
    /// Reads initialized metadata from a buffer of exactly the packed
    /// length; `UninitializedAccount` where the version byte is zero,
    /// `InvalidAccountData` for another length.
    pub fn unpack(input: &[u8]) -> (r: Result<Self, PackError>)
        ensures
            r is Ok <==> input@.len() == LENDING_MARKET_METADATA_LEN && input@[0] != 0,
            r is Ok ==> r->Ok_0.packed_fields() == input@.subrange(0, 183),
            r is Err ==> r->Err_0 == (if input@.len() == LENDING_MARKET_METADATA_LEN {
                PackError::UninitializedAccount
            } else {
                PackError::InvalidAccountData
            }),
    {
        if input.len() != LENDING_MARKET_METADATA_LEN {
            return Err(PackError::InvalidAccountData);
        }
        let value = match Self::unpack_from_slice(input) {
            Ok(v) => v,
            Err(e) => {
                return Err(e);
            },
        };
        assert(value.packed_fields()[0] == value.version);
        if value.is_initialized() {
            Ok(value)
        } else {
            Err(PackError::UninitializedAccount)
        }
    }

    /// Writes `src` into a buffer of exactly the packed length;
    /// `InvalidAccountData` for another length, and the buffer is then left
    /// as it is.
    pub fn pack(src: Self, dst: &mut Vec<u8>) -> (r: Result<(), PackError>)
        ensures
            r is Ok <==> old(dst)@.len() == LENDING_MARKET_METADATA_LEN,
            r is Ok ==> final(dst)@ == overwritten(old(dst)@, 0, src.packed_fields()),
            r is Err ==> r->Err_0 == PackError::InvalidAccountData && final(dst)@ == old(dst)@,
    {
        if dst.len() != LENDING_MARKET_METADATA_LEN {
            return Err(PackError::InvalidAccountData);
        }
        src.pack_into_slice(dst);
        Ok(())
    }
}

impl SmartPack for LendingMarketMetadata {
    /// The metadata is what the first 183 bytes of `src` hold.
    open spec fn is_unpacked_from(object: Self, src: Seq<u8>) -> bool {
        object.packed_fields() == src.subrange(0, 183)
    }

    /// Metadata exists in version 1 only, in its fixed layout.
    open spec fn can_unpack(src: Seq<u8>) -> bool {
        version_spec(src) == 1 && src.len() == LENDING_MARKET_METADATA_LEN
    }

    open spec fn packed_as(object: Self, version: u8, dst: Seq<u8>) -> Seq<u8> {
        overwritten(dst, 0, object.packed_fields())
    }

    open spec fn pack_outcome(object: Self, version: u8, dst: Seq<u8>) -> Result<(), PackError> {
        if version == 1 {
            if dst.len() == LENDING_MARKET_METADATA_LEN {
                Ok(())
            } else {
                Err(PackError::InvalidAccountData)
            }
        } else {
            Err(PackError::Lending(LendingError::FailedToSerialize))
        }
    }

    fn version(src: &[u8]) -> (r: u8) {
        if src.len() == 0 {
            UNINITIALIZED_VERSION
        } else {
            src[0]
        }
    }

    fn is_initialized(src: &[u8]) -> (r: bool) {
        <Self as SmartPack>::version(src) != UNINITIALIZED_VERSION
    }

    fn smart_unpack(src: &[u8]) -> (r: Result<Self, LendingError>) {
        if <Self as SmartPack>::version(src) == 1 {
            match LendingMarketMetadata::unpack(src) {
                Err(_e) => Err(LendingError::FailedToDeserialize),
                Ok(object) => Ok(object),
            }
        } else {
            Err(LendingError::FailedToDeserialize)
        }
    }

    fn smart_pack(object: Self, version: u8, dst: &mut Vec<u8>) -> (r: Result<(), PackError>) {
        if version == 1 {
            match LendingMarketMetadata::pack(object, dst) {
                Ok(_) => Ok(()),
                Err(e) => Err(e),
            }
        } else {
            Err(PackError::Lending(LendingError::FailedToSerialize))
        }
    }
}

} // verus!
