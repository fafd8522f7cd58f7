use vstd::prelude::*;
use crate::errors::CreateStorageError;
use crate::geometry::BLOCK_SIZE;

verus! {

/// What the storage needs to know of a flash partition.
#[derive(Debug, Clone, Copy, PartialEq, Eq)]
pub struct Partition {
    /// Physical address of the partition's first byte.
    pub address: u32,
    /// Size of the partition in bytes.
    pub size: u32,
    /// Size of the partition's erase unit in bytes.
    pub erase_size: u32,
}

/// The outcome of looking up the storage partition: the partition, if one
/// was found and its erase unit is one block; an error otherwise.
pub open spec fn resolution(found: Option<Partition>) -> Result<Partition, CreateStorageError> {
    match found {
        None => Err(CreateStorageError::NoPartitionFound),
        Some(p) => if p.erase_size == BLOCK_SIZE {
            Ok(p)
        } else {
            Err(CreateStorageError::EraseSizeDoesNotMatchBlockSize)
        },
    }
}

/// Validates the partition that a lookup found, if any.
pub fn resolve_partition(found: Option<Partition>) -> (r: Result<Partition, CreateStorageError>)
    ensures
        r == resolution(found),
{
    match found {
        None => Err(CreateStorageError::NoPartitionFound),
        Some(p) => {
            if p.erase_size != BLOCK_SIZE {
                Err(CreateStorageError::EraseSizeDoesNotMatchBlockSize)
            } else {
                Ok(p)
            }
        },
    }
}

} // verus!
