use vstd::prelude::*;
use crate::errors::{EraseStorageError, StorageError};

verus! {

/// Number of blocks in the store.
pub const BLOCKS: u32 = 256;

/// Size in bytes of one block, the unit of erasure.
pub const BLOCK_SIZE: u32 = 4096;

/// Number of bytes in the store: `BLOCKS * BLOCK_SIZE`.
pub const CAPACITY: u32 = 1048576;

/// The value of every byte of an erased block.
pub const ERASED_BYTE: u8 = 0xFF;

pub open spec fn capacity() -> int {
    BLOCKS as int * BLOCK_SIZE as int
}

/// The range `[address, address + length)` lies inside the store.
pub open spec fn in_bounds(address: int, length: int) -> bool {
    address + length <= capacity()
}

/// What a read or a write of `length` bytes at `address` is owed: success
/// inside the store, `AddressTooBig` for a start beyond its end, and
/// `SizeTooBig` for a range that starts inside and runs past its end.
pub open spec fn range_check(address: int, length: int) -> Result<(), StorageError> {
    if address > capacity() {
        Err(StorageError::AddressTooBig)
    } else if address + length > capacity() {
        Err(StorageError::SizeTooBig)
    } else {
        Ok(())
    }
}

/// What an erase of `length` bytes at `address` is owed. `Ok(false)`: an
/// empty erase, which succeeds at once whatever the address. `Ok(true)`: the
/// blocks of the range are to be erased. Alignment is checked before bounds.
pub open spec fn erase_check(address: int, length: int) -> Result<bool, EraseStorageError> {
    if length == 0 {
        Ok(false)
    } else if address % (BLOCK_SIZE as int) != 0 {
        Err(EraseStorageError::CanOnlyEraseAlongBlockBoundaries)
    } else if length % (BLOCK_SIZE as int) != 0 {
        Err(EraseStorageError::CanOnlyEraseInBlockSizedChunks)
    } else {
        match range_check(address, length) {
            Ok(()) => Ok(true),
            Err(e) => Err(EraseStorageError::StorageError(e)),
        }
    }
}

/// Checks a range of `length` bytes at `address` against the store's bounds.
pub fn check_range(address: u32, length: u64) -> (r: Result<(), StorageError>)
    ensures
        r == range_check(address as int, length as int),
        r is Ok <==> in_bounds(address as int, length as int),
{
    if address > CAPACITY {
        Err(StorageError::AddressTooBig)
    } else if length > (CAPACITY - address) as u64 {
        Err(StorageError::SizeTooBig)
    } else {
        Ok(())
    }
}

/// Checks a read of `length` bytes at `address`. Reads are held to the same
/// bound as writes and erases: the range must end within the store.
pub fn check_read(address: u32, length: u32) -> (r: Result<(), StorageError>)
    ensures
        r == range_check(address as int, length as int),
{
    check_range(address, length as u64)
}

/// Checks a write of `length` bytes at `address`.
pub fn check_write(address: u32, length: usize) -> (r: Result<(), StorageError>)
    ensures
        r == range_check(address as int, length as int),
{
    if length > CAPACITY as usize {
        if address > CAPACITY {
            Err(StorageError::AddressTooBig)
        } else {
            Err(StorageError::SizeTooBig)
        }
    } else {
        check_range(address, length as u64)
    }
}

/// Decides an erase of `length` bytes at `address`: whether it fails, does
/// nothing, or erases the range (`Ok(true)`).
pub fn plan_erase(address: u32, length: u32) -> (r: Result<bool, EraseStorageError>)
    ensures
        r == erase_check(address as int, length as int),
        r == Ok::<bool, EraseStorageError>(true) ==> address % BLOCK_SIZE == 0 && length % BLOCK_SIZE == 0
            && in_bounds(address as int, length as int),
{
    if length == 0 {
        return Ok(false);
    }
    if address % BLOCK_SIZE != 0 {
        return Err(EraseStorageError::CanOnlyEraseAlongBlockBoundaries);
    }
    if length % BLOCK_SIZE != 0 {
        return Err(EraseStorageError::CanOnlyEraseInBlockSizedChunks);
    }
    match check_range(address, length as u64) {
        Ok(()) => Ok(true),
        Err(e) => Err(EraseStorageError::from(e)),
    }
}

} // verus!
