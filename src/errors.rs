use vstd::prelude::*;

verus! {

/// An error of a read or a write on the block store.
#[derive(Debug, Clone, PartialEq, Eq)]
pub enum StorageError {
    /// The start address lies beyond the end of the store.
    AddressTooBig,
    /// The range starts inside the store but ends beyond it.
    SizeTooBig,
    /// The flash hardware reported a failure; the native diagnostic is kept.
    Other(String),
}

/// An error of an erase on the block store.
#[derive(Debug, Clone, PartialEq, Eq)]
pub enum EraseStorageError {
    /// The start address is not a multiple of the block size.
    CanOnlyEraseAlongBlockBoundaries,
    /// The length is not a multiple of the block size.
    CanOnlyEraseInBlockSizedChunks,
    /// A bounds or hardware error, as for reads and writes.
    StorageError(StorageError),
}

/// An error while opening the flash storage.
#[derive(Debug, Clone, PartialEq, Eq)]
pub enum CreateStorageError {
    /// No data partition named `storage` was found.
    NoPartitionFound,
    /// The partition could not be memory-mapped.
    FailedToMmapSecrets,
    /// The default key-value partition was not found.
    NoNvsPartitionFound,
    /// The metadata namespace could not be opened.
    FailedToOpenNvsNamespace,
    /// The erase size of the flash does not match the block size.
    EraseSizeDoesNotMatchBlockSize,
}

/// An error while setting up the shared storage instance.
#[derive(Debug, Clone, PartialEq, Eq)]
pub enum SetupStorageError {
    /// The storage is already initialized.
    AlreadyInitialized,
    /// Creating the storage failed.
    CreateStorageError(CreateStorageError),
}

/// An error of the metadata store.
#[derive(Debug, Clone, PartialEq, Eq)]
pub enum MetadataError {
    /// No value is stored under the key.
    NotFound,
    /// The lock around the store could not be acquired.
    LockFailed,
    /// The underlying store failed to read the value.
    ReadFailed,
    /// The underlying store failed to write the value.
    WriteFailed,
    /// The value is longer than a metadata value may be.
    ValueTooLarge,
}

impl From<StorageError> for EraseStorageError {
    fn from(e: StorageError) -> (r: EraseStorageError)
        ensures
            r == EraseStorageError::StorageError(e),
    {
        EraseStorageError::StorageError(e)
    }
}

impl vstd::std_specs::convert::FromSpecImpl<StorageError> for EraseStorageError {
    open spec fn obeys_from_spec() -> bool {
        true
    }

    open spec fn from_spec(e: StorageError) -> EraseStorageError {
        EraseStorageError::StorageError(e)
    }
}

impl From<CreateStorageError> for SetupStorageError {
    fn from(e: CreateStorageError) -> (r: SetupStorageError)
        ensures
            r == SetupStorageError::CreateStorageError(e),
    {
        SetupStorageError::CreateStorageError(e)
    }
}

impl vstd::std_specs::convert::FromSpecImpl<CreateStorageError> for SetupStorageError {
    open spec fn obeys_from_spec() -> bool {
        true
    }

    open spec fn from_spec(e: CreateStorageError) -> SetupStorageError {
        SetupStorageError::CreateStorageError(e)
    }
}

} // verus!
