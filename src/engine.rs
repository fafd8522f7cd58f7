use vstd::prelude::*;
use vstd::slice::slice_subrange;
use crate::errors::{CreateStorageError, EraseStorageError, StorageError};
use crate::geometry::{
    capacity, erase_check, plan_erase, check_read, check_write, range_check, CAPACITY,
    ERASED_BYTE,
};
use crate::partition::{resolution, resolve_partition, Partition};

verus! {

/// The contents of `mem` after programming `data` at `address`: NOR flash
/// can only clear bits, so each byte of the range becomes the bitwise AND of
/// what it held and what was written.
pub open spec fn programmed(mem: Seq<u8>, address: int, data: Seq<u8>) -> Seq<u8> {
    Seq::new(
        mem.len(),
        |i: int|
            if address <= i < address + data.len() {
                mem[i] & data[i - address]
            } else {
                mem[i]
            },
    )
}

/// The contents of `mem` after erasing `[address, address + length)`: every
/// byte of the range holds `0xFF`.
pub open spec fn erased(mem: Seq<u8>, address: int, length: int) -> Seq<u8> {
    Seq::new(
        mem.len(),
        |i: int|
            if address <= i < address + length {
                ERASED_BYTE
            } else {
                mem[i]
            },
    )
}

/// A block store that keeps the flash contents in memory and behaves as NOR
/// flash does.
pub struct FlashStorage {
    arena: Vec<u8>,
}

impl View for FlashStorage {
    type V = Seq<u8>;

    closed spec fn view(&self) -> Seq<u8> {
        self.arena@
    }
}

impl FlashStorage {
    /// The store spans exactly `BLOCKS * BLOCK_SIZE` bytes.
    pub open spec fn wf(&self) -> bool {
        self@.len() == capacity()
    }

    /// Opens a store on the partition that a lookup found. The store starts
    /// erased.
    pub fn new(found: Option<Partition>) -> (r: Result<FlashStorage, CreateStorageError>)
        ensures
            match r {
                Ok(s) => resolution(found) is Ok && s.wf() && s@ == Seq::new(
                    capacity() as nat,
                    |i: int| ERASED_BYTE,
                ),
                Err(e) => resolution(found) == Err::<Partition, CreateStorageError>(e),
            },
    {
        match resolve_partition(found) {
            Err(e) => Err(e),
            Ok(_) => {
                let mut arena: Vec<u8> = Vec::new();
                let mut i: u32 = 0;
                while i < CAPACITY
                    invariant
                        i <= CAPACITY,
                        arena@ == Seq::new(i as nat, |j: int| ERASED_BYTE),
                    decreases CAPACITY - i,
                {
                    arena.push(ERASED_BYTE);
                    i = i + 1;
                    assert(arena@ =~= Seq::new(i as nat, |j: int| ERASED_BYTE));
                }
                Ok(FlashStorage { arena })
            },
        }
    }

    /// Returns a view of `length` bytes at `address`, straight over the
    /// stored contents.
    pub fn read(&self, address: u32, length: u32) -> (r: Result<&[u8], StorageError>)
        requires
            self.wf(),
        ensures
            match r {
                Ok(bytes) => range_check(address as int, length as int) is Ok && bytes@
                    == self@.subrange(address as int, address + length),
                Err(e) => range_check(address as int, length as int) == Err::<(), StorageError>(e),
            },
    {
        match check_read(address, length) {
            Err(e) => Err(e),
            Ok(()) => {
                let start = address as usize;
                let end = start + length as usize;
                Ok(slice_subrange(self.arena.as_slice(), start, end))
            },
        }
    }

    /// Programs `data` at `address`. The range must have been erased for
    /// the bytes to read back as written; the store does not erase by
    /// itself.
    pub fn write(&mut self, address: u32, data: &[u8]) -> (r: Result<(), StorageError>)
        requires
            old(self).wf(),
        ensures
            final(self).wf(),
            match r {
                Ok(()) => range_check(address as int, data@.len() as int) is Ok && final(self)@
                    == programmed(old(self)@, address as int, data@),
                Err(e) => range_check(address as int, data@.len() as int) == Err::<
                    (),
                    StorageError,
                >(e) && final(self)@ == old(self)@,
            },
    {
        match check_write(address, data.len()) {
            Err(e) => Err(e),
            Ok(()) => {
                let start = address as usize;
                let ghost before = self@;
                let mut i: usize = 0;
                while i < data.len()
                    invariant
                        i <= data@.len(),
                        start + data@.len() <= capacity(),
                        before.len() == capacity(),
                        self.arena@.len() == capacity(),
                        forall|j: int|
                            0 <= j < capacity() ==> #[trigger] self.arena@[j] == if start <= j
                                < start + i {
                                before[j] & data@[j - start]
                            } else {
                                before[j]
                            },
                    decreases data@.len() - i,
                {
                    let b = self.arena[start + i] & data[i];
                    self.arena.set(start + i, b);
                    i = i + 1;
                }
                assert(self@ =~= programmed(before, start as int, data@));
                Ok(())
            },
        }
    }

    /// Erases `length` bytes at `address`. An empty erase succeeds at once,
    /// whatever the address; otherwise the range must be whole blocks inside
    /// the store.
    pub fn erase(&mut self, address: u32, length: u32) -> (r: Result<(), EraseStorageError>)
        requires
            old(self).wf(),
        ensures
            final(self).wf(),
            match r {
                Ok(()) => erase_check(address as int, length as int) is Ok && final(self)@
                    == erased(old(self)@, address as int, length as int),
                Err(e) => erase_check(address as int, length as int) == Err::<
                    bool,
                    EraseStorageError,
                >(e),
            },
            erase_check(address as int, length as int) != Ok::<bool, EraseStorageError>(true)
                ==> final(self)@ == old(self)@,
    {
        match plan_erase(address, length) {
            Err(e) => Err(e),
            Ok(false) => {
                assert(self@ =~= erased(self@, address as int, 0));
                Ok(())
            },
            Ok(true) => {
                let start = address as usize;
                let len = length as usize;
                let ghost before = self@;
                let mut i: usize = 0;
                while i < len
                    invariant
                        i <= len,
                        start + len <= capacity(),
                        before.len() == capacity(),
                        self.arena@.len() == capacity(),
                        forall|j: int|
                            0 <= j < capacity() ==> #[trigger] self.arena@[j] == if start <= j
                                < start + i {
                                ERASED_BYTE
                            } else {
                                before[j]
                            },
                    decreases len - i,
                {
                    self.arena.set(start + i, ERASED_BYTE);
                    i = i + 1;
                }
                assert(self@ =~= erased(before, start as int, len as int));
                Ok(())
            },
        }
    }
}

} // verus!
