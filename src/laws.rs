use vstd::prelude::*;
use crate::engine::{erased, programmed};
use crate::geometry::ERASED_BYTE;

verus! {

/// Every byte of `mem` in `[address, address + length)` holds `0xFF`.
pub open spec fn is_erased_range(mem: Seq<u8>, address: int, length: int) -> bool {
    forall|i: int| address <= i < address + length ==> #[trigger] mem[i] == ERASED_BYTE
}

/// Programming an erased range and reading it back gives exactly the bytes
/// that were written.
pub proof fn lemma_write_then_read(mem: Seq<u8>, address: int, data: Seq<u8>)
    requires
        0 <= address,
        address + data.len() <= mem.len(),
        is_erased_range(mem, address, data.len() as int),
    ensures
        programmed(mem, address, data).subrange(address, address + data.len()) == data,
{
    let after = programmed(mem, address, data);
    assert forall|k: int| 0 <= k < data.len() implies #[trigger] after.subrange(
        address,
        address + data.len(),
    )[k] == data[k] by {
        let d = data[k];
        assert(mem[address + k] == ERASED_BYTE);
        assert(0xFFu8 & d == d) by (bit_vector);
    }
    assert(after.subrange(address, address + data.len()) =~= data);
}

/// After an erase, every byte of the erased range reads as `0xFF`.
pub proof fn lemma_erase_then_read(mem: Seq<u8>, address: int, length: int)
    requires
        0 <= address,
        0 <= length,
        address + length <= mem.len(),
    ensures
        erased(mem, address, length).subrange(address, address + length) == Seq::new(
            length as nat,
            |i: int| ERASED_BYTE,
        ),
        is_erased_range(erased(mem, address, length), address, length),
{
    assert(erased(mem, address, length).subrange(address, address + length) =~= Seq::new(
        length as nat,
        |i: int| ERASED_BYTE,
    ));
}

/// Writing twice over an erased range, with no erase between, leaves the
/// bitwise AND of the two writes: the second write can only clear bits.
pub proof fn lemma_write_twice(mem: Seq<u8>, address: int, first: Seq<u8>, second: Seq<u8>)
    requires
        0 <= address,
        first.len() == second.len(),
        address + first.len() <= mem.len(),
        is_erased_range(mem, address, first.len() as int),
    ensures
        programmed(programmed(mem, address, first), address, second).subrange(
            address,
            address + first.len(),
        ) == Seq::new(first.len(), |i: int| first[i] & second[i]),
{
    let after = programmed(programmed(mem, address, first), address, second);
    assert forall|k: int| 0 <= k < first.len() implies #[trigger] after.subrange(
        address,
        address + first.len(),
    )[k] == first[k] & second[k] by {
        let a = first[k];
        let b = second[k];
        assert(mem[address + k] == ERASED_BYTE);
        assert((0xFFu8 & a) & b == a & b) by (bit_vector);
    }
    assert(after.subrange(address, address + first.len()) =~= Seq::new(
        first.len(),
        |i: int| first[i] & second[i],
    ));
}

/// A metadata value written under a key reads back exactly as written.
pub proof fn lemma_metadata_write_then_read(
    store: Map<Seq<char>, Seq<u8>>,
    key: Seq<char>,
    value: Seq<u8>,
)
    ensures
        store.insert(key, value).contains_key(key),
        store.insert(key, value)[key] == value,
{
}

/// Two writes of different values under one key, in whichever order they
/// are serialized, leave exactly one of the two values, never a mix: the
/// one written last.
pub proof fn lemma_metadata_writes_serialize(
    store: Map<Seq<char>, Seq<u8>>,
    key: Seq<char>,
    a: Seq<u8>,
    b: Seq<u8>,
)
    ensures
        store.insert(key, a).insert(key, b)[key] == b,
        store.insert(key, b).insert(key, a)[key] == a,
{
}

} // verus!
