use vstd::prelude::*;
use crate::errors::CreateStorageError;

verus! {

/// One call of the platform's mapping primitive: `size` bytes of the
/// partition starting at `offset`.
#[derive(Debug, Clone, Copy, PartialEq, Eq)]
pub struct MapRequest {
    pub offset: usize,
    pub size: usize,
}

/// The mapping calls that bring a partition of `partition_size` bytes into
/// one window, given that the primitive maps `page_size` bytes at a time:
/// the first page, then the rest, then the whole partition. Mapped in that
/// order, the rest lands directly after the first page.
pub open spec fn map_plan(partition_size: int, page_size: int) -> Seq<MapRequest> {
    seq![
        MapRequest { offset: 0, size: page_size as usize },
        MapRequest { offset: page_size as usize, size: (partition_size - page_size) as usize },
        MapRequest { offset: 0, size: partition_size as usize },
    ]
}

/// Lists the mapping calls for a partition; a partition smaller than one
/// page cannot be mapped this way.
pub fn mapping_requests(partition_size: u32, page_size: u32) -> (r: Result<
    Vec<MapRequest>,
    CreateStorageError,
>)
    ensures
        match r {
            Ok(v) => page_size <= partition_size && v@ == map_plan(
                partition_size as int,
                page_size as int,
            ),
            Err(e) => partition_size < page_size && e == CreateStorageError::FailedToMmapSecrets,
        },
{
    if partition_size < page_size {
        return Err(CreateStorageError::FailedToMmapSecrets);
    }
    let page = page_size as usize;
    let whole = partition_size as usize;
    let mut v: Vec<MapRequest> = Vec::new();
    v.push(MapRequest { offset: 0, size: page });
    v.push(MapRequest { offset: page, size: whole - page });
    v.push(MapRequest { offset: 0, size: whole });
    assert(v@ =~= map_plan(partition_size as int, page_size as int));
    Ok(v)
}

/// Decides the outcome of the mapping calls from their status codes (zero
/// is success) and the addresses at which the first page and the rest were
/// mapped: the window starts at `first` when every call succeeded and the
/// rest follows the first page without a gap.
pub fn finish_mapping(statuses: &[i32], first: usize, rest: usize, page_size: usize) -> (r: Result<
    usize,
    CreateStorageError,
>)
    ensures
        match r {
            Ok(base) => base == first && (forall|i: int|
                0 <= i < statuses@.len() ==> #[trigger] statuses@[i] == 0) && rest as int
                == first as int + page_size as int,
            Err(e) => e == CreateStorageError::FailedToMmapSecrets && !((forall|i: int|
                0 <= i < statuses@.len() ==> #[trigger] statuses@[i] == 0) && rest as int
                == first as int + page_size as int),
        },
{
    let mut i: usize = 0;
    while i < statuses.len()
        invariant
            i <= statuses@.len(),
            forall|j: int| 0 <= j < i ==> #[trigger] statuses@[j] == 0,
        decreases statuses@.len() - i,
    {
        if statuses[i] != 0 {
            return Err(CreateStorageError::FailedToMmapSecrets);
        }
        i = i + 1;
    }
    if first > usize::MAX - page_size || rest != first + page_size {
        return Err(CreateStorageError::FailedToMmapSecrets);
    }
    Ok(first)
}

} // verus!
