use vstd::prelude::*;
use vstd::slice::slice_to_vec;
use crate::errors::MetadataError;

verus! {

/// The largest number of bytes a metadata value may hold.
pub const MAX_METADATA_LEN: usize = 256;

/// Small named blobs, kept apart from the block address space.
pub struct MetadataStore {
    entries: Vec<(String, Vec<u8>)>,
    contents: Ghost<Map<Seq<char>, Seq<u8>>>,
}

impl View for MetadataStore {
    type V = Map<Seq<char>, Seq<u8>>;

    closed spec fn view(&self) -> Map<Seq<char>, Seq<u8>> {
        self.contents@
    }
}

impl MetadataStore {
    /// Each key appears once in the entries, the entries are exactly the
    /// stored map, and no value is longer than `MAX_METADATA_LEN`.
    pub closed spec fn wf(&self) -> bool {
        &&& forall|i: int, j: int|
            0 <= i < j < self.entries@.len() ==> #[trigger] self.entries@[i].0@
                != #[trigger] self.entries@[j].0@
        &&& forall|i: int|
            0 <= i < self.entries@.len() ==> #[trigger] self.contents@.contains_key(
                self.entries@[i].0@,
            ) && self.contents@[self.entries@[i].0@] == self.entries@[i].1@
        &&& forall|k: Seq<char>|
            #[trigger] self.contents@.contains_key(k) ==> exists|i: int|
                0 <= i < self.entries@.len() && #[trigger] self.entries@[i].0@ == k
    }

    /// Every stored value fits the metadata bound.
    pub open spec fn values_fit(&self) -> bool {
        forall|k: Seq<char>|
            #[trigger] self@.contains_key(k) ==> self@[k].len() <= MAX_METADATA_LEN
    }

    /// An empty store.
    pub fn new() -> (r: MetadataStore)
        ensures
            r.wf(),
            r.values_fit(),
            r@ == Map::<Seq<char>, Seq<u8>>::empty(),
    {
        MetadataStore { entries: Vec::new(), contents: Ghost(Map::empty()) }
    }

    /// The index of the entry for `key`, if there is one.
    fn find(&self, key: &String) -> (r: Option<usize>)
        requires
            self.wf(),
        ensures
            match r {
                Some(i) => i < self.entries@.len() && self.entries@[i as int].0@ == key@,
                None => !self@.contains_key(key@),
            },
    {
        let mut i: usize = 0;
        while i < self.entries.len()
            invariant
                self.wf(),
                i <= self.entries@.len(),
                forall|j: int| 0 <= j < i ==> #[trigger] self.entries@[j].0@ != key@,
            decreases self.entries@.len() - i,
        {
            if self.entries[i].0 == *key {
                return Some(i);
            }
            i = i + 1;
        }
        None
    }

    /// Returns a copy of the value stored under `key`; `NotFound` if there
    /// is none.
    pub fn read_metadata(&self, key: &str) -> (r: Result<Vec<u8>, MetadataError>)
        requires
            self.wf(),
        ensures
            match r {
                Ok(v) => self@.contains_key(key@) && v@ == self@[key@],
                Err(e) => !self@.contains_key(key@) && e == MetadataError::NotFound,
            },
    {
        let k = key.to_owned();
        match self.find(&k) {
            None => Err(MetadataError::NotFound),
            Some(i) => {
                assert(self.contents@.contains_key(self.entries@[i as int].0@));
                Ok(slice_to_vec(self.entries[i].1.as_slice()))
            },
        }
    }

    /// Stores `value` under `key`, replacing what was there. A value longer
    /// than `MAX_METADATA_LEN` is refused and nothing changes.
    pub fn write_metadata(&mut self, key: &str, value: &[u8]) -> (r: Result<(), MetadataError>)
        requires
            old(self).wf(),
        ensures
            final(self).wf(),
            old(self).values_fit() ==> final(self).values_fit(),
            value@.len() <= MAX_METADATA_LEN <==> r is Ok,
            match r {
                Ok(()) => final(self)@ == old(self)@.insert(key@, value@),
                Err(e) => e == MetadataError::ValueTooLarge && final(self)@ == old(self)@,
            },
    {
        if value.len() > MAX_METADATA_LEN {
            return Err(MetadataError::ValueTooLarge);
        }
        let k = key.to_owned();
        let v = slice_to_vec(value);
        let ghost before = self.entries@;
        match self.find(&k) {
            Some(i) => {
                self.entries.set(i, (k, v));
                self.contents = Ghost(self.contents@.insert(key@, value@));
                assert forall|j: int| 0 <= j < self.entries@.len() implies #[trigger] self.contents@.contains_key(
                    self.entries@[j].0@,
                ) && self.contents@[self.entries@[j].0@] == self.entries@[j].1@ by {
                    if j != i {
                        assert(before[j].0@ != before[i as int].0@);
                    }
                }
                assert forall|k2: Seq<char>| #[trigger] self.contents@.contains_key(k2) implies exists|j: int|
                    0 <= j < self.entries@.len() && #[trigger] self.entries@[j].0@ == k2 by {
                    if k2 == key@ {
                        assert(self.entries@[i as int].0@ == k2);
                    } else {
                        let j = choose|j: int| 0 <= j < before.len() && #[trigger] before[j].0@ == k2;
                        assert(self.entries@[j].0@ == k2);
                    }
                }
            },
            None => {
                self.entries.push((k, v));
                self.contents = Ghost(self.contents@.insert(key@, value@));
                assert forall|k2: Seq<char>| #[trigger] self.contents@.contains_key(k2) implies exists|j: int|
                    0 <= j < self.entries@.len() && #[trigger] self.entries@[j].0@ == k2 by {
                    if k2 == key@ {
                        assert(self.entries@[before.len() as int].0@ == k2);
                    } else {
                        let j = choose|j: int| 0 <= j < before.len() && #[trigger] before[j].0@ == k2;
                        assert(self.entries@[j].0@ == k2);
                    }
                }
            },
        }
        assert forall|k2: Seq<char>| #[trigger] self@.contains_key(k2) && old(self).values_fit()
            implies self@[k2].len() <= MAX_METADATA_LEN by {
            if k2 != key@ {
                assert(old(self)@.contains_key(k2));
            }
        }
        Ok(())
    }
}

} // verus!
