//! The index of the build cache.
//!
//! An entry is the encoded result of a successful build, kept in a file
//! named after the key of its source. The files are the caller's; the
//! index knows which keys have one. It grows and never shrinks, and what
//! was recorded for a key stays.

use crate::key::CacheKey;
use vstd::prelude::*;

verus! {

/// What the cache holds: for each key with an entry, the bytes that were
/// recorded for it.
pub type Entries = Map<Seq<u8>, Seq<u8>>;

/// `entries` after `bytes` were recorded for `key`: a new key gets them, a
/// key that has an entry keeps what it has.
pub open spec fn recorded(entries: Entries, key: Seq<u8>, bytes: Seq<u8>) -> Entries {
    if entries.dom().contains(key) {
        entries
    } else {
        entries.insert(key, bytes)
    }
}

/// Whether `later` holds all that `earlier` holds, unchanged.
pub open spec fn extends(later: Entries, earlier: Entries) -> bool {
    forall|key: Seq<u8>| #[trigger]
        earlier.dom().contains(key) ==> later.dom().contains(key) && later[key] == earlier[key]
}

/// The index: the keys that have an entry.
pub struct BuildCache {
    keys: Vec<CacheKey>,
    entries: Ghost<Entries>,
}

impl View for BuildCache {
    type V = Entries;

    closed spec fn view(&self) -> Entries {
        self.entries@
    }
}

impl BuildCache {
    /// The index lists each key with an entry once, and no other.
    pub closed spec fn wf(&self) -> bool {
        &&& forall|i: int|
            0 <= i < self.keys@.len() ==> self.entries@.dom().contains(#[trigger] self.keys@[i]@)
        &&& forall|key: Seq<u8>| #[trigger]
            self.entries@.dom().contains(key) ==> exists|i: int|
                0 <= i < self.keys@.len() && #[trigger] self.keys@[i]@ == key
        &&& forall|i: int, j: int|
            0 <= i < j < self.keys@.len() ==> #[trigger] self.keys@[i]@ != #[trigger] self.keys@[j]@
    }

    /// An index without entries.
    pub fn new() -> (out: BuildCache)
        ensures
            out.wf(),
            out@ == Entries::empty(),
    {
        BuildCache { keys: Vec::new(), entries: Ghost(Map::empty()) }
    }

    /// Whether `key` has an entry.
    pub fn contains(&self, key: &CacheKey) -> (out: bool)
        requires
            self.wf(),
        ensures
            out == self@.dom().contains(key@),
    {
        let mut i: usize = 0;
        while i < self.keys.len()
            invariant
                self.wf(),
                i <= self.keys@.len(),
                forall|j: int| 0 <= j < i ==> self.keys@[j]@ != key@,
            decreases self.keys@.len() - i,
        {
            if self.keys[i].same_as(key) {
                return true;
            }
            i += 1;
        }
        false
    }

    /// Records that the entry of `key` was written and holds `bytes`. A
    /// key that has an entry keeps it.
    pub fn record(&mut self, key: CacheKey, bytes: &[u8])
        requires
            old(self).wf(),
        ensures
            final(self).wf(),
            final(self)@ == recorded(old(self)@, key@, bytes@),
    {
        if !self.contains(&key) {
            self.keys.push(key);
            self.entries = Ghost(self.entries@.insert(key@, bytes@));
            assert(self.wf()) by {
                let n = old(self).keys@.len() as int;
                assert forall|i: int| 0 <= i < self.keys@.len() implies self.entries@.dom().contains(
                    #[trigger] self.keys@[i]@,
                ) by {
                    if i < n {
                        assert(self.keys@[i] == old(self).keys@[i]);
                    }
                }
                assert forall|k: Seq<u8>| #[trigger]
                    self.entries@.dom().contains(k) implies exists|i: int|
                    0 <= i < self.keys@.len() && #[trigger] self.keys@[i]@ == k by {
                    if k == key@ {
                        assert(self.keys@[n]@ == k);
                    } else {
                        let i = choose|i: int|
                            0 <= i < n && #[trigger] old(self).keys@[i]@ == k;
                        assert(self.keys@[i]@ == k);
                    }
                }
                assert forall|i: int, j: int| 0 <= i < j < self.keys@.len() implies #[trigger]
                    self.keys@[i]@ != #[trigger] self.keys@[j]@ by {
                    assert(self.keys@[i] == old(self).keys@[i]);
                    if j < n {
                        assert(self.keys@[j] == old(self).keys@[j]);
                    }
                }
            }
        }
    }
}

/// The cache only grows: recording keeps every entry as it was.
pub proof fn law_entries_stay(entries: Entries, key: Seq<u8>, bytes: Seq<u8>)
    ensures
        extends(recorded(entries, key, bytes), entries),
        recorded(entries, key, bytes).dom().contains(key),
        !entries.dom().contains(key) ==> recorded(entries, key, bytes)[key] == bytes,
{
}

} // verus!
