use vstd::prelude::*;
use vstd::map::*;

use crate::record::{RecordKind, ResolvedRecord};
use crate::track::{key_wf, CacheKey};

verus! {

/// One memoized resolution: the record last resolved for a given
/// (artist, album) pair.
pub struct CacheEntry {
    pub key: CacheKey,
    pub record: ResolvedRecord,
}

/// The mapping that a sequence of entries represents; a later entry
/// for the same key overrides an earlier one.
pub open spec fn map_of(entries: Seq<CacheEntry>) -> Map<
    (Seq<char>, Seq<char>),
    (Seq<char>, RecordKind),
>
    decreases entries.len(),
{
    if entries.len() == 0 {
        Map::empty()
    } else {
        map_of(entries.drop_last()).insert(entries.last().key@, entries.last().record@)
    }
}

/// No two entries share a key.
pub open spec fn unique_keys(entries: Seq<CacheEntry>) -> bool {
    forall|i: int, j: int| 0 <= i < j < entries.len() ==> entries[i].key@ != entries[j].key@
}

/// Entries have pairwise distinct keys, well-formed keys, and
/// non-empty record identifiers.
pub open spec fn entries_wf(entries: Seq<CacheEntry>) -> bool {
    &&& unique_keys(entries)
    &&& forall|i: int|
        0 <= i < entries.len() ==> key_wf(#[trigger] entries[i].key@) && entries[i].record@.0.len()
            > 0
}

proof fn lemma_map_of_absent(entries: Seq<CacheEntry>, k: (Seq<char>, Seq<char>))
    requires
        forall|i: int| 0 <= i < entries.len() ==> (#[trigger] entries[i].key@) != k,
    ensures
        !map_of(entries).contains_key(k),
    decreases entries.len(),
{
    if entries.len() > 0 {
        assert(forall|i: int|
            0 <= i < entries.drop_last().len() ==> (#[trigger] entries.drop_last()[i].key@) != k);
        lemma_map_of_absent(entries.drop_last(), k);
    }
}

proof fn lemma_map_of_found(entries: Seq<CacheEntry>, i: int)
    requires
        0 <= i < entries.len(),
        forall|j: int| i < j < entries.len() ==> (#[trigger] entries[j].key@) != entries[i].key@,
    ensures
        map_of(entries).contains_key(entries[i].key@),
        map_of(entries)[entries[i].key@] == entries[i].record@,
    decreases entries.len(),
{
    if i == entries.len() - 1 {
    } else {
        assert(entries.drop_last()[i] == entries[i]);
        assert(forall|j: int|
            i < j < entries.drop_last().len() ==> (#[trigger] entries.drop_last()[j].key@)
                != entries.drop_last()[i].key@);
        lemma_map_of_found(entries.drop_last(), i);
    }
}

/// Every value stored in the represented mapping comes from an entry,
/// so well-formed entries give only well-formed keys and non-empty
/// record identifiers.
proof fn lemma_map_of_wf_values(entries: Seq<CacheEntry>)
    requires
        entries_wf(entries),
    ensures
        forall|k: (Seq<char>, Seq<char>)|
            #[trigger] map_of(entries).contains_key(k) ==> key_wf(k) && map_of(entries)[k].0.len()
                > 0,
    decreases entries.len(),
{
    if entries.len() > 0 {
        assert(entries_wf(entries.drop_last()));
        lemma_map_of_wf_values(entries.drop_last());
        let lk = entries.last().key@;
        assert(entries[entries.len() - 1].key@ == lk);
        assert(key_wf(lk) && entries[entries.len() - 1].record@.0.len() > 0);
        assert forall|k: (Seq<char>, Seq<char>)| #[trigger] map_of(entries).contains_key(
            k,
        ) implies key_wf(k) && map_of(entries)[k].0.len() > 0 by {
            if k == lk {
                assert(map_of(entries)[k] == entries.last().record@);
            } else {
                assert(map_of(entries)[k] == map_of(entries.drop_last())[k]);
                assert(map_of(entries.drop_last()).contains_key(k));
            }
        }
    } else {
        assert forall|k: (Seq<char>, Seq<char>)| #[trigger] map_of(entries).contains_key(
            k,
        ) implies key_wf(k) && map_of(entries)[k].0.len() > 0 by {
            assert(!Map::<(Seq<char>, Seq<char>), (Seq<char>, RecordKind)>::empty().contains_key(
                k,
            ));
        }
    }
}

proof fn lemma_map_of_remove(entries: Seq<CacheEntry>, i: int)
    requires
        unique_keys(entries),
        0 <= i < entries.len(),
    ensures
        map_of(entries.remove(i)) == map_of(entries).remove(entries[i].key@),
    decreases entries.len(),
{
    let k = entries[i].key@;
    if i == entries.len() - 1 {
        assert(entries.remove(i) =~= entries.drop_last());
        assert(forall|j: int|
            0 <= j < entries.drop_last().len() ==> (#[trigger] entries.drop_last()[j].key@) != k);
        lemma_map_of_absent(entries.drop_last(), k);
        assert(map_of(entries.drop_last()) =~= map_of(entries.drop_last()).insert(
            k,
            entries.last().record@,
        ).remove(k));
    } else {
        let dl = entries.drop_last();
        assert(entries.remove(i).drop_last() =~= dl.remove(i));
        assert(dl[i] == entries[i]);
        lemma_map_of_remove(dl, i);
        let lastk = entries.last().key@;
        assert(lastk != k);
        assert(entries.remove(i).last() == entries.last());
        assert(map_of(entries.remove(i)) == map_of(dl).remove(k).insert(
            lastk,
            entries.last().record@,
        ));
        assert(map_of(dl).remove(k).insert(lastk, entries.last().record@) =~= map_of(dl).insert(
            lastk,
            entries.last().record@,
        ).remove(k));
    }
}

/// Memoizes the record last successfully resolved for each
/// (artist, album) pair. Entries are only ever overwritten, never
/// evicted.
pub struct ResolutionCache {
    entries: Vec<CacheEntry>,
}

impl View for ResolutionCache {
    type V = Map<(Seq<char>, Seq<char>), (Seq<char>, RecordKind)>;

    closed spec fn view(&self) -> Map<(Seq<char>, Seq<char>), (Seq<char>, RecordKind)> {
        map_of(self.entries@)
    }
}

impl ResolutionCache {
    /// The cache's internal invariant.
    pub closed spec fn wf(&self) -> bool {
        entries_wf(self.entries@)
    }

    /// A well-formed cache maps only well-formed keys, and only to
    /// records with a non-empty identifier: an entry is created only
    /// when a non-empty identifier was obtained.
    pub proof fn lemma_values_wf(&self)
        requires
            self.wf(),
        ensures
            forall|k: (Seq<char>, Seq<char>)|
                #[trigger] self@.contains_key(k) ==> key_wf(k) && self@[k].0.len() > 0,
    {
        lemma_map_of_wf_values(self.entries@);
    }

    /// An empty cache.
    pub fn new() -> (r: Self)
        ensures
            r.wf(),
            r@ == Map::<(Seq<char>, Seq<char>), (Seq<char>, RecordKind)>::empty(),
    {
        ResolutionCache { entries: Vec::new() }
    }

    fn find_index(&self, key: &CacheKey) -> (r: Option<usize>)
        ensures
            match r {
                Some(i) => i < self.entries@.len() && self.entries@[i as int].key@ == key@,
                None => forall|i: int|
                    0 <= i < self.entries@.len() ==> (#[trigger] self.entries@[i].key@) != key@,
            },
    {
        let n = self.entries.len();
        let mut i: usize = 0;
        while i < n
            invariant
                i <= n,
                n == self.entries@.len(),
                forall|j: int| 0 <= j < i ==> (#[trigger] self.entries@[j].key@) != key@,
            decreases n - i,
        {
            let e = &self.entries[i];
            if e.key.artist == key.artist && e.key.album == key.album {
                return Some(i);
            }
            i = i + 1;
        }
        None
    }

    /// Returns the record memoized for the key, if any.
    pub fn lookup(&self, key: &CacheKey) -> (r: Option<&ResolvedRecord>)
        requires
            self.wf(),
        ensures
            match r {
                Some(rec) => self@.contains_key(key@) && self@[key@] == rec@,
                None => !self@.contains_key(key@),
            },
    {
        match self.find_index(key) {
            Some(i) => {
                proof {
                    lemma_map_of_found(self.entries@, i as int);
                }
                Some(&self.entries[i].record)
            },
            None => {
                proof {
                    lemma_map_of_absent(self.entries@, key@);
                }
                None
            },
        }
    }

    /// Stores a record for the key, unconditionally overwriting any
    /// earlier entry for the same key.
    pub fn store(&mut self, key: CacheKey, record: ResolvedRecord)
        requires
            old(self).wf(),
            key_wf(key@),
            record@.0.len() > 0,
        ensures
            final(self).wf(),
            final(self)@ == old(self)@.insert(key@, record@),
    {
        let ghost entries0 = self.entries@;
        let ghost k = key@;
        match self.find_index(&key) {
            Some(i) => {
                proof {
                    lemma_map_of_remove(entries0, i as int);
                }
                self.entries.remove(i);
                proof {
                    let removed = entries0.remove(i as int);
                    assert(forall|a: int, b: int|
                        0 <= a < b < removed.len() ==> (#[trigger] removed[a].key@)
                            != (#[trigger] removed[b].key@));
                    assert(forall|a: int|
                        0 <= a < removed.len() ==> (#[trigger] removed[a].key@) != k);
                    lemma_map_of_absent(removed, k);
                }
            },
            None => {
                proof {
                    lemma_map_of_absent(entries0, k);
                }
            },
        }
        let ghost pre = self.entries@;
        self.entries.push(CacheEntry { key, record });
        proof {
            assert(self.entries@.drop_last() =~= pre);
            assert(self.entries@.last().key@ == k);
            assert(self@ == map_of(pre).insert(k, record@));
            assert(map_of(pre).insert(k, record@) =~= map_of(entries0).insert(k, record@));
            assert(forall|a: int| 0 <= a < pre.len() ==> (#[trigger] pre[a].key@) != k);
            assert(forall|a: int, b: int|
                0 <= a < b < self.entries@.len() ==> (#[trigger] self.entries@[a].key@)
                    != (#[trigger] self.entries@[b].key@));
        }
    }
}

} // verus!
