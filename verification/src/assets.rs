//! A memoizing, type-tagged asset cache.
//!
//! The cache maps a resource path to a shared handle, tagged with the kind of
//! asset the path was last loaded as. Loading a path twice under the same
//! kind returns the existing handle without a new external load; loading it
//! under a different kind performs one fresh load and replaces the entry.
//!
//! The external load itself (reading and decoding a file) is the host's job:
//! the cache allocates a fresh handle for every external load it decides on,
//! and the host resolves handles to raw resources.

use vstd::prelude::*;
use vstd::string::StringExecFns;

verus! {

/// The kinds of asset a cache entry can be tagged with.
#[derive(Clone, Copy, Debug, PartialEq, Eq, Structural)]
pub enum AssetKind {
    Image,
    Sound,
}

/// One cache slot: a resource path, the kind it was last loaded as, and the
/// shared handle returned for it.
pub struct AssetEntry {
    pub path: String,
    pub kind: AssetKind,
    pub handle: u64,
}

impl AssetEntry {
    /// The mathematical content of an entry: path, tag and handle.
    pub open spec fn model(self) -> (Seq<char>, AssetKind, int) {
        (self.path@, self.kind, self.handle as int)
    }
}

/// The index of the first entry whose path is `path`, searching from `i` up.
pub open spec fn find_entry_from(
    entries: Seq<(Seq<char>, AssetKind, int)>,
    path: Seq<char>,
    i: int,
) -> Option<int>
    decreases entries.len() - i,
{
    if i < 0 || i >= entries.len() {
        None
    } else if entries[i].0 == path {
        Some(i)
    } else {
        find_entry_from(entries, path, i + 1)
    }
}

/// The index of the first entry whose path is `path`, if any.
pub open spec fn find_entry(entries: Seq<(Seq<char>, AssetKind, int)>, path: Seq<char>) -> Option<
    int,
> {
    find_entry_from(entries, path, 0)
}

/// The entries after a load of `path` as `kind`, when `next` is the next
/// fresh handle: a miss appends a new entry, a hit under the same kind leaves
/// the cache as it is, and a hit under a different kind replaces the entry.
pub open spec fn loaded_entries(
    entries: Seq<(Seq<char>, AssetKind, int)>,
    path: Seq<char>,
    kind: AssetKind,
    next: int,
) -> Seq<(Seq<char>, AssetKind, int)> {
    match find_entry(entries, path) {
        None => entries.push((path, kind, next)),
        Some(i) => if entries[i].1 == kind {
            entries
        } else {
            entries.update(i, (path, kind, next))
        },
    }
}

/// The handle a load of `path` as `kind` returns: the stored handle on a hit
/// under the same kind, and the fresh handle `next` otherwise.
pub open spec fn loaded_handle(
    entries: Seq<(Seq<char>, AssetKind, int)>,
    path: Seq<char>,
    kind: AssetKind,
    next: int,
) -> int {
    match find_entry(entries, path) {
        Some(i) => if entries[i].1 == kind {
            entries[i].2
        } else {
            next
        },
        None => next,
    }
}

/// The next fresh handle after a load of `path` as `kind`: unchanged on a hit
/// under the same kind (no external load), advanced by one otherwise.
pub open spec fn loaded_next(
    entries: Seq<(Seq<char>, AssetKind, int)>,
    path: Seq<char>,
    kind: AssetKind,
    next: int,
) -> int {
    match find_entry(entries, path) {
        Some(i) => if entries[i].1 == kind {
            next
        } else {
            next + 1
        },
        None => next + 1,
    }
}

/// What a search from `i` says about the entries: a miss means no entry at
/// or after `i` has the path, a hit at `j` means `j` is the first such slot.
proof fn lemma_find_entry_from_spec(
    entries: Seq<(Seq<char>, AssetKind, int)>,
    path: Seq<char>,
    i: int,
)
    requires
        0 <= i <= entries.len(),
    ensures
        match find_entry_from(entries, path, i) {
            None => forall|k: int| i <= k < entries.len() ==> (#[trigger] entries[k]).0 != path,
            Some(j) => i <= j < entries.len() && entries[j].0 == path && (forall|k: int|
                i <= k < j ==> (#[trigger] entries[k]).0 != path),
        },
    decreases entries.len() - i,
{
    if i < entries.len() && entries[i].0 != path {
        lemma_find_entry_from_spec(entries, path, i + 1);
    }
}

/// What a search result says about the entries.
proof fn lemma_find_entry_spec(entries: Seq<(Seq<char>, AssetKind, int)>, path: Seq<char>)
    ensures
        match find_entry(entries, path) {
            None => forall|k: int| 0 <= k < entries.len() ==> (#[trigger] entries[k]).0 != path,
            Some(j) => 0 <= j < entries.len() && entries[j].0 == path && (forall|k: int|
                0 <= k < j ==> (#[trigger] entries[k]).0 != path),
        },
{
    lemma_find_entry_from_spec(entries, path, 0);
}

/// A search from `i` finds the first matching slot at or after `i`.
proof fn lemma_find_entry_from_first(
    entries: Seq<(Seq<char>, AssetKind, int)>,
    path: Seq<char>,
    i: int,
    j: int,
)
    requires
        0 <= i <= j < entries.len(),
        entries[j].0 == path,
        forall|k: int| i <= k < j ==> (#[trigger] entries[k]).0 != path,
    ensures
        find_entry_from(entries, path, i) == Some(j),
    decreases j - i,
{
    if i < j {
        lemma_find_entry_from_first(entries, path, i + 1, j);
    }
}

/// A search finds the first matching slot.
proof fn lemma_find_entry_first(entries: Seq<(Seq<char>, AssetKind, int)>, path: Seq<char>, j: int)
    requires
        0 <= j < entries.len(),
        entries[j].0 == path,
        forall|k: int| 0 <= k < j ==> (#[trigger] entries[k]).0 != path,
    ensures
        find_entry(entries, path) == Some(j),
{
    lemma_find_entry_from_first(entries, path, 0, j);
}

/// A memoizing asset cache. `next_handle` doubles as the count of external
/// loads performed so far: every external load allocates one fresh handle.
pub struct AssetLoader {
    pub assets: Vec<AssetEntry>,
    pub next_handle: u64,
}

impl AssetLoader {
    /// The cache contents as a sequence of (path, kind, handle) triples.
    pub open spec fn entries(self) -> Seq<(Seq<char>, AssetKind, int)> {
        self.assets@.map_values(|e: AssetEntry| e.model())
    }

    /// How many external loads the cache has asked for so far.
    pub open spec fn loads_performed(self) -> int {
        self.next_handle as int
    }

    /// Paths are unique, and every stored handle was allocated from the
    /// counter, so handles of distinct entries are distinct too.
    pub open spec fn wf(self) -> bool {
        &&& forall|i: int, j: int|
            0 <= i < j < self.entries().len() ==> #[trigger] self.entries()[i].0
                != #[trigger] self.entries()[j].0
        &&& forall|i: int|
            0 <= i < self.entries().len() ==> #[trigger] self.entries()[i].2
                < self.next_handle as int
    }

    /// An empty cache: no entries, no loads performed.
    pub fn new() -> (loader: AssetLoader)
        ensures
            loader.wf(),
            loader.entries() == Seq::<(Seq<char>, AssetKind, int)>::empty(),
            loader.loads_performed() == 0,
    {
        let loader = AssetLoader { assets: Vec::new(), next_handle: 0 };
        proof {
            assert(loader.entries() =~= Seq::<(Seq<char>, AssetKind, int)>::empty());
        }
        loader
    }

    /// The entry at a given slot, for hosts that resolve handles to raw
    /// resources.
    pub fn entry_at(&self, i: usize) -> (entry: &AssetEntry)
        requires
            i < self.entries().len(),
        ensures
            entry.model() == self.entries()[i as int],
    {
        &self.assets[i]
    }

    /// How many entries the cache currently holds.
    pub fn asset_count(&self) -> (n: usize)
        ensures
            n == self.entries().len(),
    {
        self.assets.len()
    }

    /// How many external loads the cache has asked for so far.
    pub fn load_count(&self) -> (n: u64)
        ensures
            n as int == self.loads_performed(),
    {
        self.next_handle
    }

    /// The slot holding `key`, by linear scan.
    fn find_index(&self, key: &String) -> (found: Option<usize>)
        ensures
            match found {
                Some(i) => i < self.entries().len() && find_entry(self.entries(), key@) == Some(
                    i as int,
                ),
                None => find_entry(self.entries(), key@) == None::<int>,
            },
    {
        let n = self.assets.len();
        let mut i: usize = 0;
        while i < n
            invariant
                n == self.assets.len(),
                0 <= i <= n,
                find_entry(self.entries(), key@) == find_entry_from(self.entries(), key@, i as int),
            decreases n - i,
        {
            if self.assets[i].path == *key {
                assert(find_entry_from(self.entries(), key@, i as int) == Some(i as int));
                return Some(i);
            }
            assert(find_entry_from(self.entries(), key@, i as int) == find_entry_from(
                self.entries(),
                key@,
                i as int + 1,
            ));
            i = i + 1;
        }
        assert(find_entry_from(self.entries(), key@, i as int) == None::<int>);
        None
    }

    /// Load `path` as `kind`. A miss performs an external load (allocating a
    /// fresh handle) and caches it; a hit under the same kind returns the
    /// cached handle; a hit under a different kind performs one fresh
    /// external load and replaces the entry.
    pub fn load(&mut self, kind: AssetKind, path: &str) -> (handle: u64)
        requires
            old(self).wf(),
            old(self).next_handle < u64::MAX,
        ensures
            final(self).wf(),
            handle as int == loaded_handle(
                old(self).entries(),
                path@,
                kind,
                old(self).loads_performed(),
            ),
            final(self).entries() == loaded_entries(
                old(self).entries(),
                path@,
                kind,
                old(self).loads_performed(),
            ),
            final(self).loads_performed() == loaded_next(
                old(self).entries(),
                path@,
                kind,
                old(self).loads_performed(),
            ),
    {
        let key: String = String::from_str(path);
        let ghost s = self.entries();
        let ghost n = self.loads_performed();
        match self.find_index(&key) {
            Some(i) => {
                if self.assets[i].kind == kind {
                    self.assets[i].handle
                } else {
                    let handle = self.next_handle;
                    self.next_handle = handle + 1;
                    let entry = AssetEntry { path: key, kind, handle };
                    self.assets[i] = entry;
                    proof {
                        lemma_find_entry_spec(s, path@);
                        assert(self.entries() =~= loaded_entries(s, path@, kind, n));
                        assert forall|a: int, b: int|
                            0 <= a < b < self.entries().len() implies #[trigger] self.entries()[a].0
                            != #[trigger] self.entries()[b].0 by {
                            assert(self.entries()[a].0 == s[a].0);
                            assert(self.entries()[b].0 == s[b].0);
                        }
                    }
                    handle
                }
            },
            None => {
                let handle = self.next_handle;
                self.next_handle = handle + 1;
                let entry = AssetEntry { path: key, kind, handle };
                self.assets.push(entry);
                proof {
                    lemma_find_entry_spec(s, path@);
                    assert(self.entries() =~= loaded_entries(s, path@, kind, n));
                }
                handle
            },
        }
    }

    /// Load `path` as an image.
    pub fn load_image(&mut self, path: &str) -> (handle: u64)
        requires
            old(self).wf(),
            old(self).next_handle < u64::MAX,
        ensures
            final(self).wf(),
            handle as int == loaded_handle(
                old(self).entries(),
                path@,
                AssetKind::Image,
                old(self).loads_performed(),
            ),
            final(self).entries() == loaded_entries(
                old(self).entries(),
                path@,
                AssetKind::Image,
                old(self).loads_performed(),
            ),
            final(self).loads_performed() == loaded_next(
                old(self).entries(),
                path@,
                AssetKind::Image,
                old(self).loads_performed(),
            ),
    {
        self.load(AssetKind::Image, path)
    }
}

/// Cache identity: loading the same path twice under the same kind returns
/// the same handle both times, and the second load changes nothing — in
/// particular it performs no external load. When the path was not cached
/// before the first call, exactly one external load happens in total.
pub proof fn lemma_cache_identity(
    entries: Seq<(Seq<char>, AssetKind, int)>,
    path: Seq<char>,
    kind: AssetKind,
    next: int,
)
    ensures
        ({
            let entries1 = loaded_entries(entries, path, kind, next);
            let handle1 = loaded_handle(entries, path, kind, next);
            let next1 = loaded_next(entries, path, kind, next);
            &&& loaded_handle(entries1, path, kind, next1) == handle1
            &&& loaded_entries(entries1, path, kind, next1) == entries1
            &&& loaded_next(entries1, path, kind, next1) == next1
            &&& (find_entry(entries, path) == None::<int> ==> next1 == next + 1)
        }),
{
    let entries1 = loaded_entries(entries, path, kind, next);
    lemma_find_entry_spec(entries, path);
    match find_entry(entries, path) {
        None => {
            lemma_find_entry_first(entries1, path, entries.len() as int);
        },
        Some(i) => {
            if entries[i].1 == kind {
            } else {
                lemma_find_entry_first(entries1, path, i);
            }
        },
    }
}

/// Cache type switch: loading a path as `kind1` and then as a different
/// `kind2` triggers exactly one additional external load; the second call
/// returns a fresh handle, distinct from the first, and the cache entry for
/// the path is now tagged `kind2` and holds that fresh handle.
pub proof fn lemma_cache_type_switch(
    entries: Seq<(Seq<char>, AssetKind, int)>,
    path: Seq<char>,
    kind1: AssetKind,
    kind2: AssetKind,
    next: int,
)
    requires
        kind1 != kind2,
        forall|i: int| 0 <= i < entries.len() ==> (#[trigger] entries[i]).2 < next,
    ensures
        ({
            let entries1 = loaded_entries(entries, path, kind1, next);
            let handle1 = loaded_handle(entries, path, kind1, next);
            let next1 = loaded_next(entries, path, kind1, next);
            let entries2 = loaded_entries(entries1, path, kind2, next1);
            let handle2 = loaded_handle(entries1, path, kind2, next1);
            let next2 = loaded_next(entries1, path, kind2, next1);
            &&& next2 == next1 + 1
            &&& handle2 == next1
            &&& handle2 != handle1
            &&& match find_entry(entries2, path) {
                Some(j) => entries2[j].1 == kind2 && entries2[j].2 == handle2,
                None => false,
            }
        }),
{
    let entries1 = loaded_entries(entries, path, kind1, next);
    let next1 = loaded_next(entries, path, kind1, next);
    lemma_find_entry_spec(entries, path);
    match find_entry(entries, path) {
        None => {
            let j = entries.len() as int;
            lemma_find_entry_first(entries1, path, j);
            let entries2 = loaded_entries(entries1, path, kind2, next1);
            lemma_find_entry_first(entries2, path, j);
        },
        Some(i) => {
            if entries[i].1 == kind1 {
                let entries2 = loaded_entries(entries1, path, kind2, next1);
                lemma_find_entry_first(entries2, path, i);
            } else {
                lemma_find_entry_first(entries1, path, i);
                let entries2 = loaded_entries(entries1, path, kind2, next1);
                lemma_find_entry_first(entries2, path, i);
            }
        },
    }
}

} // verus!
