//! A named registry of shared, immutable prototypes.
//!
//! A `PrototypeLibrary` is built once at startup and read thereafter. It is
//! an arena: every prototype sits at a stable index, and grid cells refer to
//! prototypes by index, so all cells naming the same prototype share one
//! descriptor. Registering an existing name overwrites the prototype in
//! place, so the index stays valid for everything that holds it.

use vstd::prelude::*;
use vstd::string::StringExecFns;

verus! {

/// A name-keyed arena of prototypes, parametrized over the prototype kind.
pub struct PrototypeLibrary<T> {
    pub names: Vec<String>,
    pub protos: Vec<T>,
}

impl<T> PrototypeLibrary<T> {
    /// The registered names, as character sequences.
    pub open spec fn names_view(self) -> Seq<Seq<char>> {
        self.names@.map_values(|s: String| s@)
    }

    /// The registered prototypes, index-aligned with the names.
    pub open spec fn protos_view(self) -> Seq<T> {
        self.protos@
    }

    /// One prototype per name, and names are unique.
    pub open spec fn wf(self) -> bool {
        &&& self.names_view().len() == self.protos_view().len()
        &&& forall|i: int, j: int|
            0 <= i < j < self.names_view().len() ==> #[trigger] self.names_view()[i]
                != #[trigger] self.names_view()[j]
    }

    /// Whether some prototype is registered under `name`.
    pub open spec fn contains_name(self, name: Seq<char>) -> bool {
        exists|i: int| 0 <= i < self.names_view().len() && self.names_view()[i] == name
    }

    /// The index at which `name` is registered.
    pub open spec fn index_of(self, name: Seq<char>) -> int {
        choose|i: int| 0 <= i < self.names_view().len() && self.names_view()[i] == name
    }

    /// The prototype registered under `name`.
    pub open spec fn spec_lookup(self, name: Seq<char>) -> T {
        self.protos_view()[self.index_of(name)]
    }

    /// An empty registry.
    pub fn new() -> (lib: PrototypeLibrary<T>)
        ensures
            lib.wf(),
            lib.names_view() == Seq::<Seq<char>>::empty(),
            lib.protos_view() == Seq::<T>::empty(),
    {
        let lib = PrototypeLibrary { names: Vec::new(), protos: Vec::new() };
        proof {
            assert(lib.names_view() =~= Seq::<Seq<char>>::empty());
        }
        lib
    }

    /// How many prototypes are registered.
    pub fn len(&self) -> (n: usize)
        requires
            self.wf(),
        ensures
            n == self.protos_view().len(),
    {
        self.protos.len()
    }

    /// The slot under which `name` is registered, by linear scan.
    fn find_index(&self, key: &String) -> (found: Option<usize>)
        requires
            self.wf(),
        ensures
            match found {
                Some(i) => i < self.names_view().len() && self.names_view()[i as int] == key@,
                None => !self.contains_name(key@),
            },
    {
        let n = self.names.len();
        let mut i: usize = 0;
        while i < n
            invariant
                self.wf(),
                n == self.names.len(),
                0 <= i <= n,
                forall|k: int| 0 <= k < i ==> #[trigger] self.names_view()[k] != key@,
            decreases n - i,
        {
            if self.names[i] == *key {
                return Some(i);
            }
            i = i + 1;
        }
        None
    }

    /// Register `proto` under `name`, returning its arena index. A new name
    /// is appended; an existing name has its prototype overwritten in place,
    /// keeping the index every holder already has.
    pub fn register(&mut self, name: String, proto: T) -> (idx: usize)
        requires
            old(self).wf(),
            old(self).names_view().len() < usize::MAX,
        ensures
            final(self).wf(),
            idx < final(self).names_view().len(),
            final(self).names_view()[idx as int] == name@,
            final(self).protos_view()[idx as int] == proto,
            final(self).contains_name(name@),
            final(self).index_of(name@) == idx as int,
            final(self).spec_lookup(name@) == proto,
            old(self).contains_name(name@) ==> {
                &&& idx as int == old(self).index_of(name@)
                &&& final(self).names_view() == old(self).names_view()
                &&& final(self).protos_view() == old(self).protos_view().update(idx as int, proto)
            },
            !old(self).contains_name(name@) ==> {
                &&& idx as int == old(self).names_view().len()
                &&& final(self).names_view() == old(self).names_view().push(name@)
                &&& final(self).protos_view() == old(self).protos_view().push(proto)
            },
            forall|m: Seq<char>|
                m != name@ ==> #[trigger] final(self).contains_name(m) == old(self).contains_name(
                    m,
                ),
            forall|m: Seq<char>|
                m != name@ && old(self).contains_name(m) ==> {
                    &&& #[trigger] final(self).index_of(m) == old(self).index_of(m)
                    &&& final(self).spec_lookup(m) == old(self).spec_lookup(m)
                },
    {
        let found = self.find_index(&name);
        match found {
            Some(i) => {
                proof {
                    lemma_unique_index(*self, name@, i as int);
                }
                self.protos[i] = proto;
                proof {
                    assert(self.names_view() =~= old(self).names_view());
                    lemma_unique_index(*self, name@, i as int);
                    lemma_other_names_stable(*old(self), *self, name@);
                }
                i
            },
            None => {
                let i = self.names.len();
                self.names.push(name);
                self.protos.push(proto);
                proof {
                    assert(self.names_view() =~= old(self).names_view().push(name@));
                    lemma_unique_index(*self, name@, i as int);
                    lemma_other_names_stable(*old(self), *self, name@);
                }
                i
            },
        }
    }

    /// The arena index of the prototype registered under `name`. Looking up
    /// a name that was never registered is a content-authoring error, ruled
    /// out by the precondition; hosts check with `contains` first.
    pub fn lookup_index(&self, name: &str) -> (idx: usize)
        requires
            self.wf(),
            self.contains_name(name@),
        ensures
            idx as int == self.index_of(name@),
            idx < self.protos_view().len(),
            self.names_view()[idx as int] == name@,
    {
        let key: String = String::from_str(name);
        let found = self.find_index(&key);
        match found {
            Some(i) => {
                proof {
                    lemma_unique_index(*self, name@, i as int);
                }
                i
            },
            None => {
                proof {
                    assert(false);
                }
                unreached()
            },
        }
    }

    /// The prototype registered under `name`.
    pub fn lookup(&self, name: &str) -> (proto: &T)
        requires
            self.wf(),
            self.contains_name(name@),
        ensures
            *proto == self.spec_lookup(name@),
    {
        let i = self.lookup_index(name);
        &self.protos[i]
    }

    /// The prototype at arena index `idx`.
    pub fn get(&self, idx: usize) -> (proto: &T)
        requires
            idx < self.protos_view().len(),
        ensures
            *proto == self.protos_view()[idx as int],
    {
        &self.protos[idx]
    }

    /// Whether some prototype is registered under `name`.
    pub fn contains(&self, name: &str) -> (r: bool)
        requires
            self.wf(),
        ensures
            r == self.contains_name(name@),
    {
        let key: String = String::from_str(name);
        match self.find_index(&key) {
            Some(_) => true,
            None => false,
        }
    }
}

/// In a well-formed registry the index of a registered name is the unique
/// slot holding that name.
proof fn lemma_unique_index<T>(lib: PrototypeLibrary<T>, name: Seq<char>, i: int)
    requires
        lib.wf(),
        0 <= i < lib.names_view().len(),
        lib.names_view()[i] == name,
    ensures
        lib.contains_name(name),
        lib.index_of(name) == i,
{
    assert(lib.contains_name(name));
    let j = lib.index_of(name);
    if i < j {
        assert(lib.names_view()[i] != lib.names_view()[j]);
    } else if j < i {
        assert(lib.names_view()[j] != lib.names_view()[i]);
    }
}

/// Registering one name leaves every other name's presence, index and
/// prototype as they were, provided the name slots did not move.
proof fn lemma_other_names_stable<T>(
    before: PrototypeLibrary<T>,
    after: PrototypeLibrary<T>,
    name: Seq<char>,
)
    requires
        before.wf(),
        after.wf(),
        before.names_view().len() <= after.names_view().len(),
        forall|k: int|
            0 <= k < before.names_view().len() ==> #[trigger] after.names_view()[k]
                == before.names_view()[k],
        forall|k: int|
            before.names_view().len() <= k < after.names_view().len()
                ==> #[trigger] after.names_view()[k] == name,
        forall|k: int|
            0 <= k < before.protos_view().len() && after.names_view()[k] != name
                ==> #[trigger] after.protos_view()[k] == before.protos_view()[k],
    ensures
        forall|m: Seq<char>|
            m != name ==> #[trigger] after.contains_name(m) == before.contains_name(m),
        forall|m: Seq<char>|
            m != name && before.contains_name(m) ==> {
                &&& #[trigger] after.index_of(m) == before.index_of(m)
                &&& after.spec_lookup(m) == before.spec_lookup(m)
            },
{
    assert forall|m: Seq<char>| m != name implies #[trigger] after.contains_name(m)
        == before.contains_name(m) by {
        if before.contains_name(m) {
            let i = before.index_of(m);
            assert(after.names_view()[i] == m);
        }
        if after.contains_name(m) {
            let i = after.index_of(m);
            assert(i < before.names_view().len());
            assert(before.names_view()[i] == m);
        }
    }
    assert forall|m: Seq<char>| m != name && before.contains_name(m) implies {
        &&& #[trigger] after.index_of(m) == before.index_of(m)
        &&& after.spec_lookup(m) == before.spec_lookup(m)
    } by {
        let i = before.index_of(m);
        assert(before.names_view()[i] == m);
        assert(after.names_view()[i] == m);
        lemma_unique_index(after, m, i);
    }
}

} // verus!
