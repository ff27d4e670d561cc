//! Which libraries a runtime has loaded, and under which request each was built.

use vstd::prelude::*;

verus! {

/// An append-only vector of `boxcar`, whose items never move.
#[verifier::external_type_specification]
#[verifier::external_body]
#[verifier::reject_recursive_types(T)]
pub struct ExArena<T>(boxcar::Vec<T>);

/// What an arena holds, in the order in which it was pushed.
pub uninterp spec fn arena_contents(arena: boxcar::Vec<u64>) -> Seq<u64>;

/// The number of handles for which an arena can be addressed: beyond it the arena's next bucket,
/// at up to sixteen bytes a handle, could be larger than any allocation.
pub const LIBRARY_LIMIT: usize = usize::MAX / 128;

/// An empty arena, from [`boxcar::Vec::new`].
#[verifier::external_body]
fn arena_new() -> (arena: boxcar::Vec<u64>)
    ensures
        arena_contents(arena) == Seq::<u64>::empty(),
{
    boxcar::Vec::new()
}

/// Appends with [`boxcar::Vec::push`], which returns the index of the new item. With nobody else
/// pushing, that is the number of items before. At sizes beyond the bound the arena can panic with a
/// capacity overflow.
#[verifier::external_body]
fn arena_push(arena: &mut boxcar::Vec<u64>, handle: u64) -> (index: usize)
    requires
        arena_contents(*old(arena)).len() < LIBRARY_LIMIT,
    ensures
        arena_contents(*final(arena)) == arena_contents(*old(arena)).push(handle),
        index == arena_contents(*old(arena)).len(),
{
    arena.push(handle)
}

/// Reads with [`boxcar::Vec::get`]: the item at an index, if there is one.
#[verifier::external_body]
fn arena_get(arena: &boxcar::Vec<u64>, index: usize) -> (handle: Option<u64>)
    ensures
        handle == (if index < arena_contents(*arena).len() {
            Some(arena_contents(*arena)[index as int])
        } else {
            None
        }),
{
    arena.get(index).copied()
}

/// What a library is found under: the module, the file that defines it, and the fingerprint of its
/// ports and configuration.
#[derive(Debug, PartialEq, Eq, Hash)]
pub struct LibraryArenaKey {
    pub name: String,
    pub source_path: String,
    pub hash: u64,
}

/// A key in specifications.
pub struct KeyView {
    pub name: Seq<char>,
    pub source_path: Seq<char>,
    pub hash: u64,
}

impl View for LibraryArenaKey {
    type V = KeyView;

    open spec fn view(&self) -> KeyView {
        KeyView { name: self.name@, source_path: self.source_path@, hash: self.hash }
    }
}

impl LibraryArenaKey {
    /// Whether two keys are the same.
    pub fn same(&self, other: &LibraryArenaKey) -> (same: bool)
        ensures
            same <==> self@ == other@,
    {
        self.hash == other.hash && self.name == other.name && self.source_path == other.source_path
    }
}

/// What is found under a key.
pub open spec fn found(libraries: Map<KeyView, u64>, key: KeyView) -> Option<u64> {
    if libraries.contains_key(key) {
        Some(libraries[key])
    } else {
        None
    }
}

/// The loaded libraries, each known by a handle.
pub struct LibraryRegistry {
    keys: Vec<LibraryArenaKey>,
    slots: Vec<usize>,
    arena: boxcar::Vec<u64>,
}

impl LibraryRegistry {
    /// Every key stands once, and has its own slot in the arena.
    pub closed spec fn wf(&self) -> bool {
        &&& self.keys@.len() == self.slots@.len()
        &&& self.keys@.len() == arena_contents(self.arena).len()
        &&& self.keys@.len() <= LIBRARY_LIMIT
        &&& forall|i: int|
            0 <= i < self.slots@.len() ==> #[trigger] self.slots@[i] < arena_contents(
                self.arena,
            ).len()
        &&& forall|i: int, j: int|
            0 <= i < j < self.keys@.len() ==> (#[trigger] self.keys@[i])@ != (
            #[trigger] self.keys@[j])@
    }

    /// Where a key stands, if it does.
    closed spec fn place(&self, key: KeyView) -> int {
        choose|i: int| 0 <= i < self.keys@.len() && (#[trigger] self.keys@[i])@ == key
    }

    /// Whether a key stands anywhere.
    closed spec fn has(&self, key: KeyView) -> bool {
        exists|i: int| 0 <= i < self.keys@.len() && (#[trigger] self.keys@[i])@ == key
    }

    /// The number of libraries.
    pub closed spec fn count(&self) -> nat {
        self.keys@.len()
    }

    /// A registry of no library.
    pub fn new() -> (registry: Self)
        ensures
            registry.wf(),
            registry@ == Map::<KeyView, u64>::empty(),
            registry.count() == 0,
    {
        let registry = LibraryRegistry { keys: Vec::new(), slots: Vec::new(), arena: arena_new() };
        proof {
            assert(registry@ =~= Map::<KeyView, u64>::empty());
        }
        registry
    }

    /// Whether one more library can be held.
    pub fn has_room(&self) -> (room: bool)
        requires
            self.wf(),
        ensures
            room <==> self.count() < LIBRARY_LIMIT,
    {
        self.keys.len() < LIBRARY_LIMIT
    }

    /// The handle of the library under `key`, if there is one.
    pub fn lookup(&self, key: &LibraryArenaKey) -> (handle: Option<u64>)
        requires
            self.wf(),
        ensures
            handle == found(self@, key@),
    {
        let mut i: usize = 0;
        while i < self.keys.len()
            invariant
                i <= self.keys@.len(),
                self.wf(),
                forall|j: int| 0 <= j < i ==> (#[trigger] self.keys@[j])@ != key@,
            decreases self.keys@.len() - i,
        {
            if self.keys[i].same(key) {
                proof {
                    assert(self.keys@[i as int]@ == key@);
                    assert(self.has(key@));
                    assert(self.place(key@) == i);
                }
                return arena_get(&self.arena, self.slots[i]);
            }
            i = i + 1;
        }
        None
    }

    /// Adds a library under a key that has none.
    pub fn insert(&mut self, key: LibraryArenaKey, handle: u64)
        requires
            old(self).wf(),
            old(self).count() < LIBRARY_LIMIT,
            !old(self)@.contains_key(key@),
        ensures
            final(self).wf(),
            final(self)@ == old(self)@.insert(key@, handle),
            final(self).count() == old(self).count() + 1,
    {
        let ghost before = *self;
        let ghost added = key@;
        proof {
            assert(!before.has(added));
        }
        let slot: usize = arena_push(&mut self.arena, handle);
        self.slots.push(slot);
        self.keys.push(key);
        proof {
            let count = before.keys@.len();
            assert(self.keys@[count as int]@ == added);
            assert forall|k: KeyView| self.has(k) <==> (before.has(k) || k == added) by {
                if before.has(k) {
                    let i = before.place(k);
                    assert(self.keys@[i]@ == k);
                }
                if self.has(k) && k != added {
                    let i = self.place(k);
                    assert(before.keys@[i]@ == k);
                }
            }
            assert forall|k: KeyView| before.has(k) implies self.place(k) == before.place(k) by {
                let i = before.place(k);
                assert(before.keys@[i]@ == k && self.keys@[i]@ == k);
                let j = self.place(k);
                assert(self.keys@[j]@ == k);
                assert(j < count) by {
                    assert(before.has(k) && !before.has(added));
                }
                assert(before.keys@[j]@ == k);
            }
            assert(self.place(added) == count) by {
                let j = self.place(added);
                assert(self.has(added));
                if j < count {
                    assert(before.keys@[j]@ == added);
                }
            }
            assert(self@ =~= before@.insert(added, handle));
        }
    }
}

impl View for LibraryRegistry {
    type V = Map<KeyView, u64>;

    closed spec fn view(&self) -> Map<KeyView, u64> {
        Map::new(
            |key: KeyView| self.has(key),
            |key: KeyView| arena_contents(self.arena)[self.slots@[self.place(key)] as int],
        )
    }
}

/// A library that was recorded is found again under its key, and recording it changes what is
/// found under no other key.
pub proof fn law_recorded_library_is_found(
    libraries: Map<KeyView, u64>,
    key: KeyView,
    handle: u64,
    other: KeyView,
)
    requires
        other != key,
    ensures
        found(libraries.insert(key, handle), key) == Some(handle),
        found(libraries.insert(key, handle), other) == found(libraries, other),
{
}

/// A library is found under a key exactly if one was recorded under it, and it is that one.
pub proof fn law_found_is_what_is_recorded(libraries: Map<KeyView, u64>, key: KeyView, handle: u64)
    ensures
        found(libraries, key) == Some(handle) <==> libraries.dom().contains(key) && libraries[key]
            == handle,
        found(libraries, key) is None <==> !libraries.dom().contains(key),
        found(Map::empty(), key) is None,
{
}

/// Two keys are the same exactly if they have the same name, the same path and the same hash.
pub proof fn law_keys_differ_in_name_path_or_hash(one: LibraryArenaKey, other: LibraryArenaKey)
    ensures
        one@ == other@ <==> one.name@ == other.name@ && one.source_path@ == other.source_path@
            && one.hash == other.hash,
        one@.name == one.name@,
        one@.source_path == one.source_path@,
        one@.hash == one.hash,
{
}

/// There is room for as many libraries as handles can be addressed.
pub proof fn law_room_is_bounded_by_addresses_alone(count: nat)
    requires
        128 * (count + 1) <= usize::MAX,
    ensures
        count < LIBRARY_LIMIT,
{
}

} // verus!
