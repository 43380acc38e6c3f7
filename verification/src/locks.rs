//! The registry of per-resource locks.
//!
//! A resource is an installed package in a game directory: the pair of a
//! package id and a directory. The registry gives each resource it is asked
//! about a lock slot of its own, the same one every time, and never takes a
//! slot back. The caller keeps one mutex per slot and holds the mutex of a
//! resource's slot while it changes the resource; so two operations on one
//! resource exclude each other, and operations on different resources never
//! wait for each other.
//!
//! The table behind the registry is a `dashmap::DashMap`.

use vstd::prelude::*;

verus! {

/// `dashmap::DashMap`, a concurrent hash map; what one holds is named by
/// [`slot_table`].
#[verifier::external_type_specification]
#[verifier::external_body]
#[verifier::reject_recursive_types(K)]
#[verifier::reject_recursive_types(V)]
#[verifier::reject_recursive_types(S)]
pub struct ExDashMap<K, V, S>(dashmap::DashMap<K, V, S>);

/// The table of a registry: from package id and directory to slot.
pub type SlotTable = dashmap::DashMap<(String, String), usize>;

/// A resource: a package id and a game directory.
pub type ResourceKey = (Seq<char>, Seq<char>);

/// What a table holds: the slot of each resource it knows.
pub uninterp spec fn slot_table(table: SlotTable) -> Map<ResourceKey, usize>;

/// The table that knows no resource.
pub open spec fn no_slots() -> Map<ResourceKey, usize> {
    Map::empty()
}

/// The table after it was asked for the slot of `key`, with `fresh` offered
/// for a resource it does not know yet.
pub open spec fn with_slot(slots: Map<ResourceKey, usize>, key: ResourceKey, fresh: usize) -> Map<
    ResourceKey,
    usize,
> {
    if slots.contains_key(key) {
        slots
    } else {
        slots.insert(key, fresh)
    }
}

/// `DashMap::new`: an empty table.
#[verifier::external_body]
fn table_new() -> (table: SlotTable)
    ensures
        slot_table(table) == no_slots(),
{
    dashmap::DashMap::new()
}

/// `DashMap::len`: the number of resources the table knows.
#[verifier::external_body]
fn table_len(table: &SlotTable) -> (count: usize)
    requires
        slot_table(*table).dom().finite(),
    ensures
        count == slot_table(*table).dom().len(),
{
    table.len()
}

/// `DashMap::entry` followed by `Entry::or_insert`, on the registry's
/// table: the slot the table holds for the resource, which is `fresh`,
/// newly entered, where the table did not know the resource; no other
/// entry changes. The slot offered is the number of resources known, so
/// that the slots stay distinct and the registry sound.
#[verifier::external_body]
fn table_slot(registry: &mut LockRegistry, id: String, directory: String, fresh: usize) -> (slot:
    usize)
    requires
        fresh == slot_table(old(registry).table).dom().len(),
    ensures
        slot_table(final(registry).table) == with_slot(
            slot_table(old(registry).table),
            (id@, directory@),
            fresh,
        ),
        slot == slot_table(final(registry).table)[(id@, directory@)],
{
    *registry.table.entry((id, directory)).or_insert(fresh)
}

/// Whether slots are handed out soundly: finitely many resources are
/// known, every slot is below their number, and no two resources share a
/// slot.
pub open spec fn sound(slots: Map<ResourceKey, usize>) -> bool {
    &&& slots.dom().finite()
    &&& forall|key: ResourceKey| slots.contains_key(key) ==> (#[trigger] slots[key])
        < slots.dom().len()
    &&& forall|a: ResourceKey, b: ResourceKey|
        slots.contains_key(a) && slots.contains_key(b) && #[trigger] slots[a] == #[trigger] slots[b]
            ==> a == b
}

/// The slots after the slot for `key` was asked for: a resource not known
/// before gets the next free slot, which is the number of resources known.
pub open spec fn acquired(slots: Map<ResourceKey, usize>, key: ResourceKey) -> Map<
    ResourceKey,
    usize,
> {
    with_slot(slots, key, slots.dom().len() as usize)
}

/// The registry of lock slots.
pub struct LockRegistry {
    table: SlotTable,
}

impl View for LockRegistry {
    type V = Map<ResourceKey, usize>;

    closed spec fn view(&self) -> Map<ResourceKey, usize> {
        slot_table(self.table)
    }
}

impl LockRegistry {
    #[verifier::type_invariant]
    spec fn well_formed(self) -> bool {
        sound(slot_table(self.table))
    }

    /// A registry that knows no resource.
    pub fn new() -> (registry: Self)
        ensures
            registry@ == no_slots(),
    {
        LockRegistry { table: table_new() }
    }

    /// The number of slots handed out so far. Slots are handed out
    /// soundly, whatever was asked of the registry before.
    pub fn len(&self) -> (count: usize)
        ensures
            count == self@.dom().len(),
            sound(self@),
    {
        proof {
            use_type_invariant(self);
        }
        table_len(&self.table)
    }

    /// The lock slot of the package `package_id` in the directory
    /// `target_dir`: the one it was given before, or the next free one
    /// where it is asked about for the first time.
    pub fn acquire(&mut self, package_id: &str, target_dir: &str) -> (slot: usize)
        ensures
            sound(old(self)@),
            sound(final(self)@),
            final(self)@ == acquired(old(self)@, (package_id@, target_dir@)),
            slot == final(self)@[(package_id@, target_dir@)],
    {
        proof {
            use_type_invariant(&*self);
        }
        let fresh = table_len(&self.table);
        proof {
            acquiring_keeps_sound(self@, (package_id@, target_dir@));
        }
        table_slot(self, package_id.to_owned(), target_dir.to_owned(), fresh)
    }
}

/// Asking for a slot keeps the registry sound.
pub proof fn acquiring_keeps_sound(slots: Map<ResourceKey, usize>, key: ResourceKey)
    requires
        sound(slots),
        slots.dom().len() <= usize::MAX,
    ensures
        sound(acquired(slots, key)),
{
    let after = acquired(slots, key);
    if !slots.contains_key(key) {
        assert forall|k: ResourceKey| after.contains_key(k) implies (#[trigger] after[k])
            < after.dom().len() by {}
        assert forall|a: ResourceKey, b: ResourceKey|
            after.contains_key(a) && after.contains_key(b) && #[trigger] after[a]
                == #[trigger] after[b] implies a == b by {}
    }
}

/// A resource keeps its slot: asking again, after any number of other
/// resources were asked about, gives the slot it was given first. So two
/// operations on one resource always meet at one lock.
pub proof fn same_resource_same_slot(
    slots: Map<ResourceKey, usize>,
    key: ResourceKey,
    other: ResourceKey,
)
    ensures
        acquired(acquired(slots, key), key)[key] == acquired(slots, key)[key],
        acquired(acquired(slots, key), other)[key] == acquired(slots, key)[key],
        acquired(acquired(slots, key), other).contains_key(key),
{
}

/// Different resources have different slots, and so different locks: an
/// operation on one never waits for an operation on the other.
pub proof fn different_resources_different_slots(
    slots: Map<ResourceKey, usize>,
    first: ResourceKey,
    second: ResourceKey,
)
    requires
        sound(slots),
        slots.dom().len() < usize::MAX,
        first != second,
    ensures
        ({
            let after = acquired(acquired(slots, first), second);
            after[first] != after[second]
        }),
{
    acquiring_keeps_sound(slots, first);
    acquiring_keeps_sound(acquired(slots, first), second);
}

/// The registry only grows: every resource it knows stays known, with the
/// slot it has.
pub proof fn registry_never_evicts(
    slots: Map<ResourceKey, usize>,
    key: ResourceKey,
    known: ResourceKey,
)
    requires
        slots.contains_key(known),
    ensures
        acquired(slots, key).contains_key(known),
        acquired(slots, key)[known] == slots[known],
{
}

} // verus!
