use vstd::prelude::*;

use crate::codec::encode_spec;
use crate::player::PlayerView;

verus! {

// The durable regions of the record store, held by `ic_stable_structures`:
// a map from player id to the stored image of the record, and the cell of the
// id allocator's counter. On a canister the backing memory is stable memory
// and survives restarts; elsewhere it is a plain in-process buffer. Verus
// sees the regions only through the named contents below and the trusted
// wrappers that read and write them.

/// The durable regions: the record map and the counter cell of
/// `ic_stable_structures`, which Verus cannot read.
#[verifier::external_body]
pub struct DurableStore {
    map: ic_stable_structures::btreemap::BTreeMap<
        u64,
        Vec<u8>,
        ic_stable_structures::memory_manager::VirtualMemory<ic_stable_structures::DefaultMemoryImpl>,
    >,
    counter: ic_stable_structures::cell::Cell<
        u64,
        ic_stable_structures::memory_manager::VirtualMemory<ic_stable_structures::DefaultMemoryImpl>,
    >,
}

/// What the record map holds: stored image by player id.
pub uninterp spec fn store_entries(s: DurableStore) -> Map<u64, Seq<u8>>;

/// What the counter cell holds.
pub uninterp spec fn store_counter(s: DurableStore) -> u64;

/// Builds the durable regions. Relies on `MemoryManager::init`,
/// `BTreeMap::init` and `Cell::init` of `ic_stable_structures`: each loads
/// the region already present in the backing memory, or starts it empty (the
/// counter at zero). Every record present was written through `raw_insert`
/// by this module, so each is the stored image of a player held under its
/// own id.
#[verifier::external_body]
pub(crate) fn new_durable_store() -> (s: DurableStore)
    ensures
        forall|id: u64| #[trigger] store_entries(s).dom().contains(id) ==> exists|p: PlayerView|
            store_entries(s)[id] == encode_spec(p) && p.id == id,
{
    let mm = ic_stable_structures::memory_manager::MemoryManager::init(
        ic_stable_structures::DefaultMemoryImpl::default(),
    );
    let counter = ic_stable_structures::cell::Cell::init(
        mm.get(ic_stable_structures::memory_manager::MemoryId::new(0)),
        0u64,
    );
    let map = ic_stable_structures::btreemap::BTreeMap::init(
        mm.get(ic_stable_structures::memory_manager::MemoryId::new(1)),
    );
    DurableStore { map, counter }
}

/// Relies on `BTreeMap::get` of `ic_stable_structures`: returns a copy of the
/// value stored under the key, or nothing when the key is absent.
#[verifier::external_body]
pub(crate) fn raw_get(s: &DurableStore, id: u64) -> (r: Option<Vec<u8>>)
    ensures
        r matches Some(v) ==> store_entries(*s).dom().contains(id) && v@ == store_entries(*s)[id],
        r is None ==> !store_entries(*s).dom().contains(id),
{
    s.map.get(&id)
}

/// Relies on `BTreeMap::insert` of `ic_stable_structures`: maps the key to
/// the value, replacing any previous one. Traps only if the backing memory
/// cannot grow, which the store treats as fatal.
#[verifier::external_body]
pub(crate) fn raw_insert(s: &mut DurableStore, id: u64, bytes: Vec<u8>)
    ensures
        store_entries(*final(s)) == store_entries(*old(s)).insert(id, bytes@),
        store_counter(*final(s)) == store_counter(*old(s)),
{
    s.map.insert(id, bytes);
}

/// Relies on `BTreeMap::remove` of `ic_stable_structures`: deletes the key
/// and returns the value it held, or nothing when the key is absent.
#[verifier::external_body]
pub(crate) fn raw_remove(s: &mut DurableStore, id: u64) -> (r: Option<Vec<u8>>)
    ensures
        r matches Some(v) ==> store_entries(*old(s)).dom().contains(id) && v@ == store_entries(
            *old(s),
        )[id] && store_entries(*final(s)) == store_entries(*old(s)).remove(id),
        r is None ==> !store_entries(*old(s)).dom().contains(id) && store_entries(*final(s))
            == store_entries(*old(s)),
        store_counter(*final(s)) == store_counter(*old(s)),
{
    s.map.remove(&id)
}

/// Relies on `Cell::get` of `ic_stable_structures`: returns the value the
/// cell holds.
#[verifier::external_body]
pub(crate) fn counter_get(s: &DurableStore) -> (r: u64)
    ensures
        r == store_counter(*s),
{
    *s.counter.get()
}

/// Relies on `Cell::set` of `ic_stable_structures`: writes the value to the
/// cell durably. Traps only if the backing memory cannot take the write,
/// which the store treats as fatal.
#[verifier::external_body]
pub(crate) fn counter_set(s: &mut DurableStore, value: u64)
    ensures
        store_counter(*final(s)) == value,
        store_entries(*final(s)) == store_entries(*old(s)),
{
    s.counter.set(value);
}

} // verus!
