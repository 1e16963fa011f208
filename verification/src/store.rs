//! The metadata store: where the records of created tokens are kept.
//!
//! A record is written once, at a storage location that held nothing before, and is never
//! updated or removed afterwards. Readers fetch it by the handle that its creation returned.

use crate::address::Address;
use crate::error::GatewayError;
use crate::metadata::{fits_reserved_space, record_fits, TokenInfo, TokenInfoView};
use vstd::prelude::*;

verus! {

/// Names a stored record by the storage location that was allocated for it.
#[derive(Clone, Copy, Debug, PartialEq, Eq)]
pub struct RecordHandle {
    pub location: Address,
}

/// A storage location together with the record written there.
struct Slot {
    location: Address,
    record: TokenInfo,
}

/// Whether slot `i` exists and is the one allocated at `location`.
spec fn slot_at(slots: Seq<Slot>, i: int, location: Address) -> bool {
    0 <= i < slots.len() && slots[i].location == location
}

/// Whether some slot is allocated at `location`.
spec fn held(slots: Seq<Slot>, location: Address) -> bool {
    exists|i: int| #[trigger] slot_at(slots, i, location)
}

/// The slot allocated at `location`, where there is one.
spec fn index_of(slots: Seq<Slot>, location: Address) -> int {
    choose|i: int| #[trigger] slot_at(slots, i, location)
}

/// The records by location.
spec fn contents(slots: Seq<Slot>) -> Map<Address, TokenInfoView> {
    Map::new(|a: Address| held(slots, a), |a: Address| slots[index_of(slots, a)].record@)
}

/// No location is allocated twice, and every record fits in its reserved space.
spec fn well_formed(slots: Seq<Slot>) -> bool {
    &&& forall|i: int, j: int|
        0 <= i < j < slots.len() ==> (#[trigger] slots[i]).location != (#[trigger] slots[j]).location
    &&& forall|i: int|
        0 <= i < slots.len() ==> fits_reserved_space(
            (#[trigger] slots[i]).record.name@,
            slots[i].record.symbol@,
        )
}

/// In a well-formed store the record found in a slot is the one its location maps to.
proof fn lemma_slot_is_content(slots: Seq<Slot>, i: int)
    requires
        well_formed(slots),
        0 <= i < slots.len(),
    ensures
        contents(slots).contains_key(slots[i].location),
        contents(slots)[slots[i].location] == slots[i].record@,
{
    let location = slots[i].location;
    assert(slot_at(slots, i, location));
    let k = index_of(slots, location);
    assert(slot_at(slots, k, location));
    if k < i {
        assert(slots[k].location != slots[i].location);
    } else if i < k {
        assert(slots[i].location != slots[k].location);
    }
}

/// Appending a slot at a fresh location adds its record and changes no other.
proof fn lemma_push_inserts(slots: Seq<Slot>, slot: Slot)
    requires
        well_formed(slots),
        !held(slots, slot.location),
        fits_reserved_space(slot.record.name@, slot.record.symbol@),
    ensures
        well_formed(slots.push(slot)),
        contents(slots.push(slot)) == contents(slots).insert(slot.location, slot.record@),
{
    let grown = slots.push(slot);
    assert forall|i: int, j: int| 0 <= i < j < grown.len() implies (#[trigger] grown[i]).location
        != (#[trigger] grown[j]).location by {
        if j == slots.len() {
            assert(!slot_at(slots, i, slot.location));
        } else {
            assert(slots[i].location != slots[j].location);
        }
    }
    assert(well_formed(grown));
    let last = slots.len() as int;
    assert forall|a: Address| held(grown, a) <==> (a == slot.location || held(slots, a)) by {
        if held(grown, a) {
            let k = index_of(grown, a);
            assert(slot_at(grown, k, a));
            if k < last {
                assert(slot_at(slots, k, a));
            }
        }
        if a == slot.location {
            assert(slot_at(grown, last, a));
        }
        if held(slots, a) {
            let k = index_of(slots, a);
            assert(slot_at(slots, k, a));
            assert(slot_at(grown, k, a));
        }
    }
    assert forall|a: Address| held(grown, a) implies #[trigger] contents(grown)[a] == contents(
        slots,
    ).insert(slot.location, slot.record@)[a] by {
        if a == slot.location {
            lemma_slot_is_content(grown, last);
        } else {
            let k = index_of(slots, a);
            assert(slot_at(slots, k, a));
            lemma_slot_is_content(slots, k);
            lemma_slot_is_content(grown, k);
        }
    }
    assert(contents(grown) =~= contents(slots).insert(slot.location, slot.record@));
}

/// The records of all created tokens, each at its own storage location.
pub struct MetadataStore {
    slots: Vec<Slot>,
}

impl View for MetadataStore {
    type V = Map<Address, TokenInfoView>;

    /// The stored records by storage location.
    closed spec fn view(&self) -> Map<Address, TokenInfoView> {
        contents(self.slots@)
    }
}

impl MetadataStore {
    #[verifier::type_invariant]
    spec fn sound(&self) -> bool {
        well_formed(self.slots@)
    }

    /// A store that holds no record.
    pub fn new() -> (store: MetadataStore)
        ensures
            store@ == Map::<Address, TokenInfoView>::empty(),
    {
        let store = MetadataStore { slots: Vec::new() };
        assert(store@ =~= Map::<Address, TokenInfoView>::empty()) by {
            assert forall|a: Address| !held(store.slots@, a) by {
                if held(store.slots@, a) {
                    assert(slot_at(store.slots@, index_of(store.slots@, a), a));
                }
            }
        }
        store
    }

    /// The slot allocated at `location`, if there is one.
    fn find(&self, location: &Address) -> (found: Option<usize>)
        ensures
            found matches Some(i) ==> slot_at(self.slots@, i as int, *location),
            found is None ==> !held(self.slots@, *location),
    {
        let mut i: usize = 0;
        while i < self.slots.len()
            invariant
                i <= self.slots@.len(),
                forall|k: int| 0 <= k < i ==> !slot_at(self.slots@, k, *location),
            decreases self.slots@.len() - i,
        {
            if self.slots[i].location == *location {
                return Some(i);
            }
            i = i + 1;
        }
        assert(!held(self.slots@, *location)) by {
            if held(self.slots@, *location) {
                assert(slot_at(self.slots@, index_of(self.slots@, *location), *location));
            }
        }
        None
    }

    /// Tells whether a record is stored at `location`.
    pub fn contains(&self, location: &Address) -> (occupied: bool)
        ensures
            occupied == self@.contains_key(*location),
    {
        self.find(location).is_some()
    }

    /// Fetches the record that `handle` names, or `None` where nothing is stored there.
    /// A stored record fits in the space reserved for it.
    pub fn get(&self, handle: &RecordHandle) -> (found: Option<&TokenInfo>)
        ensures
            found.is_some() == self@.contains_key(handle.location),
            found matches Some(record) ==> record@ == self@[handle.location]
                && fits_reserved_space(record.name@, record.symbol@),
    {
        proof {
            use_type_invariant(self);
        }
        match self.find(&handle.location) {
            Some(i) => {
                proof {
                    lemma_slot_is_content(self.slots@, i as int);
                }
                Some(&self.slots[i].record)
            },
            None => None,
        }
    }

    /// Allocates `location` and writes a record with the five given fields there.
    ///
    /// Fails with `StorageCollision` where `location` already holds a record, and otherwise
    /// with `LengthExceeded` where the record would not fit in its reserved space. On failure
    /// the store is unchanged. On success the new record is stored whole and every other
    /// record is as it was.
    pub fn initialize(
        &mut self,
        location: Address,
        mint: Address,
        decimals: u8,
        name: String,
        symbol: String,
        authority: Address,
    ) -> (outcome: Result<RecordHandle, GatewayError>)
        ensures
            outcome == initialize_outcome(old(self)@, location, name@, symbol@),
            outcome is Ok ==> final(self)@ == old(self)@.insert(
                location,
                TokenInfoView { mint, decimals, name: name@, symbol: symbol@, authority },
            ),
            outcome is Err ==> final(self)@ == old(self)@,
    {
        proof {
            use_type_invariant(&*self);
        }
        if self.contains(&location) {
            return Err(GatewayError::StorageCollision);
        }
        if !record_fits(&name, &symbol) {
            return Err(GatewayError::LengthExceeded);
        }
        let slot = Slot { location, record: TokenInfo { mint, decimals, name, symbol, authority } };
        proof {
            lemma_push_inserts(self.slots@, slot);
        }
        let mut slots: Vec<Slot> = Vec::new();
        std::mem::swap(&mut slots, &mut self.slots);
        slots.push(slot);
        self.slots = slots;
        Ok(RecordHandle { location })
    }
}

/// What [`MetadataStore::initialize`] answers for a store that holds `records`.
pub open spec fn initialize_outcome(
    records: Map<Address, TokenInfoView>,
    location: Address,
    name: Seq<char>,
    symbol: Seq<char>,
) -> Result<RecordHandle, GatewayError> {
    if records.contains_key(location) {
        Err(GatewayError::StorageCollision)
    } else if !fits_reserved_space(name, symbol) {
        Err(GatewayError::LengthExceeded)
    } else {
        Ok(RecordHandle { location })
    }
}

} // verus!
