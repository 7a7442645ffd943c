//! A fixed-size cache of search results, indexed by position hash.

use crate::score::Score;
use crate::types::Move;
use vstd::prelude::*;

verus! {

/// Why a stored score can be trusted.
#[derive(Debug, Clone, Copy, PartialEq, Eq, Structural)]
pub enum NodeType {
    /// The whole window was searched: the score is the value of the position.
    Exact,
    /// The search failed low: the value is at most the score.
    UpperBound,
    /// The search failed high: the value is at least the score.
    LowerBound,
}

/// The result of one search of one position.
#[derive(Debug, Clone, Copy, PartialEq, Eq, Structural)]
pub struct TranspositionEntry {
    pub hash: u64,
    pub depth: i16,
    pub score: Score,
    pub node_type: NodeType,
    pub best_move: Option<Move>,
}

/// The slots of a table, each empty or with its entry.
pub type Slots = Seq<Option<TranspositionEntry>>;

/// The slot in which a table of `capacity` slots keeps the entry of `hash`.
pub open spec fn slot_of(hash: u64, capacity: nat) -> int {
    hash as int % capacity as int
}

/// What a lookup of `hash` finds in `slots`: the entry in the slot of `hash`,
/// if that entry was stored under this very hash.
pub open spec fn lookup(slots: Slots, hash: u64) -> Option<
    TranspositionEntry,
> {
    match slots[slot_of(hash, slots.len())] {
        Some(entry) => if entry.hash == hash {
            Some(entry)
        } else {
            None
        },
        None => None,
    }
}

/// The slots after `entry` was stored: it replaces whatever its slot held.
pub open spec fn stored(
    slots: Slots,
    entry: TranspositionEntry,
) -> Slots {
    if slots.len() == 0 {
        slots
    } else {
        slots.update(slot_of(entry.hash, slots.len()), Some(entry))
    }
}

/// A cache with a fixed number of slots, one entry per slot, where a new
/// entry always replaces the old one.
pub struct TranspositionTable {
    entries: Vec<Option<TranspositionEntry>>,
    size: usize,
}

impl View for TranspositionTable {
    type V = Slots;

    closed spec fn view(&self) -> Slots {
        self.entries@
    }
}

impl TranspositionTable {
    /// The table has at least one slot, and as many slots as it was made with.
    pub closed spec fn wf(&self) -> bool {
        self.size > 0 && self.entries@.len() == self.size
    }

    /// A well-formed table has at least one slot.
    pub proof fn wf_has_slots(&self)
        requires
            self.wf(),
        ensures
            self@.len() > 0,
    {
    }

    /// A table of `size` empty slots.
    pub fn new(size: usize) -> (table: TranspositionTable)
        requires
            size > 0,
        ensures
            table.wf(),
            table@.len() == size,
            forall|i: int| 0 <= i < size ==> table@[i] is None,
    {
        let mut entries: Vec<Option<TranspositionEntry>> = Vec::new();
        let mut filled: usize = 0;
        while filled < size
            invariant
                filled <= size,
                entries@.len() == filled,
                forall|i: int| 0 <= i < filled ==> entries@[i] is None,
            decreases size - filled,
        {
            entries.push(None);
            filled += 1;
        }
        TranspositionTable { entries, size }
    }

    /// The entry stored under `hash`, unless its slot is empty or holds the
    /// entry of another hash.
    pub fn get(&self, hash: u64) -> (r: Option<&TranspositionEntry>)
        requires
            self.wf(),
        ensures
            match r {
                Some(entry) => lookup(self@, hash) == Some(*entry),
                None => lookup(self@, hash) is None,
            },
    {
        let index = (hash % (self.size as u64)) as usize;
        match &self.entries[index] {
            Some(entry) => if entry.hash == hash {
                Some(entry)
            } else {
                None
            },
            None => None,
        }
    }

    /// Stores a search result in the slot of `hash`, replacing what was there.
    pub fn insert(
        &mut self,
        hash: u64,
        depth: i16,
        score: Score,
        node_type: NodeType,
        best_move: Option<Move>,
    )
        requires
            old(self).wf(),
        ensures
            final(self).wf(),
            final(self)@ == stored(
                old(self)@,
                (TranspositionEntry { hash, depth, score, node_type, best_move }),
            ),
    {
        let index = (hash % (self.size as u64)) as usize;
        self.entries.set(index, Some(TranspositionEntry { hash, depth, score, node_type, best_move }));
    }
}

/// A lookup right after a store finds the stored entry under its hash.
pub proof fn lookup_after_store(slots: Slots, entry: TranspositionEntry)
    requires
        slots.len() > 0,
    ensures
        lookup(stored(slots, entry), entry.hash) == Some(entry),
{
}

/// A lookup of a hash under which no slot holds an entry is a miss. So is
/// every lookup in a table whose slots are all empty.
pub proof fn lookup_of_absent_hash(slots: Slots, hash: u64)
    requires
        slots.len() > 0,
        forall|i: int|
            0 <= i < slots.len() ==> (#[trigger] slots[i] matches Some(entry) ==> entry.hash
                != hash),
    ensures
        lookup(slots, hash) is None,
{
}

/// After a store, a lookup of another hash that falls into the same slot is
/// a miss: the entry of one position is never handed out for another.
pub proof fn lookup_of_colliding_hash(
    slots: Slots,
    entry: TranspositionEntry,
    hash: u64,
)
    requires
        slots.len() > 0,
        hash != entry.hash,
        slot_of(hash, slots.len()) == slot_of(entry.hash, slots.len()),
    ensures
        lookup(stored(slots, entry), hash) is None,
{
}

/// A store leaves the lookups of all hashes in other slots as they were.
pub proof fn lookup_in_other_slot(
    slots: Slots,
    entry: TranspositionEntry,
    hash: u64,
)
    requires
        slots.len() > 0,
        slot_of(hash, slots.len()) != slot_of(entry.hash, slots.len()),
    ensures
        lookup(stored(slots, entry), hash) == lookup(slots, hash),
{
}

} // verus!
