//! The pending-call table: which reply handle waits under which call
//! identifier.
use vstd::prelude::*;
use crate::index::{index_entries, index_insert, index_new, index_remove};

verus! {

/// The calls that have been registered and not yet answered.
///
/// Seen from outside the table is a map from call identifier to reply handle
/// (its view). Inside, the identifier index maps each identifier to the number
/// of the slot that holds its reply handle, and a list names the slots that
/// are free for reuse.
#[derive(Debug)]
pub struct PendingCalls<Reply> {
    index: scc::HashMap<u128, usize>,
    slots: Vec<Option<Reply>>,
    vacant: Vec<usize>,
}

/// Every occupied slot belongs to an identifier.
spec fn occupied_are_indexed<Reply>(entries: Map<u128, usize>, slots: Seq<Option<Reply>>) -> bool {
    forall|slot: int|
        0 <= slot < slots.len() && (#[trigger] slots[slot]) is Some ==> exists|id: u128|
            #[trigger] entries.contains_key(id) && entries[id] == slot
}

/// Every empty slot is on the vacant list.
spec fn empty_are_vacant<Reply>(slots: Seq<Option<Reply>>, vacant: Seq<usize>) -> bool {
    forall|slot: int|
        0 <= slot < slots.len() && (#[trigger] slots[slot]) is None ==> exists|i: int|
            0 <= i < vacant.len() && #[trigger] vacant[i] == slot
}

impl<Reply> View for PendingCalls<Reply> {
    type V = Map<u128, Reply>;

    closed spec fn view(&self) -> Map<u128, Reply> {
        Map::new(
            |id: u128| index_entries(self.index).contains_key(id),
            |id: u128| self.slots@[index_entries(self.index)[id] as int].unwrap(),
        )
    }
}

impl<Reply> PendingCalls<Reply> {
    /// Every indexed identifier owns an occupied slot, no two identifiers
    /// share a slot, and the vacant list names empty slots, each once. No slot
    /// is lost: an occupied one belongs to an identifier, an empty one is on
    /// the vacant list.
    pub closed spec fn wf(self) -> bool {
        let entries = index_entries(self.index);
        let slots = self.slots@;
        let vacant = self.vacant@;
        &&& forall|id: u128| #[trigger]
            entries.contains_key(id) ==> entries[id] < slots.len() && slots[entries[id] as int] is Some
        &&& forall|a: u128, b: u128|
            #[trigger] entries.contains_key(a) && #[trigger] entries.contains_key(b) && a != b
                ==> entries[a] != entries[b]
        &&& forall|i: int|
            0 <= i < vacant.len() ==> (#[trigger] vacant[i]) < slots.len()
                && slots[vacant[i] as int] is None
        &&& forall|i: int, j: int|
            0 <= i < j < vacant.len() ==> #[trigger] vacant[i] != #[trigger] vacant[j]
        &&& occupied_are_indexed(entries, slots)
        &&& empty_are_vacant(slots, vacant)
    }

    /// A table in which no call is pending.
    pub fn new() -> (table: Self)
        ensures
            table.wf(),
            table@ == (Map::<u128, Reply>::empty()),
    {
        let table = PendingCalls { index: index_new(), slots: Vec::new(), vacant: Vec::new() };
        assert(table@ =~= Map::<u128, Reply>::empty());
        table
    }

    /// Records `reply` as waiting under `id`, unless a call is already
    /// pending under `id`: then the table stays as it was and `reply` comes
    /// back as the error.
    pub fn insert(&mut self, id: u128, reply: Reply) -> (result: Result<(), Reply>)
        requires
            old(self).wf(),
        ensures
            final(self).wf(),
            result == (if old(self)@.contains_key(id) {
                Err(reply)
            } else {
                Ok(())
            }),
            final(self)@ == (if old(self)@.contains_key(id) {
                old(self)@
            } else {
                old(self)@.insert(id, reply)
            }),
    {
        let reuse = self.vacant.len() > 0;
        let slot: usize = if reuse {
            self.vacant[self.vacant.len() - 1]
        } else {
            self.slots.len()
        };
        if index_insert(&mut self.index, id, slot) {
            if reuse {
                self.vacant.pop();
                self.slots[slot] = Some(reply);
            } else {
                self.slots.push(Some(reply));
            }
            proof {
                let before = index_entries(old(self).index);
                let after = index_entries(self.index);
                assert(after.contains_key(id) && after[id] == slot);
                assert forall|s: int|
                    0 <= s < self.slots@.len() && (#[trigger] self.slots@[s]) is Some implies exists|
                    k: u128,
                | #[trigger] after.contains_key(k) && after[k] == s by {
                    if s != slot {
                        assert(old(self).slots@[s] is Some);
                        let k = choose|k: u128| #[trigger] before.contains_key(k) && before[k] == s;
                        assert(after.contains_key(k) && after[k] == s);
                    }
                }
                assert forall|s: int|
                    0 <= s < self.slots@.len() && (#[trigger] self.slots@[s]) is None implies exists|
                    i: int,
                | 0 <= i < self.vacant@.len() && #[trigger] self.vacant@[i] == s by {
                    assert(old(self).slots@[s] is None);
                    let i = choose|i: int|
                        0 <= i < old(self).vacant@.len() && #[trigger] old(self).vacant@[i] == s;
                    assert(self.vacant@[i] == s);
                }
                assert(self@ =~= old(self)@.insert(id, reply));
            }
            Ok(())
        } else {
            assert(self@ =~= old(self)@);
            Err(reply)
        }
    }

    /// Takes the call pending under `id` out of the table and returns its
    /// reply handle; returns `None`, and changes nothing, if no call is
    /// pending under `id`.
    pub fn remove_and_take(&mut self, id: u128) -> (taken: Option<Reply>)
        requires
            old(self).wf(),
        ensures
            final(self).wf(),
            taken == (if old(self)@.contains_key(id) {
                Some(old(self)@[id])
            } else {
                None
            }),
            final(self)@ == old(self)@.remove(id),
    {
        let found = index_remove(&mut self.index, id);
        proof {
            // Whatever was removed, the occupied slots of the others are still theirs.
            let before = index_entries(old(self).index);
            let after = index_entries(self.index);
            assert forall|s: int|
                0 <= s < self.slots@.len() && (#[trigger] self.slots@[s]) is Some && found != Some(
                    s as usize,
                ) implies exists|k: u128| #[trigger] after.contains_key(k) && after[k] == s by {
                let k = choose|k: u128| #[trigger] before.contains_key(k) && before[k] == s;
                assert(after.contains_key(k) && after[k] == s);
            }
        }
        match found {
            Some(slot) => {
                let taken = self.slots[slot].take();
                self.vacant.push(slot);
                proof {
                    assert forall|s: int|
                        0 <= s < self.slots@.len() && (#[trigger] self.slots@[s]) is None implies exists|
                        i: int,
                    | 0 <= i < self.vacant@.len() && #[trigger] self.vacant@[i] == s by {
                        if s == slot {
                            assert(self.vacant@[self.vacant@.len() - 1] == s);
                        } else {
                            assert(old(self).slots@[s] is None);
                            let i = choose|i: int|
                                0 <= i < old(self).vacant@.len() && #[trigger] old(self).vacant@[i]
                                    == s;
                            assert(self.vacant@[i] == s);
                        }
                    }
                    assert(self@ =~= old(self)@.remove(id));
                }
                taken
            },
            None => {
                assert(self@ =~= old(self)@.remove(id));
                None
            },
        }
    }
}

} // verus!
