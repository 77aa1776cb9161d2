//! A table of values keyed by address, with no address held twice.

use vstd::prelude::*;
use crate::address::Address;

verus! {

/// One row of a table: an address and the value stored at it.
pub struct Entry<T> {
    pub address: Address,
    pub value: T,
}

/// Values keyed by address. Its view is the map from an address's bytes to
/// the value stored there.
pub struct Table<T> {
    entries: Vec<Entry<T>>,
}

impl<T> View for Table<T> {
    type V = Map<Seq<u8>, T>;

    closed spec fn view(&self) -> Map<Seq<u8>, T> {
        Map::new(
            |key: Seq<u8>| holds(self.entries@, key),
            |key: Seq<u8>| self.entries@[slot(self.entries@, key)].value,
        )
    }
}

/// Whether some row has the key as its address.
spec fn holds<T>(rows: Seq<Entry<T>>, key: Seq<u8>) -> bool {
    exists|i: int| 0 <= i < rows.len() && (#[trigger] rows[i]).address@ == key
}

/// The index of a row that has the key as its address.
spec fn slot<T>(rows: Seq<Entry<T>>, key: Seq<u8>) -> int {
    choose|i: int| 0 <= i < rows.len() && (#[trigger] rows[i]).address@ == key
}

/// No two rows have the same address.
spec fn distinct<T>(rows: Seq<Entry<T>>) -> bool {
    forall|i: int, j: int|
        0 <= i < rows.len() && 0 <= j < rows.len() && i != j ==> (#[trigger] rows[i]).address@ != (
        #[trigger] rows[j]).address@
}

/// In rows without a repeated address, the row at `i` is the one that its
/// address looks up.
proof fn lemma_slot<T>(rows: Seq<Entry<T>>, i: int)
    requires
        distinct(rows),
        0 <= i < rows.len(),
    ensures
        holds(rows, rows[i].address@),
        slot(rows, rows[i].address@) == i,
{
    let key = rows[i].address@;
    let j = slot(rows, key);
    assert(0 <= j < rows.len() && rows[j].address@ == key);
}

impl<T> Table<T> {
    /// The table's invariant: no address occurs in two rows.
    pub closed spec fn wf(&self) -> bool {
        distinct(self.entries@)
    }

    pub fn new() -> (table: Table<T>)
        ensures
            table.wf(),
            table@ == Map::<Seq<u8>, T>::empty(),
    {
        let table = Table { entries: Vec::new() };
        assert(table@ =~= Map::<Seq<u8>, T>::empty());
        table
    }

    /// The index of the row that holds `address`, if there is one.
    fn position(&self, address: &Address) -> (found: Option<usize>)
        ensures
            (match found {
                Some(i) => i < self.entries@.len() && self.entries@[i as int].address@ == address@,
                None => !holds(self.entries@, address@),
            }),
    {
        let mut i: usize = 0;
        while i < self.entries.len()
            invariant
                i <= self.entries@.len(),
                forall|j: int| 0 <= j < i ==> (#[trigger] self.entries@[j]).address@ != address@,
            decreases self.entries@.len() - i,
        {
            if self.entries[i].address.same(address) {
                return Some(i);
            }
            i += 1;
        }
        None
    }

    /// Whether a value is stored at `address`.
    pub fn contains(&self, address: &Address) -> (present: bool)
        ensures
            present == self@.contains_key(address@),
    {
        self.position(address).is_some()
    }

    /// The value stored at `address`.
    pub fn get(&self, address: &Address) -> (found: Option<&T>)
        requires
            self.wf(),
        ensures
            (match found {
                Some(value) => self@.contains_key(address@) && *value == self@[address@],
                None => !self@.contains_key(address@),
            }),
    {
        match self.position(address) {
            Some(i) => {
                proof {
                    lemma_slot(self.entries@, i as int);
                }
                Some(&self.entries[i].value)
            },
            None => None,
        }
    }

    /// Stores `value` at `address`, in place of what was stored there.
    pub fn put(&mut self, address: Address, value: T)
        requires
            old(self).wf(),
        ensures
            final(self).wf(),
            final(self)@ == old(self)@.insert(address@, value),
    {
        let ghost before = self.entries@;
        match self.position(&address) {
            Some(i) => {
                self.entries[i] = Entry { address, value };
                let ghost after = self.entries@;
                assert(after == before.update(i as int, Entry { address, value }));
                assert(distinct(after)) by {
                    assert forall|a: int, b: int|
                        0 <= a < after.len() && 0 <= b < after.len() && a != b implies (
                    #[trigger] after[a]).address@ != (#[trigger] after[b]).address@ by {
                        assert(after[a].address@ == before[a].address@);
                        assert(after[b].address@ == before[b].address@);
                    }
                }
                assert forall|key: Seq<u8>| holds(after, key) == (key == address@ || holds(before, key)) by {
                    if holds(after, key) {
                        let j = slot(after, key);
                        assert(before[j].address@ == key);
                    }
                    if holds(before, key) {
                        let j = slot(before, key);
                        assert(after[j].address@ == key);
                    }
                    if key == address@ {
                        assert(after[i as int].address@ == key);
                    }
                }
                assert forall|key: Seq<u8>| holds(after, key) implies after[slot(after, key)].value == (
                if key == address@ {
                    value
                } else {
                    before[slot(before, key)].value
                }) by {
                    let j = slot(after, key);
                    lemma_slot(after, j);
                    assert(before[j].address@ == key);
                    lemma_slot(before, j);
                }
                assert(self@ =~= old(self)@.insert(address@, value));
            },
            None => {
                self.entries.push(Entry { address, value });
                let ghost after = self.entries@;
                assert(after == before.push(Entry { address, value }));
                assert(distinct(after)) by {
                    assert forall|a: int, b: int|
                        0 <= a < after.len() && 0 <= b < after.len() && a != b implies (
                    #[trigger] after[a]).address@ != (#[trigger] after[b]).address@ by {
                        if a < before.len() {
                            assert(after[a] == before[a]);
                        }
                        if b < before.len() {
                            assert(after[b] == before[b]);
                        }
                    }
                }
                assert forall|key: Seq<u8>| holds(after, key) == (key == address@ || holds(before, key)) by {
                    if holds(after, key) {
                        let j = slot(after, key);
                        if j < before.len() {
                            assert(before[j].address@ == key);
                        }
                    }
                    if holds(before, key) {
                        let j = slot(before, key);
                        assert(after[j].address@ == key);
                    }
                    if key == address@ {
                        assert(after[before.len() as int].address@ == key);
                    }
                }
                assert forall|key: Seq<u8>| holds(after, key) implies after[slot(after, key)].value == (
                if key == address@ {
                    value
                } else {
                    before[slot(before, key)].value
                }) by {
                    let j = slot(after, key);
                    lemma_slot(after, j);
                    if j < before.len() {
                        assert(before[j] == after[j]);
                        lemma_slot(before, j);
                    }
                }
                assert(self@ =~= old(self)@.insert(address@, value));
            },
        }
    }

    /// Takes out the value stored at `address`.
    pub fn remove(&mut self, address: &Address) -> (removed: Option<T>)
        requires
            old(self).wf(),
        ensures
            final(self).wf(),
            final(self)@ == old(self)@.remove(address@),
            (match removed {
                Some(value) => old(self)@.contains_key(address@) && value == old(self)@[address@],
                None => !old(self)@.contains_key(address@),
            }),
    {
        let ghost before = self.entries@;
        match self.position(address) {
            Some(i) => {
                proof {
                    lemma_slot(before, i as int);
                }
                let entry = self.entries.remove(i);
                let ghost after = self.entries@;
                assert(after == before.remove(i as int));
                assert(distinct(after)) by {
                    assert forall|a: int, b: int|
                        0 <= a < after.len() && 0 <= b < after.len() && a != b implies (
                    #[trigger] after[a]).address@ != (#[trigger] after[b]).address@ by {
                        let a0 = if a < i { a } else { a + 1 };
                        let b0 = if b < i { b } else { b + 1 };
                        assert(after[a] == before[a0]);
                        assert(after[b] == before[b0]);
                    }
                }
                assert forall|key: Seq<u8>| holds(after, key) == (key != address@ && holds(before, key)) by {
                    if holds(after, key) {
                        let j = slot(after, key);
                        let j0 = if j < i { j } else { j + 1 };
                        assert(after[j] == before[j0]);
                        assert(before[j0].address@ == key);
                    }
                    if key != address@ && holds(before, key) {
                        let j0 = slot(before, key);
                        let j = if j0 < i { j0 } else { j0 - 1 };
                        assert(after[j] == before[j0]);
                    }
                }
                assert forall|key: Seq<u8>| holds(after, key) implies after[slot(after, key)].value
                    == before[slot(before, key)].value by {
                    let j = slot(after, key);
                    let j0 = if j < i { j } else { j + 1 };
                    assert(after[j] == before[j0]);
                    lemma_slot(before, j0);
                }
                assert(self@ =~= old(self)@.remove(address@));
                Some(entry.value)
            },
            None => {
                assert(self@ =~= old(self)@.remove(address@));
                None
            },
        }
    }
}

} // verus!
