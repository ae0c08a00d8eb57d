use vstd::prelude::*;

use crate::record::{sentinel_view, DataKey, RecordView, StoredData};

verus! {

/// The store as mathematical values: records by identifier, and the write counter.
pub struct StoreView {
    pub records: Map<Seq<char>, RecordView>,
    pub total: u64,
}

/// The store before any write.
pub open spec fn empty_store() -> StoreView {
    StoreView { records: Map::empty(), total: 0 }
}

/// What a lookup of `k` yields: the record stored under it, or the placeholder.
pub open spec fn retrieved(s: StoreView, k: Seq<char>) -> RecordView {
    if s.records.contains_key(k) {
        s.records[k]
    } else {
        sentinel_view()
    }
}

/// The store after writing `t` under `k` at time `now`: the record is created or
/// replaced, and the counter goes up by one either way.
pub open spec fn after_store(s: StoreView, k: Seq<char>, t: Seq<char>, now: u64) -> StoreView {
    StoreView {
        records: s.records.insert(k, RecordView { owner: k, payload: t, timestamp: now }),
        total: (s.total + 1) as u64,
    }
}

/// The store after updating `k` with `t` at time `now`: an existing record is
/// replaced and the counter kept; with no record under `k` nothing changes.
pub open spec fn after_update(s: StoreView, k: Seq<char>, t: Seq<char>, now: u64) -> StoreView {
    if s.records.contains_key(k) {
        StoreView {
            records: s.records.insert(k, RecordView { owner: k, payload: t, timestamp: now }),
            total: s.total,
        }
    } else {
        s
    }
}

/// Why an update was refused.
pub enum UpdateError {
    /// No record is stored under the identifier.
    NotFound,
}

/// A keyed record store with a running count of writes.
pub struct SimpleStorageContract {
    entries: Vec<(DataKey, StoredData)>,
    total: u64,
    records: Ghost<Map<Seq<char>, RecordView>>,
}

impl View for SimpleStorageContract {
    type V = StoreView;

    closed spec fn view(&self) -> StoreView {
        StoreView { records: self.records@, total: self.total }
    }
}

impl SimpleStorageContract {
    /// Keys are unique, each record's owner is its key, and the ghost map holds
    /// exactly the entries.
    pub closed spec fn wf(&self) -> bool {
        &&& forall|i: int, j: int|
            0 <= i < j < self.entries@.len() ==> (#[trigger] self.entries@[i].0@)
                != (#[trigger] self.entries@[j].0@)
        &&& forall|i: int|
            0 <= i < self.entries@.len() ==> {
                &&& self.entries@[i].1.owner@ == #[trigger] self.entries@[i].0@
                &&& self.records@.contains_key(self.entries@[i].0@)
                &&& self.records@[self.entries@[i].0@] == self.entries@[i].1@
            }
        &&& forall|k: Seq<char>|
            #[trigger] self.records@.contains_key(k) ==> exists|i: int|
                0 <= i < self.entries@.len() && #[trigger] self.entries@[i].0@ == k
    }

    /// An empty store whose counter is 0.
    pub fn new() -> (r: SimpleStorageContract)
        ensures
            r.wf(),
            r@ == empty_store(),
    {
        SimpleStorageContract { entries: Vec::new(), total: 0, records: Ghost(Map::empty()) }
    }

    /// A store holding at most one record, under its owner, with counter `total`.
    pub fn from_parts(record: Option<StoredData>, total: u64) -> (r: SimpleStorageContract)
        ensures
            r.wf(),
            r@.total == total,
            r@.records == match record {
                Some(d) => Map::empty().insert(d.owner@, d@),
                None => Map::<Seq<char>, RecordView>::empty(),
            },
    {
        let mut entries: Vec<(DataKey, StoredData)> = Vec::new();
        let ghost mut records = Map::<Seq<char>, RecordView>::empty();
        match record {
            Some(d) => {
                let ghost dv = d@;
                entries.push((DataKey::UserData(d.owner.clone()), d));
                proof {
                    records = records.insert(dv.owner, dv);
                }
            },
            None => {},
        }
        proof {
            assert forall|k: Seq<char>| #[trigger] records.contains_key(k) implies exists|i: int|
                0 <= i < entries@.len() && #[trigger] entries@[i].0@ == k by {
                assert(entries@[0].0@ == k);
            }
        }
        let r = SimpleStorageContract { entries, total, records: Ghost(records) };
        assert(r.records@ == records);
        assert(r.entries@ == entries@);
        r
    }

    /// Position of the entry stored under `owner`, if any.
    fn find(&self, owner: &String) -> (r: Option<usize>)
        requires
            self.wf(),
        ensures
            match r {
                Some(i) => i < self.entries@.len() && self.entries@[i as int].0@ == owner@,
                None => !self@.records.contains_key(owner@),
            },
    {
        let mut i: usize = 0;
        while i < self.entries.len()
            invariant
                self.wf(),
                i <= self.entries@.len(),
                forall|j: int| 0 <= j < i ==> self.entries@[j].0@ != owner@,
            decreases self.entries@.len() - i,
        {
            let id = self.entries[i].0.identifier();
            if id.eq(owner) {
                return Some(i);
            }
            i = i + 1;
        }
        None
    }

    /// Writes `data` under `owner` at time `now`, creating or replacing the record,
    /// and counts the write.
    pub fn store_data(&mut self, owner: String, data: String, now: u64)
        requires
            old(self).wf(),
            old(self)@.total < u64::MAX,
        ensures
            final(self).wf(),
            final(self)@ == after_store(old(self)@, owner@, data@, now),
    {
        let ghost k = owner@;
        let record = StoredData::new(owner.clone(), data, now);
        let ghost rv = record@;
        let ghost mut pos: int = 0;
        match self.find(&owner) {
            Some(i) => {
                self.entries.set(i, (DataKey::UserData(owner), record));
                proof {
                    pos = i as int;
                }
            },
            None => {
                self.entries.push((DataKey::UserData(owner), record));
                proof {
                    pos = self.entries@.len() - 1;
                }
            },
        }
        self.records = Ghost(self.records@.insert(k, rv));
        self.total = self.total + 1;
        proof {
            assert forall|k2: Seq<char>| #[trigger] self.records@.contains_key(k2) implies exists|
                i: int,
            |
                0 <= i < self.entries@.len() && #[trigger] self.entries@[i].0@ == k2 by {
                if k2 != k {
                    let i = choose|i: int|
                        0 <= i < old(self).entries@.len() && #[trigger] old(self).entries@[i].0@
                            == k2;
                    assert(self.entries@[i].0@ == k2);
                } else {
                    assert(self.entries@[pos].0@ == k2);
                }
            }
        }
    }

    /// The record stored under `owner`, or the placeholder record when there is none.
    pub fn retrieve_data(&self, owner: String) -> (r: StoredData)
        requires
            self.wf(),
        ensures
            r@ == retrieved(self@, owner@),
    {
        match self.find(&owner) {
            Some(i) => self.entries[i].1.duplicate(),
            None => StoredData::sentinel(),
        }
    }

    /// Replaces the record under `owner` with `new_data` at time `now`, keeping the
    /// counter; refused, with nothing changed, when no record is stored there.
    pub fn update_data(&mut self, owner: String, new_data: String, now: u64) -> (r: Result<
        (),
        UpdateError,
    >)
        requires
            old(self).wf(),
        ensures
            final(self).wf(),
            r is Ok <==> old(self)@.records.contains_key(owner@),
            final(self)@ == after_update(old(self)@, owner@, new_data@, now),
    {
        match self.find(&owner) {
            Some(i) => {
                let ghost k = owner@;
                let record = StoredData::new(owner.clone(), new_data, now);
                let ghost rv = record@;
                self.entries.set(i, (DataKey::UserData(owner), record));
                self.records = Ghost(self.records@.insert(k, rv));
                proof {
                    assert forall|k2: Seq<char>| #[trigger] self.records@.contains_key(k2) implies exists|
                        j: int,
                    |
                        0 <= j < self.entries@.len() && #[trigger] self.entries@[j].0@ == k2 by {
                        let j = choose|j: int|
                            0 <= j < old(self).entries@.len() && #[trigger] old(self).entries@[j].0@
                                == k2;
                        assert(self.entries@[j].0@ == k2);
                    }
                }
                Ok(())
            },
            None => Err(UpdateError::NotFound),
        }
    }

    /// The number of writes made by `store_data` so far.
    pub fn get_total_records(&self) -> (r: u64)
        ensures
            r == self@.total,
    {
        self.total
    }
}


/// Every record of a well-formed store has the identifier it is stored under as owner.
pub proof fn lemma_owner_is_key(c: &SimpleStorageContract)
    requires
        c.wf(),
    ensures
        forall|k: Seq<char>| #[trigger] c@.records.contains_key(k) ==> c@.records[k].owner == k,
{
    assert forall|k: Seq<char>| #[trigger] c@.records.contains_key(k) implies c@.records[k].owner == k by {
        let i = choose|i: int| 0 <= i < c.entries@.len() && #[trigger] c.entries@[i].0@ == k;
        assert(c.entries@[i].1.owner@ == c.entries@[i].0@);
    }
}

} // verus!
