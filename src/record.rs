use vstd::prelude::*;

verus! {

/// Key under which a record is stored: the identifier of its owner.
pub enum DataKey {
    UserData(String),
}

impl View for DataKey {
    type V = Seq<char>;

    open spec fn view(&self) -> Seq<char> {
        match self {
            DataKey::UserData(id) => id@,
        }
    }
}

impl DataKey {
    /// The identifier this key names.
    pub fn identifier(&self) -> (r: &String)
        ensures
            r@ == self@,
    {
        match self {
            DataKey::UserData(id) => id,
        }
    }
}

/// What a record holds, as mathematical values.
pub struct RecordView {
    pub owner: Seq<char>,
    pub payload: Seq<char>,
    pub timestamp: u64,
}

/// One stored record: its owner, its payload and the time of its last write.
pub struct StoredData {
    pub owner: String,
    pub data: String,
    pub timestamp: u64,
}

impl View for StoredData {
    type V = RecordView;

    open spec fn view(&self) -> RecordView {
        RecordView { owner: self.owner@, payload: self.data@, timestamp: self.timestamp }
    }
}

/// Owner token of the placeholder record returned when nothing is stored.
pub open spec fn none_token() -> Seq<char> {
    seq!['N', 'O', 'N', 'E']
}

/// Payload of the placeholder record returned when nothing is stored.
pub open spec fn not_found_text() -> Seq<char> {
    seq!['N', 'o', ' ', 'd', 'a', 't', 'a', ' ', 'f', 'o', 'u', 'n', 'd']
}

/// The placeholder record: owner "NONE", payload "No data found", time 0.
pub open spec fn sentinel_view() -> RecordView {
    RecordView { owner: none_token(), payload: not_found_text(), timestamp: 0 }
}

impl StoredData {
    /// A record written by `owner` with `data` at time `timestamp`.
    pub fn new(owner: String, data: String, timestamp: u64) -> (r: StoredData)
        ensures
            r@ == (RecordView { owner: owner@, payload: data@, timestamp }),
    {
        StoredData { owner, data, timestamp }
    }

    /// The placeholder record that a lookup yields for an absent key.
    pub fn sentinel() -> (r: StoredData)
        ensures
            r@ == sentinel_view(),
    {
        proof {
            reveal_strlit("NONE");
            reveal_strlit("No data found");
        }
        let owner = String::from_str("NONE");
        let data = String::from_str("No data found");
        proof {
            assert(owner@ =~= none_token());
            assert(data@ =~= not_found_text());
        }
        StoredData { owner, data, timestamp: 0 }
    }

    /// A field-by-field copy of this record.
    pub fn duplicate(&self) -> (r: StoredData)
        ensures
            r@ == self@,
    {
        StoredData { owner: self.owner.clone(), data: self.data.clone(), timestamp: self.timestamp }
    }

    /// Whether this is the placeholder record rather than a stored one.
    pub fn is_sentinel(&self) -> (r: bool)
        ensures
            r == (self@ == sentinel_view()),
    {
        let s = StoredData::sentinel();
        self.owner == s.owner && self.data == s.data && self.timestamp == 0
    }
}

} // verus!
