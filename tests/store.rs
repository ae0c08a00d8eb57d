use simple_storage::{DataKey, SimpleStorageContract, StoredData, UpdateError};

fn s(text: &str) -> String {
    String::from(text)
}

#[test]
fn test_store_and_retrieve() {
    let mut store = SimpleStorageContract::new();
    let owner = s("user1");
    let data = s("Hello Blockchain");

    store.store_data(owner.clone(), data.clone(), 0);

    let stored = store.retrieve_data(owner);
    assert_eq!(stored.data, data);
}

#[test]
fn retrieve_after_store_gives_full_record() {
    let mut store = SimpleStorageContract::new();
    store.store_data(s("alice"), s("payload"), 42);
    let r = store.retrieve_data(s("alice"));
    assert_eq!(r.owner, "alice");
    assert_eq!(r.data, "payload");
    assert_eq!(r.timestamp, 42);
    assert!(!r.is_sentinel());
}

#[test]
fn retrieve_before_store_gives_sentinel() {
    let store = SimpleStorageContract::new();
    let r = store.retrieve_data(s("nobody"));
    assert_eq!(r.owner, "NONE");
    assert_eq!(r.data, "No data found");
    assert_eq!(r.timestamp, 0);
    assert!(r.is_sentinel());
    assert_eq!(store.get_total_records(), 0);
}

#[test]
fn retrieve_other_key_gives_sentinel() {
    let mut store = SimpleStorageContract::new();
    store.store_data(s("a"), s("x"), 1);
    let r = store.retrieve_data(s("b"));
    assert!(r.is_sentinel());
    assert_eq!(r.data, "No data found");
}

#[test]
fn empty_identifier_and_payload_are_stored() {
    let mut store = SimpleStorageContract::new();
    store.store_data(s(""), s(""), 5);
    let r = store.retrieve_data(s(""));
    assert_eq!(r.owner, "");
    assert_eq!(r.data, "");
    assert_eq!(r.timestamp, 5);
    assert!(!r.is_sentinel());
}

#[test]
fn counter_counts_every_store_and_no_update() {
    let mut store = SimpleStorageContract::new();
    store.store_data(s("a"), s("1"), 1);
    assert_eq!(store.get_total_records(), 1);
    store.store_data(s("b"), s("2"), 2);
    assert_eq!(store.get_total_records(), 2);
    store.store_data(s("a"), s("3"), 3);
    assert_eq!(store.get_total_records(), 3);
    for i in 0..5u64 {
        assert!(store.update_data(s("a"), s("u"), 10 + i).is_ok());
    }
    assert!(store.update_data(s("zzz"), s("u"), 20).is_err());
    assert_eq!(store.get_total_records(), 3);
}

#[test]
fn update_missing_key_is_refused_and_changes_nothing() {
    let mut store = SimpleStorageContract::new();
    store.store_data(s("a"), s("kept"), 7);
    let res = store.update_data(s("b"), s("new"), 9);
    assert!(matches!(res, Err(UpdateError::NotFound)));
    assert_eq!(store.get_total_records(), 1);
    assert!(store.retrieve_data(s("b")).is_sentinel());
    let a = store.retrieve_data(s("a"));
    assert_eq!(a.data, "kept");
    assert_eq!(a.timestamp, 7);
}

#[test]
fn update_on_fresh_store_is_refused() {
    let mut store = SimpleStorageContract::new();
    assert!(matches!(store.update_data(s("k"), s("t"), 1), Err(UpdateError::NotFound)));
    assert_eq!(store.get_total_records(), 0);
    assert!(store.retrieve_data(s("k")).is_sentinel());
}

#[test]
fn update_after_store_replaces_record() {
    let mut store = SimpleStorageContract::new();
    store.store_data(s("k"), s("t1"), 100);
    assert!(store.update_data(s("k"), s("t2"), 200).is_ok());
    let r = store.retrieve_data(s("k"));
    assert_eq!(r.owner, "k");
    assert_eq!(r.data, "t2");
    assert_eq!(r.timestamp, 200);
    assert_eq!(store.get_total_records(), 1);
}

#[test]
fn store_twice_overwrites_and_counts_twice() {
    let mut store = SimpleStorageContract::new();
    store.store_data(s("k"), s("t1"), 1);
    store.store_data(s("k"), s("t2"), 2);
    let r = store.retrieve_data(s("k"));
    assert_eq!(r.data, "t2");
    assert_eq!(r.timestamp, 2);
    assert_eq!(store.get_total_records(), 2);
}

#[test]
fn from_parts_holds_the_given_record() {
    let rec = StoredData::new(s("k"), s("v"), 3);
    let mut store = SimpleStorageContract::from_parts(Some(rec), 9);
    assert_eq!(store.get_total_records(), 9);
    assert_eq!(store.retrieve_data(s("k")).data, "v");
    assert!(store.retrieve_data(s("other")).is_sentinel());
    store.store_data(s("k"), s("w"), 4);
    assert_eq!(store.get_total_records(), 10);
    let empty = SimpleStorageContract::from_parts(None, 0);
    assert!(empty.retrieve_data(s("k")).is_sentinel());
}

#[test]
fn data_key_names_its_identifier() {
    let key = DataKey::UserData(s("user1"));
    assert_eq!(key.identifier(), "user1");
}

#[test]
fn duplicate_copies_every_field() {
    let rec = StoredData::new(s("o"), s("d"), 11);
    let copy = rec.duplicate();
    assert_eq!(copy.owner, "o");
    assert_eq!(copy.data, "d");
    assert_eq!(copy.timestamp, 11);
}
