use vstd::prelude::*;

use crate::record::{sentinel_view, RecordView};
use crate::store::{after_store, after_update, empty_store, retrieved, StoreView};

verus! {

/// The store after a run of updates, each an identifier, a payload and a time,
/// applied in order.
pub open spec fn after_updates(s: StoreView, ups: Seq<(Seq<char>, Seq<char>, u64)>) -> StoreView
    decreases ups.len(),
{
    if ups.len() == 0 {
        s
    } else {
        let u = ups.last();
        after_update(after_updates(s, ups.drop_last()), u.0, u.1, u.2)
    }
}

/// Reading an identifier right after writing a text under it gives back that text,
/// with the identifier as owner and the time of the write.
pub proof fn lemma_retrieve_after_store(s: StoreView, k: Seq<char>, t: Seq<char>, now: u64)
    ensures
        retrieved(after_store(s, k, t, now), k).payload == t,
        retrieved(after_store(s, k, t, now), k) == (RecordView { owner: k, payload: t, timestamp: now }),
{
}

/// Before any write, reading any identifier gives the placeholder record.
pub proof fn lemma_retrieve_before_store(k: Seq<char>)
    ensures
        retrieved(empty_store(), k) == sentinel_view(),
{
}

/// Every write adds exactly one to the counter, whether or not the identifier was
/// already stored.
pub proof fn lemma_store_counts_once(s: StoreView, k: Seq<char>, t: Seq<char>, now: u64)
    requires
        s.total < u64::MAX,
    ensures
        after_store(s, k, t, now).total == s.total + 1,
{
}

/// Any number of updates, successful or refused, leave the counter as it was.
pub proof fn lemma_updates_keep_total(s: StoreView, ups: Seq<(Seq<char>, Seq<char>, u64)>)
    ensures
        after_updates(s, ups).total == s.total,
    decreases ups.len(),
{
    if ups.len() > 0 {
        lemma_updates_keep_total(s, ups.drop_last());
    }
}

/// An update of an identifier with no record is refused and changes neither the
/// records nor the counter.
pub proof fn lemma_update_absent_unchanged(s: StoreView, k: Seq<char>, t: Seq<char>, now: u64)
    requires
        !s.records.contains_key(k),
    ensures
        after_update(s, k, t, now) == s,
{
}

/// An update after a write replaces the record with the new text and the time of the
/// update, and leaves the counter where the write put it.
pub proof fn lemma_update_after_store(
    s: StoreView,
    k: Seq<char>,
    t1: Seq<char>,
    n1: u64,
    t2: Seq<char>,
    n2: u64,
)
    ensures
        retrieved(after_update(after_store(s, k, t1, n1), k, t2, n2), k) == (RecordView {
            owner: k,
            payload: t2,
            timestamp: n2,
        }),
        after_update(after_store(s, k, t1, n1), k, t2, n2).total == after_store(s, k, t1, n1).total,
{
}

/// Two writes under one identifier leave a single record holding the second text,
/// and count twice.
pub proof fn lemma_store_twice(
    s: StoreView,
    k: Seq<char>,
    t1: Seq<char>,
    n1: u64,
    t2: Seq<char>,
    n2: u64,
)
    requires
        s.total + 1 < u64::MAX,
    ensures
        after_store(after_store(s, k, t1, n1), k, t2, n2).total == s.total + 2,
        after_store(after_store(s, k, t1, n1), k, t2, n2).records == s.records.insert(
            k,
            RecordView { owner: k, payload: t2, timestamp: n2 },
        ),
        retrieved(after_store(after_store(s, k, t1, n1), k, t2, n2), k).payload == t2,
{
    assert(after_store(after_store(s, k, t1, n1), k, t2, n2).records =~= s.records.insert(
        k,
        RecordView { owner: k, payload: t2, timestamp: n2 },
    ));
}

} // verus!
