//! The store, as far as the library is concerned.
//!
//! The store itself is a table on disk and is read and written outside this
//! library. Here stands what the library relies on: a store holds at most one
//! result for a fingerprint, answers a lookup with the result it holds or
//! with the empty text, and takes a result only under a key that is free.

use vstd::prelude::*;

verus! {

/// What a store holds: at most one result for a fingerprint.
pub type Store = Map<Seq<char>, Seq<char>>;

/// The text of an optional string.
pub open spec fn text_of(text: Option<String>) -> Option<Seq<char>> {
    match text {
        Some(t) => Some(t@),
        None => None,
    }
}

/// The row that a store holds under `key`, if it holds one.
pub open spec fn row(store: Store, key: Seq<char>) -> Option<Seq<char>> {
    if store.contains_key(key) {
        Some(store[key])
    } else {
        None
    }
}

/// The result that a row stands for: its text, or the empty text where
/// there is no row.
pub open spec fn result_of(row: Option<Seq<char>>) -> Seq<char> {
    match row {
        Some(result) => result,
        None => Seq::<char>::empty(),
    }
}

/// The answer of a store to a lookup: the result under `key`, or the empty
/// text where there is none.
pub open spec fn lookup(store: Store, key: Seq<char>) -> Seq<char> {
    result_of(row(store, key))
}

/// The store after `value` was offered under `key`: it is taken where the key
/// was free, and dropped where the key already had a result.
pub open spec fn record(store: Store, key: Seq<char>, value: Seq<char>) -> Store {
    if store.contains_key(key) {
        store
    } else {
        store.insert(key, value)
    }
}

/// Whether `later` holds everything that `earlier` holds, unchanged.
pub open spec fn keeps(earlier: Store, later: Store) -> bool {
    forall|key: Seq<char>| #[trigger]
        earlier.contains_key(key) ==> later.contains_key(key) && later[key] == earlier[key]
}

/// The result of a lookup, given the row that was read from the store:
/// `None` where the store has no row under the key, or could not be read.
pub fn get_result(row: Option<String>) -> (result: String)
    ensures
        result@ == result_of(text_of(row)),
{
    match row {
        Some(result) => result,
        None => String::new(),
    }
}

/// The first result stored under a key is the one that stays: a second
/// result offered under the same key changes nothing, and a lookup still
/// gives the first.
pub proof fn first_result_wins(store: Store, key: Seq<char>, first: Seq<char>, second: Seq<char>)
    ensures
        store.contains_key(key) ==> lookup(record(store, key, second), key) == lookup(store, key),
        !store.contains_key(key) ==> lookup(record(store, key, first), key) == first,
        record(record(store, key, first), key, second) == record(store, key, first),
        keeps(store, record(store, key, second)),
{
}

} // verus!
