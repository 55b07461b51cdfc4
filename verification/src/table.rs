//! Association tables with one key and with two keys.
//!
//! A table is a pair whose head is a marker and whose tail is a list of
//! records. A record is a pair of a key and what is stored under it; in a
//! table with two keys that is again a list of records.
use vstd::prelude::*;
use crate::list::{cons, text_datum, Datum, List};

verus! {

/// The first record of `records` whose key is `key`.
pub open spec fn record_of(key: Datum, records: Datum) -> Option<Datum>
    decreases records,
{
    match records {
        Datum::Cons(rec, rest) => if *rec is Cons && rec.head() == key {
            Some(*rec)
        } else {
            record_of(key, *rest)
        },
        _ => None,
    }
}

/// `records` with the first record under `key` replaced by one that holds
/// `value`.
pub open spec fn replaced(key: Datum, value: Datum, records: Datum) -> Datum
    decreases records,
{
    match records {
        Datum::Cons(rec, rest) => if *rec is Cons && rec.head() == key {
            cons(cons(key, value), *rest)
        } else {
            cons(*rec, replaced(key, value, *rest))
        },
        _ => records,
    }
}

/// `records` after storing `value` under `key`: an existing record is
/// overwritten in its place, a new one goes to the front.
pub open spec fn stored(key: Datum, value: Datum, records: Datum) -> Datum {
    if record_of(key, records) is Some {
        replaced(key, value, records)
    } else {
        cons(cons(key, value), records)
    }
}

/// What the records hold under `key`.
pub open spec fn found(key: Datum, records: Datum) -> Option<Datum> {
    match record_of(key, records) {
        Some(rec) => Some(rec.tail()),
        None => None,
    }
}

/// What a table with two keys holds under `key1` and `key2`.
pub open spec fn found_2d(key1: Datum, key2: Datum, records: Datum) -> Option<Datum> {
    match found(key1, records) {
        Some(sub) => found(key2, sub),
        None => None,
    }
}

/// The records of a table with two keys after storing `value` under `key1`
/// and `key2`.
pub open spec fn stored_2d(key1: Datum, key2: Datum, value: Datum, records: Datum) -> Datum {
    match found(key1, records) {
        Some(sub) => replaced(key1, stored(key2, value, sub), records),
        None => cons(cons(key1, cons(cons(key2, value), Datum::Nil)), records),
    }
}

/// The marker at the head of every table.
pub open spec fn table_marker() -> Datum {
    text_datum("*table*"@)
}

/// A record found under a key is a pair that starts with the key.
pub proof fn lemma_record_shape(key: Datum, records: Datum)
    ensures
        record_of(key, records) matches Some(rec) ==> rec is Cons && rec.head() == key,
    decreases records,
{
    match records {
        Datum::Cons(_, rest) => lemma_record_shape(key, *rest),
        _ => {},
    }
}

/// After `value` is stored under `key`, it is what is found under `key`,
/// and what is found under any other key is unchanged.
pub proof fn lemma_found_after_stored(key: Datum, value: Datum, records: Datum, other: Datum)
    ensures
        found(other, stored(key, value, records)) == if other == key {
            Some(value)
        } else {
            found(other, records)
        },
{
    if record_of(key, records) is Some {
        lemma_record_after_replaced(key, value, records, other);
    }
}

proof fn lemma_record_after_replaced(key: Datum, value: Datum, records: Datum, other: Datum)
    requires
        record_of(key, records) is Some,
    ensures
        record_of(other, replaced(key, value, records)) == if other == key {
            Some(cons(key, value))
        } else {
            record_of(other, records)
        },
    decreases records,
{
    match records {
        Datum::Cons(rec, rest) => {
            if *rec is Cons && rec.head() == key {
            } else {
                lemma_record_after_replaced(key, value, *rest, other);
            }
        },
        _ => {},
    }
}

/// Storing under a key what is found there changes nothing.
pub proof fn lemma_stored_again(key: Datum, value: Datum, records: Datum)
    requires
        found(key, records) == Some(value),
    ensures
        stored(key, value, records) == records,
{
    lemma_replaced_same(key, value, records);
}

proof fn lemma_replaced_same(key: Datum, value: Datum, records: Datum)
    requires
        found(key, records) == Some(value),
    ensures
        replaced(key, value, records) == records,
    decreases records,
{
    match records {
        Datum::Cons(rec, rest) => {
            if *rec is Cons && rec.head() == key {
            } else {
                lemma_replaced_same(key, value, *rest);
            }
        },
        _ => {},
    }
}

/// Storing under two keys what is found there changes nothing.
pub proof fn lemma_stored_again_2d(key1: Datum, key2: Datum, value: Datum, records: Datum)
    requires
        found_2d(key1, key2, records) == Some(value),
    ensures
        stored_2d(key1, key2, value, records) == records,
{
    let sub = found(key1, records).unwrap();
    lemma_stored_again(key2, value, sub);
    lemma_replaced_same(key1, sub, records);
}

/// After `value` is stored under two keys, it is what is found under them,
/// and what is found under any other two keys is unchanged.
pub proof fn lemma_found_after_stored_2d(
    key1: Datum,
    key2: Datum,
    value: Datum,
    records: Datum,
    other1: Datum,
    other2: Datum,
)
    ensures
        found_2d(other1, other2, stored_2d(key1, key2, value, records)) == if other1 == key1
            && other2 == key2 {
            Some(value)
        } else {
            found_2d(other1, other2, records)
        },
{
    match found(key1, records) {
        Some(sub) => {
            lemma_record_after_replaced(key1, stored(key2, value, sub), records, other1);
            lemma_found_after_stored(key2, value, sub, other2);
        },
        None => {
            let first = cons(key1, cons(cons(key2, value), Datum::Nil));
            let after = cons(first, records);
            assert(record_of(other1, after) == if other1 == key1 {
                Some(first)
            } else {
                record_of(other1, records)
            });
            if other1 == key1 {
                let sub = cons(cons(key2, value), Datum::Nil);
                assert(record_of(other2, sub) == if other2 == key2 {
                    Some(cons(key2, value))
                } else {
                    record_of(other2, Datum::Nil)
                });
            }
        },
    }
}

/// The first record whose key is `key`.
pub fn assoc<'a>(key: &List, records: &'a List) -> (r: Option<&'a List>)
    ensures
        r is Some == record_of(key@, records@) is Some,
        r matches Some(rec) ==> Some(rec@) == record_of(key@, records@) && rec@ is Cons
            && rec@.head() == key@,
    decreases records,
{
    proof {
        lemma_record_shape(key@, records@);
    }
    match records {
        List::Cons(rec, rest) => {
            if rec.is_pair() && rec.head().equals(key) {
                Some(&**rec)
            } else {
                assoc(key, &**rest)
            }
        },
        _ => None,
    }
}

fn replace_record(key: &List, value: List, records: List) -> (r: List)
    ensures
        r@ == replaced(key@, value@, records@),
    decreases records,
{
    match records {
        List::Cons(rec, rest) => {
            if rec.is_pair() && rec.head().equals(key) {
                List::Cons(Box::new(List::pair(key.clone(), value)), rest)
            } else {
                List::Cons(rec, Box::new(replace_record(key, value, *rest)))
            }
        },
        other => other,
    }
}

fn store_record(key: &List, value: List, records: List) -> (r: List)
    ensures
        r@ == stored(key@, value@, records@),
{
    if assoc(key, &records).is_some() {
        replace_record(key, value, records)
    } else {
        List::pair(List::pair(key.clone(), value), records)
    }
}

fn store_record_2d(key1: &List, key2: &List, value: List, records: List) -> (r: List)
    ensures
        r@ == stored_2d(key1@, key2@, value@, records@),
{
    let sub = match assoc(key1, &records) {
        Some(rec) => Some(rec.tail().clone()),
        None => None,
    };
    match sub {
        Some(sub) => {
            let sub = store_record(key2, value, sub);
            replace_record(key1, sub, records)
        },
        None => List::pair(
            List::pair(key1.clone(), List::pair(List::pair(key2.clone(), value), List::Nil)),
            records,
        ),
    }
}

/// What the table holds under `key`.
pub fn lookup<'a>(key: &List, table: &'a List) -> (r: Option<&'a List>)
    requires
        table@ is Cons,
    ensures
        r is Some == found(key@, table@.tail()) is Some,
        r matches Some(value) ==> Some(value@) == found(key@, table@.tail()),
{
    match assoc(key, table.tail()) {
        Some(rec) => Some(rec.tail()),
        None => None,
    }
}

/// Stores `value` under `key`, over what was there.
pub fn insert(key: &List, value: List, table: &mut List) -> (r: Option<List>)
    requires
        old(table)@ is Cons,
    ensures
        final(table)@ == cons(
            old(table)@.head(),
            stored(key@, value@, old(table)@.tail()),
        ),
        r matches Some(ok) && ok@ == text_datum("ok"@),
{
    let mut taken = List::Nil;
    core::mem::swap(table, &mut taken);
    match taken {
        List::Cons(marker, records) => {
            *table = List::Cons(marker, Box::new(store_record(key, value, *records)));
        },
        other => {
            *table = other;
        },
    }
    Some(List::text("ok"))
}

/// An empty table.
pub fn make_table() -> (r: List)
    ensures
        r@ == cons(table_marker(), Datum::Nil),
{
    List::pair(List::text("*table*"), List::Nil)
}

/// What the table holds under `key1` and `key2`.
pub fn lookup_2d<'a>(key1: &List, key2: &List, local_table: &'a List) -> (r: Option<&'a List>)
    requires
        local_table@ is Cons,
    ensures
        r is Some == found_2d(key1@, key2@, local_table@.tail()) is Some,
        r matches Some(value) ==> Some(value@) == found_2d(key1@, key2@, local_table@.tail()),
{
    match assoc(key1, local_table.tail()) {
        Some(subtable) => match assoc(key2, subtable.tail()) {
            Some(rec) => Some(rec.tail()),
            None => None,
        },
        None => None,
    }
}

/// Stores `value` under `key1` and `key2`, over what was there.
pub fn insert_2d(key1: &List, key2: &List, value: List, local_table: &mut List) -> (r: Option<
    List,
>)
    requires
        old(local_table)@ is Cons,
    ensures
        final(local_table)@ == cons(
            old(local_table)@.head(),
            stored_2d(key1@, key2@, value@, old(local_table)@.tail()),
        ),
        r matches Some(ok) && ok@ == text_datum("ok"@),
{
    let mut taken = List::Nil;
    core::mem::swap(local_table, &mut taken);
    match taken {
        List::Cons(marker, records) => {
            *local_table = List::Cons(
                marker,
                Box::new(store_record_2d(key1, key2, value, *records)),
            );
        },
        other => {
            *local_table = other;
        },
    }
    Some(List::text("ok"))
}

/// An empty table with two keys.
pub fn make_table_2d() -> (r: List)
    ensures
        r@ == cons(table_marker(), Datum::Nil),
{
    List::pair(List::text("*table*"), List::Nil)
}

} // verus!
