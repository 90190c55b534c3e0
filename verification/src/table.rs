//! The hash table behind the pointer map.
//!
//! The table is a `hashbrown::HashMap`. Nothing in this file is proved: the
//! contracts below restate what the documentation of `hashbrown` promises of
//! the four operations that the pointer map uses.

use vstd::prelude::*;

verus! {

/// A `hashbrown::HashMap` from keys, which are pairs of integers, to the bits
/// of an entity. The map is hidden from the verifier, which knows it only
/// through [`table_entries`].
#[verifier::external_body]
#[derive(Debug)]
pub struct EntityTable {
    inner: hashbrown::HashMap<(u8, u128), u64>,
}

/// The key-value pairs that a table holds.
pub uninterp spec fn table_entries(table: EntityTable) -> Map<(u8, u128), u64>;

/// `hashbrown::HashMap::new`: the new map is empty.
#[verifier::external_body]
pub(crate) fn table_new() -> (table: EntityTable)
    ensures
        table_entries(table) =~= Map::empty(),
{
    EntityTable { inner: hashbrown::HashMap::new() }
}

/// `hashbrown::HashMap::get`: the value stored under `key`, or `None` where
/// the map has no such key. The map is left as it is.
#[verifier::external_body]
pub(crate) fn table_get(table: &EntityTable, key: (u8, u128)) -> (value: Option<u64>)
    ensures
        value == (if table_entries(*table).contains_key(key) {
            Some(table_entries(*table)[key])
        } else {
            None
        }),
{
    table.inner.get(&key).copied()
}

/// `hashbrown::HashMap::insert`: afterwards `key` maps to `value` and every
/// other key is as before. Returned is the value that `key` mapped to before
/// the call, or `None` where the key was new.
#[verifier::external_body]
pub(crate) fn table_insert(table: &mut EntityTable, key: (u8, u128), value: u64) -> (previous:
    Option<u64>)
    ensures
        table_entries(*final(table)) == table_entries(*old(table)).insert(key, value),
        previous == (if table_entries(*old(table)).contains_key(key) {
            Some(table_entries(*old(table))[key])
        } else {
            None
        }),
{
    table.inner.insert(key, value)
}

/// `hashbrown::HashMap::clear`: afterwards the map is empty.
#[verifier::external_body]
pub(crate) fn table_clear(table: &mut EntityTable)
    ensures
        table_entries(*final(table)) =~= Map::empty(),
{
    table.inner.clear()
}

} // verus!
