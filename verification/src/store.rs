//! The static index of the resolver, and perfect-hash tables as a source of
//! it.

use vstd::prelude::*;

use crate::entry::CacheEntry;

verus! {

/// The perfect-hash table of `phf`, with its three public fields: the hash
/// key, the displacements and the entries. Lookups are stated over them.
#[verifier::external_type_specification]
#[verifier::reject_recursive_types(K)]
#[verifier::reject_recursive_types(V)]
pub struct ExPhfMap<K: 'static, V: 'static>(phf::Map<K, V>);

/// The messages of one locale, as a perfect-hash table.
pub type MessageTable = phf::Map<&'static str, CacheEntry>;

/// The message tables of all locales, as a perfect-hash table of tables.
pub type StaticIndex = phf::Map<&'static str, &'static MessageTable>;

/// A source of cache entries by locale key and message key. Lookups are pure:
/// what a store answers depends on the store and the two keys alone.
pub trait CacheStore: Sync + Send {
    /// What the store holds for `key` in locale `lang`; `None` where the
    /// locale is unknown or has no such message.
    spec fn entry(&self, lang: Seq<char>, key: Seq<char>) -> Option<CacheEntry>;

    /// Retrieves the entry of a message in a locale.
    fn get_entry(&self, lang: &str, key: &str) -> (found: Option<CacheEntry>)
        ensures
            found == self.entry(lang@, key@),
    ;
}

/// The slot that `phf_shared` selects for a key: `hash` of the key's bytes
/// under `hash_key`, then `get_index` over the displacements and the number
/// of entries.
pub uninterp spec fn phf_slot(
    hash_key: u64,
    displacements: Seq<(u32, u32)>,
    entries: nat,
    key: Seq<char>,
) -> int;

/// Whether a lookup in `table` can run: a table without displacements is
/// empty; one with displacements has entries to select from, and no more of
/// either than 32 bits count.
pub open spec fn slots_agree<V>(table: phf::Map<&'static str, V>) -> bool {
    table.disps@.len() == 0 || (0 < table.entries@.len() <= 0xFFFF_FFFF && table.disps@.len()
        <= 0xFFFF_FFFF)
}

/// What `table` holds under `key`, given the slot that the hash selects for
/// `key`: the value in that slot, if the key stored there is `key`. A table
/// whose slots do not agree holds nothing.
pub open spec fn filed_at<V>(table: phf::Map<&'static str, V>, key: Seq<char>, slot: int) -> Option<
    V,
> {
    if slots_agree(table) && table.disps@.len() > 0 && 0 <= slot < table.entries@.len()
        && table.entries@[slot].0@ == key {
        Some(table.entries@[slot].1)
    } else {
        None
    }
}

/// What `table` holds under `key`.
pub open spec fn filed<V>(table: phf::Map<&'static str, V>, key: Seq<char>) -> Option<V> {
    filed_at(table, key, phf_slot(table.key, table.disps@, table.entries@.len(), key))
}

/// `phf::Map::get` of `phf`: without displacements, nothing; else the value
/// of the entry in the slot that the hash of `key` selects, if the key
/// stored there equals `key`. On a table whose slots do not agree the
/// outside function divides by zero or reads past the entries, so such a
/// table is left out.
#[verifier::external_body]
fn table_get<'t, V>(table: &'t phf::Map<&'static str, V>, key: &str) -> (found: Option<&'t V>)
    requires
        slots_agree(*table),
    ensures
        match found {
            Some(value) => filed_at(
                *table,
                key@,
                phf_slot(table.key, table.disps@, table.entries@.len(), key@),
            ) == Some(*value),
            None => filed_at(
                *table,
                key@,
                phf_slot(table.key, table.disps@, table.entries@.len(), key@),
            ) is None,
        },
{
    table.get(key)
}

/// Whether a lookup in `table` can run.
fn has_agreeing_slots<V>(table: &phf::Map<&'static str, V>) -> (agree: bool)
    ensures
        agree == slots_agree(*table),
{
    let displacements = table.disps.len();
    let entries = table.entries.len();
    displacements == 0 || (0 < entries && entries <= 0xFFFF_FFFF && displacements <= 0xFFFF_FFFF)
}

/// What `table` holds under `key`: the very value that is filed there. A
/// table whose slots do not agree is not looked into and holds nothing.
pub fn table_lookup<'t, V>(table: &'t phf::Map<&'static str, V>, key: &str) -> (found: Option<&'t V>)
    ensures
        match found {
            Some(value) => filed(*table, key@) == Some(*value),
            None => filed(*table, key@) is None,
        },
{
    if has_agreeing_slots(table) {
        table_get(table, key)
    } else {
        None
    }
}

impl CacheStore for StaticIndex {
    open spec fn entry(&self, lang: Seq<char>, key: Seq<char>) -> Option<CacheEntry> {
        match filed(*self, lang) {
            Some(table) => filed(*table, key),
            None => None,
        }
    }

    /// One hash on the locale key, then one on the message key.
    fn get_entry(&self, lang: &str, key: &str) -> (found: Option<CacheEntry>) {
        match table_lookup(self, lang) {
            Some(table) => match table_lookup(*table, key) {
                Some(entry) => Some(*entry),
                None => None,
            },
            None => None,
        }
    }
}

} // verus!
