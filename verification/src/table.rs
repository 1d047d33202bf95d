//! A static index held in memory: an ordinary table, filled at run time, for
//! use where no perfect-hash table has been generated.

use vstd::prelude::*;

use crate::entry::CacheEntry;
use crate::store::CacheStore;
use crate::text::same_text;

verus! {

/// One row of the table.
struct TableRow {
    lang: String,
    key: String,
    entry: CacheEntry,
}

impl TableRow {
    spec fn is_for(self, lang: Seq<char>, key: Seq<char>) -> bool {
        self.lang@ == lang && self.key@ == key
    }
}

/// What the rows hold for a message: the entry of the last row filed under
/// the two keys.
spec fn last_filed(rows: Seq<TableRow>, lang: Seq<char>, key: Seq<char>) -> Option<CacheEntry>
    decreases rows.len(),
{
    if rows.len() == 0 {
        None
    } else if rows.last().is_for(lang, key) {
        Some(rows.last().entry)
    } else {
        last_filed(rows.drop_last(), lang, key)
    }
}

/// The rows as a map: each row overrides what earlier rows filed under the
/// same two keys.
spec fn rows_map(rows: Seq<TableRow>) -> Map<(Seq<char>, Seq<char>), CacheEntry>
    decreases rows.len(),
{
    if rows.len() == 0 {
        Map::empty()
    } else {
        rows_map(rows.drop_last()).insert((rows.last().lang@, rows.last().key@), rows.last().entry)
    }
}

proof fn lemma_map_holds_last_filed(rows: Seq<TableRow>, lang: Seq<char>, key: Seq<char>)
    ensures
        last_filed(rows, lang, key) == (if rows_map(rows).contains_key((lang, key)) {
            Some(rows_map(rows)[(lang, key)])
        } else {
            None
        }),
    decreases rows.len(),
{
    if rows.len() > 0 {
        lemma_map_holds_last_filed(rows.drop_last(), lang, key);
    }
}

/// A static index as a plain table in memory.
pub struct TableCache {
    rows: Vec<TableRow>,
}

impl View for TableCache {
    type V = Map<(Seq<char>, Seq<char>), CacheEntry>;

    /// The table as a map from locale key and message key to entry.
    closed spec fn view(&self) -> Map<(Seq<char>, Seq<char>), CacheEntry> {
        rows_map(self.rows@)
    }
}

impl TableCache {
    /// An empty table.
    pub fn new() -> (table: TableCache)
        ensures
            table@ == Map::<(Seq<char>, Seq<char>), CacheEntry>::empty(),
    {
        TableCache { rows: Vec::new() }
    }

    /// Files `entry` under locale `lang` and message `key`, in place of what
    /// was filed there before.
    pub fn insert(&mut self, lang: &str, key: &str, entry: CacheEntry)
        ensures
            final(self)@ == old(self)@.insert((lang@, key@), entry),
    {
        let row = TableRow { lang: lang.to_owned(), key: key.to_owned(), entry };
        proof {
            assert(self.rows@.push(row).drop_last() == self.rows@);
        }
        self.rows.push(row);
    }
}

impl CacheStore for TableCache {
    open spec fn entry(&self, lang: Seq<char>, key: Seq<char>) -> Option<CacheEntry> {
        if self@.contains_key((lang, key)) {
            Some(self@[(lang, key)])
        } else {
            None
        }
    }

    fn get_entry(&self, lang: &str, key: &str) -> (found: Option<CacheEntry>) {
        proof {
            assert(self.rows@.take(self.rows@.len() as int) == self.rows@);
        }
        let mut i: usize = self.rows.len();
        while i > 0
            invariant
                i <= self.rows.len(),
                last_filed(self.rows@, lang@, key@) == last_filed(
                    self.rows@.take(i as int),
                    lang@,
                    key@,
                ),
            decreases i,
        {
            i = i - 1;
            let row = &self.rows[i];
            proof {
                let upto = self.rows@.take(i + 1);
                assert(upto.last() == self.rows@[i as int]);
                assert(upto.drop_last() == self.rows@.take(i as int));
                lemma_map_holds_last_filed(self.rows@, lang@, key@);
            }
            if same_text(row.lang.as_str(), lang) && same_text(row.key.as_str(), key) {
                return Some(row.entry);
            }
        }
        proof {
            lemma_map_holds_last_filed(self.rows@, lang@, key@);
        }
        None
    }
}

} // verus!
