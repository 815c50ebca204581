//! The content store: three record families behind insert, lookup, count
//! and increment operations, plus the seen-feed-entry set. The store is an
//! append-only, in-memory image of the logical schema; records are never
//! deleted, repost URLs are unique, and ledger numbers are sequential from
//! one.

pub mod connerie;
pub mod quote;
pub mod rss;
pub mod skandite;

use vstd::prelude::*;

use crate::db::connerie::Connerie;
use crate::db::quote::Quote;
use crate::db::skandite::Skandite;

verus! {

/// The shared persistent store. All record families are owned here; other
/// components hold only values returned by the store operations.
///
/// The store does not enforce the repost family's URL uniqueness on its
/// own: lookup and insert are separate operations, and the insert's
/// contract asks the caller for the confirmation that no record shares the
/// URL. Under concurrent writers against a shared backing store that
/// check-then-insert would be a race; the same holds for the ledger's
/// `count() + 1` numbering.
pub struct ContentStore {
    pub conneries: Vec<Connerie>,
    pub quotes: Vec<Quote>,
    pub rss_guids: Vec<String>,
    pub skandites: Vec<Skandite>,
}

impl ContentStore {
    /// Well-formedness: identities follow insertion order, repost URLs are
    /// unique with counts of at least one, and ledger numbers are gapless
    /// from one.
    pub open spec fn wf(self) -> bool {
        &&& forall|i: int|
            0 <= i < self.skandites@.len() ==> (#[trigger] self.skandites@[i]).id == i + 1
                && self.skandites@[i].count >= 1
        &&& forall|i: int, j: int|
            0 <= i < j < self.skandites@.len() ==> self.skandites@[i].url@
                != self.skandites@[j].url@
        &&& forall|i: int| 0 <= i < self.conneries@.len() ==> (#[trigger] self.conneries@[i]).id == i + 1
        &&& forall|i: int|
            0 <= i < self.quotes@.len() ==> (#[trigger] self.quotes@[i]).id == i + 1
                && self.quotes@[i].number == i + 1
    }

    pub open spec fn same_conneries(self, other: ContentStore) -> bool {
        self.conneries@ == other.conneries@
    }

    pub open spec fn same_quotes(self, other: ContentStore) -> bool {
        self.quotes@ == other.quotes@
    }

    pub open spec fn same_rss(self, other: ContentStore) -> bool {
        self.rss_guids@ == other.rss_guids@
    }

    pub open spec fn same_skandites(self, other: ContentStore) -> bool {
        self.skandites@ == other.skandites@
    }

    /// An empty, well-formed store.
    pub fn new() -> (s: ContentStore)
        ensures
            s.wf(),
            s.conneries@.len() == 0,
            s.quotes@.len() == 0,
            s.rss_guids@.len() == 0,
            s.skandites@.len() == 0,
    {
        ContentStore {
            conneries: Vec::new(),
            quotes: Vec::new(),
            rss_guids: Vec::new(),
            skandites: Vec::new(),
        }
    }
}

} // verus!
