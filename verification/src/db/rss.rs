//! The seen-feed-entry set: feed entry identifiers already announced, so
//! that each entry is announced at most once.

use vstd::prelude::*;
use vstd::string::StringExecFns;

use crate::db::ContentStore;
use crate::text::str_eq;

verus! {

/// Marker type owning the seen-feed-entry operations.
pub struct RssFeedEntry;

impl RssFeedEntry {
    /// Remember a feed entry identifier as announced.
    pub fn save(store: &mut ContentStore, guid: &str)
        requires
            old(store).wf(),
        ensures
            final(store).wf(),
            final(store).rss_guids@.len() == old(store).rss_guids@.len() + 1,
            final(store).rss_guids@.subrange(0, old(store).rss_guids@.len() as int) == old(
                store,
            ).rss_guids@,
            final(store).rss_guids@.last()@ == guid@,
            final(store).same_conneries(*old(store)),
            final(store).same_quotes(*old(store)),
            final(store).same_skandites(*old(store)),
    {
        store.rss_guids.push(String::from_str(guid));
        proof {
            assert(store.rss_guids@.subrange(0, old(store).rss_guids@.len() as int) =~= old(
                store,
            ).rss_guids@);
        }
    }

    /// Has this feed entry identifier been announced already?
    pub fn exists_by_guid(store: &ContentStore, guid: &str) -> (r: bool)
        ensures
            r <==> exists|i: int|
                0 <= i < store.rss_guids@.len() && (#[trigger] store.rss_guids@[i])@ == guid@,
    {
        let mut i: usize = 0;
        while i < store.rss_guids.len()
            invariant
                0 <= i <= store.rss_guids@.len(),
                forall|j: int| 0 <= j < i ==> (#[trigger] store.rss_guids@[j])@ != guid@,
            decreases store.rss_guids@.len() - i,
        {
            if str_eq(store.rss_guids[i].as_str(), guid) {
                return true;
            }
            i = i + 1;
        }
        false
    }
}

} // verus!
