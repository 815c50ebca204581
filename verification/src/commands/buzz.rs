//! The news-feed command's decision logic: find the first feed entry not
//! announced yet, remember it, and shape the announcement. Fetching and
//! parsing the feed stay with the collaborator layer.

use vstd::prelude::*;
use vstd::string::StringExecFns;

use crate::db::rss::RssFeedEntry;
use crate::db::ContentStore;

verus! {

/// One feed entry, as the feed parser hands it over.
pub struct FeedEntry {
    pub id: String,
    pub title: Option<String>,
    pub link: Option<String>,
}

/// The entry identifier has been announced before.
pub open spec fn guid_known(rss: Seq<String>, guid: Seq<char>) -> bool {
    exists|i: int| 0 <= i < rss.len() && (#[trigger] rss[i])@ == guid
}

/// `f` is the first entry not announced yet.
pub open spec fn first_new(rss: Seq<String>, entries: Seq<FeedEntry>, f: int) -> bool {
    &&& 0 <= f < entries.len()
    &&& !guid_known(rss, entries[f].id@)
    &&& forall|j: int| 0 <= j < f ==> guid_known(rss, entries[j].id@)
}

/// The announcement for a fresh entry.
pub open spec fn buzz_reply_spec(title: Seq<char>, link: Seq<char>) -> Seq<char> {
    "**EXCLU!** "@ + title + " - "@ + link
}

pub struct BuzzCommand {}

impl BuzzCommand {
    /// Announce the first feed entry not seen yet, remembering it; tell
    /// the user when every entry is already known; stay silent on a fresh
    /// entry that lacks a title or a link.
    pub fn handle(&self, store: &mut ContentStore, entries: &Vec<FeedEntry>) -> (r: Option<String>)
        requires
            old(store).wf(),
        ensures
            final(store).wf(),
            final(store).same_conneries(*old(store)),
            final(store).same_quotes(*old(store)),
            final(store).same_skandites(*old(store)),
            (forall|j: int|
                0 <= j < entries@.len() ==> guid_known(
                    old(store).rss_guids@,
                    (#[trigger] entries@[j]).id@,
                )) ==> (r matches Some(v) && v@ == "Plus d'exclus pour le moment :("@)
                && final(store).same_rss(*old(store)),
            forall|f: int|
                first_new(old(store).rss_guids@, entries@, f) ==> if (entries@[f].title matches Some(
                    t,
                ) && entries@[f].link matches Some(l)) {
                    &&& final(store).rss_guids@.len() == old(store).rss_guids@.len() + 1
                    &&& final(store).rss_guids@.subrange(0, old(store).rss_guids@.len() as int)
                        == old(store).rss_guids@
                    &&& final(store).rss_guids@.last()@ == entries@[f].id@
                    &&& (r matches Some(v) && v@ == buzz_reply_spec(
                        entries@[f].title->Some_0@,
                        entries@[f].link->Some_0@,
                    ))
                } else {
                    r is None && final(store).same_rss(*old(store))
                },
    {
        let mut i: usize = 0;
        while i < entries.len()
            invariant
                0 <= i <= entries@.len(),
                forall|j: int|
                    0 <= j < i ==> guid_known(store.rss_guids@, (#[trigger] entries@[j]).id@),
                *store == *old(store),
                old(store).wf(),
            decreases entries@.len() - i,
        {
            if !RssFeedEntry::exists_by_guid(store, entries[i].id.as_str()) {
                proof {
                    assert(first_new(store.rss_guids@, entries@, i as int));
                }
                match (&entries[i].title, &entries[i].link) {
                    (Some(t), Some(l)) => {
                        let mut out = String::new();
                        out.append("**EXCLU!** ");
                        out.append(t.as_str());
                        out.append(" - ");
                        out.append(l.as_str());
                        proof {
                            assert(out@ =~= buzz_reply_spec(
                                entries@[i as int].title->Some_0@,
                                entries@[i as int].link->Some_0@,
                            ));
                        }
                        RssFeedEntry::save(store, entries[i].id.as_str());
                        return Some(out);
                    },
                    _ => {
                        return None;
                    },
                }
            }
            i = i + 1;
        }
        Some(String::from_str("Plus d'exclus pour le moment :("))
    }
}

} // verus!
