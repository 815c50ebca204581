//! The repost record family: one record per canonical URL, carrying the
//! first poster, the first posting time and a monotonically increasing
//! sighting counter.

use vstd::prelude::*;
use vstd::std_specs::vec::vec_index_mut;
use vstd::string::StringExecFns;

use crate::db::ContentStore;

verus! {

/// One deduplicated link: the canonical URL, who posted it first and when,
/// and how many times it has been seen.
pub struct Skandite {
    pub id: u64,
    pub author: String,
    pub posted_date: i64,
    pub url: String,
    pub count: u64,
}

/// A counter bumped by one; it saturates at the integer's limit so that it
/// never decreases.
pub open spec fn bump(c: u64) -> u64 {
    if c < u64::MAX {
        (c + 1) as u64
    } else {
        c
    }
}

impl Skandite {
    /// A field-for-field copy.
    pub fn duplicate(&self) -> (r: Skandite)
        ensures
            r == *self,
    {
        Skandite {
            id: self.id,
            author: self.author.clone(),
            posted_date: self.posted_date,
            url: self.url.clone(),
            count: self.count,
        }
    }

    /// Exact-match lookup by canonical URL; none (not an error) when
    /// absent.
    pub fn find_by_url(store: &ContentStore, url: &str) -> (r: Option<Skandite>)
        ensures
            r is Some <==> exists|i: int|
                0 <= i < store.skandites@.len() && (#[trigger] store.skandites@[i]).url@ == url@,
            r matches Some(k) ==> k.url@ == url@ && exists|i: int|
                0 <= i < store.skandites@.len() && #[trigger] store.skandites@[i] == k,
    {
        let mut i: usize = 0;
        while i < store.skandites.len()
            invariant
                0 <= i <= store.skandites@.len(),
                forall|j: int| 0 <= j < i ==> (#[trigger] store.skandites@[j]).url@ != url@,
            decreases store.skandites@.len() - i,
        {
            if crate::text::str_eq(store.skandites[i].url.as_str(), url) {
                return Some(store.skandites[i].duplicate());
            }
            i = i + 1;
        }
        None
    }

    /// Append a record for a canonical URL that the caller has confirmed is
    /// not in the store yet; the new record starts with a count of one and
    /// the next sequential identity.
    pub fn insert(store: &mut ContentStore, url: &str, author: &str, now: i64)
        requires
            old(store).wf(),
            old(store).skandites@.len() < u64::MAX,
            forall|i: int|
                0 <= i < old(store).skandites@.len() ==> (#[trigger] old(
                    store,
                ).skandites@[i]).url@ != url@,
        ensures
            final(store).wf(),
            final(store).skandites@.len() == old(store).skandites@.len() + 1,
            final(store).skandites@.subrange(0, old(store).skandites@.len() as int) == old(
                store,
            ).skandites@,
            final(store).skandites@.last().url@ == url@,
            final(store).skandites@.last().author@ == author@,
            final(store).skandites@.last().posted_date == now,
            final(store).skandites@.last().count == 1,
            final(store).skandites@.last().id == old(store).skandites@.len() + 1,
            final(store).same_conneries(*old(store)),
            final(store).same_quotes(*old(store)),
            final(store).same_rss(*old(store)),
    {
        let id = (store.skandites.len() as u64) + 1;
        let rec = Skandite {
            id,
            author: String::from_str(author),
            posted_date: now,
            url: String::from_str(url),
            count: 1,
        };
        store.skandites.push(rec);
        proof {
            let olds = old(store).skandites@;
            let news = store.skandites@;
            assert(news.subrange(0, olds.len() as int) =~= olds);
            assert forall|i: int, j: int| 0 <= i < j < news.len() implies news[i].url@
                != news[j].url@ by {
                if j < olds.len() {
                    assert(olds[i].url@ != olds[j].url@);
                } else {
                    assert(news[i] == olds[i]);
                }
            }
        }
    }

    /// Bump the sighting counter of the record with the given identity; a
    /// silent no-op when no record has it.
    pub fn increment(store: &mut ContentStore, id: u64)
        requires
            old(store).wf(),
        ensures
            final(store).wf(),
            1 <= id <= old(store).skandites@.len() ==> final(store).skandites@ == old(
                store,
            ).skandites@.update(
                id as int - 1,
                (Skandite {
                    count: bump(old(store).skandites@[id as int - 1].count),
                    ..old(store).skandites@[id as int - 1]
                }),
            ),
            !(1 <= id <= old(store).skandites@.len()) ==> final(store).same_skandites(
                *old(store),
            ),
            final(store).same_conneries(*old(store)),
            final(store).same_quotes(*old(store)),
            final(store).same_rss(*old(store)),
    {
        if id >= 1 && id <= store.skandites.len() as u64 {
            let i = (id - 1) as usize;
            let rec = vec_index_mut(&mut store.skandites, i);
            let c = rec.count;
            rec.count = if c < u64::MAX {
                c + 1
            } else {
                c
            };
            proof {
                let olds = old(store).skandites@;
                let news = store.skandites@;
                assert(news =~= olds.update(
                    id as int - 1,
                    (Skandite {
                        count: bump(olds[id as int - 1].count),
                        ..olds[id as int - 1]
                    }),
                ));
                assert forall|i1: int, j1: int| 0 <= i1 < j1 < news.len() implies news[i1].url@
                    != news[j1].url@ by {
                    assert(olds[i1].url@ != olds[j1].url@);
                    assert(news[i1].url == olds[i1].url);
                    assert(news[j1].url == olds[j1].url);
                }
            }
        }
    }
}

} // verus!
