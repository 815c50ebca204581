//! The one-liner record family: organically captured short messages,
//! duplicates allowed, never mutated or deleted, retrieved by tiered
//! keyword search or uniform random sampling.

use vstd::prelude::*;
use vstd::string::StringExecFns;

use crate::db::ContentStore;
use crate::rng::random_below;
use crate::search::loose_all;
use crate::search::matches_all_loose;
use crate::search::matches_all_strict;
use crate::search::strict_all;

verus! {

/// One captured message and, when known, who said it.
pub struct Connerie {
    pub id: u64,
    pub value: String,
    pub author: Option<String>,
}

impl Connerie {
    /// Total number of stored one-liners.
    pub fn count(store: &ContentStore) -> (n: usize)
        ensures
            n == store.conneries@.len(),
    {
        store.conneries.len()
    }

    /// Append a captured message; duplicates are organic content and are
    /// kept.
    pub fn insert(store: &mut ContentStore, author: &str, content: &str)
        requires
            old(store).wf(),
            old(store).conneries@.len() < u64::MAX,
        ensures
            final(store).wf(),
            final(store).conneries@.len() == old(store).conneries@.len() + 1,
            final(store).conneries@.subrange(0, old(store).conneries@.len() as int) == old(
                store,
            ).conneries@,
            final(store).conneries@.last().value@ == content@,
            final(store).conneries@.last().author matches Some(a) && a@ == author@,
            final(store).conneries@.last().id == old(store).conneries@.len() + 1,
            final(store).same_quotes(*old(store)),
            final(store).same_rss(*old(store)),
            final(store).same_skandites(*old(store)),
    {
        let id = (store.conneries.len() as u64) + 1;
        let rec = Connerie {
            id,
            value: String::from_str(content),
            author: Some(String::from_str(author)),
        };
        store.conneries.push(rec);
        proof {
            assert(store.conneries@.subrange(0, old(store).conneries@.len() as int) =~= old(
                store,
            ).conneries@);
        }
    }

    /// One stored message chosen uniformly at random; none exactly when the
    /// store is empty.
    pub fn random(store: &ContentStore) -> (r: Option<String>)
        ensures
            r is Some <==> store.conneries@.len() > 0,
            r matches Some(v) ==> exists|i: int|
                0 <= i < store.conneries@.len() && v@ == (#[trigger] store.conneries@[i]).value@,
    {
        let n = store.conneries.len();
        if n == 0 {
            None
        } else {
            let i = random_below(n);
            Some(store.conneries[i].value.clone())
        }
    }

    /// Tiered search: strict whole-word matches first, loose substring
    /// matches as the fallback, then one match chosen uniformly at random.
    /// No result exactly when no stored message matches every token even
    /// loosely.
    pub fn search(store: &ContentStore, tokens: &Vec<String>) -> (r: Option<String>)
        ensures
            r is None <==> forall|i: int|
                0 <= i < store.conneries@.len() ==> !loose_all(
                    (#[trigger] store.conneries@[i]).value@,
                    tokens.deep_view(),
                ),
            r matches Some(v) ==> if exists|i: int|
                0 <= i < store.conneries@.len() && strict_all(
                    (#[trigger] store.conneries@[i]).value@,
                    tokens.deep_view(),
                ) {
                exists|i: int|
                    0 <= i < store.conneries@.len() && strict_all(
                        (#[trigger] store.conneries@[i]).value@,
                        tokens.deep_view(),
                    ) && v@ == store.conneries@[i].value@
            } else {
                exists|i: int|
                    0 <= i < store.conneries@.len() && loose_all(
                        (#[trigger] store.conneries@[i]).value@,
                        tokens.deep_view(),
                    ) && v@ == store.conneries@[i].value@
            },
    {
        let strict_hits = Self::collect_strict(store, tokens);
        if strict_hits.len() > 0 {
            let i = random_below(strict_hits.len());
            proof {
                crate::search::lemma_strict_all_implies_loose_all(
                    strict_hits.deep_view()[i as int],
                    tokens.deep_view(),
                );
            }
            return Some(strict_hits[i].clone());
        }
        let loose_hits = Self::collect_loose(store, tokens);
        if loose_hits.len() > 0 {
            let i = random_below(loose_hits.len());
            proof {
                assert(loose_hits.deep_view()[i as int] == loose_hits@[i as int]@);
            }
            return Some(loose_hits[i].clone());
        }
        None
    }

    /// The values of all records whose text matches every token strictly,
    /// in store order.
    fn collect_strict(store: &ContentStore, tokens: &Vec<String>) -> (r: Vec<String>)
        ensures
            forall|k: int|
                #![trigger r.deep_view()[k]]
                0 <= k < r.len() ==> exists|i: int|
                    0 <= i < store.conneries@.len() && strict_all(
                        (#[trigger] store.conneries@[i]).value@,
                        tokens.deep_view(),
                    ) && r.deep_view()[k] == store.conneries@[i].value@,
            r.len() == 0 <==> forall|i: int|
                0 <= i < store.conneries@.len() ==> !strict_all(
                    (#[trigger] store.conneries@[i]).value@,
                    tokens.deep_view(),
                ),
    {
        let mut hits: Vec<String> = Vec::new();
        let mut i: usize = 0;
        while i < store.conneries.len()
            invariant
                0 <= i <= store.conneries@.len(),
                forall|k: int|
                    #![trigger hits.deep_view()[k]]
                    0 <= k < hits.len() ==> exists|j: int|
                        0 <= j < store.conneries@.len() && strict_all(
                            (#[trigger] store.conneries@[j]).value@,
                            tokens.deep_view(),
                        ) && hits.deep_view()[k] == store.conneries@[j].value@,
                hits.len() == 0 <==> forall|j: int|
                    0 <= j < i ==> !strict_all(
                        (#[trigger] store.conneries@[j]).value@,
                        tokens.deep_view(),
                    ),
            decreases store.conneries@.len() - i,
        {
            if matches_all_strict(store.conneries[i].value.as_str(), tokens) {
                let ghost oldh = hits.deep_view();
                hits.push(store.conneries[i].value.clone());
                proof {
                    assert(hits.deep_view() =~= oldh.push(store.conneries@[i as int].value@));
                }
            }
            i = i + 1;
        }
        hits
    }

    /// The values of all records whose text matches every token loosely,
    /// in store order.
    fn collect_loose(store: &ContentStore, tokens: &Vec<String>) -> (r: Vec<String>)
        ensures
            forall|k: int|
                #![trigger r.deep_view()[k]]
                0 <= k < r.len() ==> exists|i: int|
                    0 <= i < store.conneries@.len() && loose_all(
                        (#[trigger] store.conneries@[i]).value@,
                        tokens.deep_view(),
                    ) && r.deep_view()[k] == store.conneries@[i].value@,
            r.len() == 0 <==> forall|i: int|
                0 <= i < store.conneries@.len() ==> !loose_all(
                    (#[trigger] store.conneries@[i]).value@,
                    tokens.deep_view(),
                ),
    {
        let mut hits: Vec<String> = Vec::new();
        let mut i: usize = 0;
        while i < store.conneries.len()
            invariant
                0 <= i <= store.conneries@.len(),
                forall|k: int|
                    #![trigger hits.deep_view()[k]]
                    0 <= k < hits.len() ==> exists|j: int|
                        0 <= j < store.conneries@.len() && loose_all(
                            (#[trigger] store.conneries@[j]).value@,
                            tokens.deep_view(),
                        ) && hits.deep_view()[k] == store.conneries@[j].value@,
                hits.len() == 0 <==> forall|j: int|
                    0 <= j < i ==> !loose_all(
                        (#[trigger] store.conneries@[j]).value@,
                        tokens.deep_view(),
                    ),
            decreases store.conneries@.len() - i,
        {
            if matches_all_loose(store.conneries[i].value.as_str(), tokens) {
                let ghost oldh = hits.deep_view();
                hits.push(store.conneries[i].value.clone());
                proof {
                    assert(hits.deep_view() =~= oldh.push(store.conneries@[i as int].value@));
                }
            }
            i = i + 1;
        }
        hits
    }
}

} // verus!
