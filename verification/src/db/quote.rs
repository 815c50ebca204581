//! The ledger record family: numbered, append-only quotes with sequential
//! identifiers starting at one, keyword search and random retrieval.

use vstd::prelude::*;
use vstd::string::StringExecFns;

use crate::db::ContentStore;
use crate::rng::random_below;
use crate::search::loose_all;
use crate::search::matches_all_loose;

verus! {

/// One promoted quote and its ledger number.
pub struct Quote {
    pub id: u64,
    pub quote: String,
    pub number: u64,
}

impl Quote {
    /// A field-for-field copy.
    pub fn duplicate(&self) -> (r: Quote)
        ensures
            r == *self,
    {
        Quote { id: self.id, quote: self.quote.clone(), number: self.number }
    }

    /// Exact-match lookup by ledger number; none (not an error) when
    /// absent.
    pub fn find_by_number(store: &ContentStore, number: u64) -> (r: Option<Quote>)
        ensures
            r is Some <==> exists|i: int|
                0 <= i < store.quotes@.len() && (#[trigger] store.quotes@[i]).number == number,
            r matches Some(q) ==> q.number == number && exists|i: int|
                0 <= i < store.quotes@.len() && #[trigger] store.quotes@[i] == q,
    {
        let mut i: usize = 0;
        while i < store.quotes.len()
            invariant
                0 <= i <= store.quotes@.len(),
                forall|j: int| 0 <= j < i ==> (#[trigger] store.quotes@[j]).number != number,
            decreases store.quotes@.len() - i,
        {
            if store.quotes[i].number == number {
                return Some(store.quotes[i].duplicate());
            }
            i = i + 1;
        }
        None
    }

    /// Total number of ledger quotes.
    pub fn count(store: &ContentStore) -> (n: usize)
        ensures
            n == store.quotes@.len(),
    {
        store.quotes.len()
    }

    /// All quotes whose text matches every token as a case-folded
    /// substring, in store order. The ledger has no strict tier.
    pub fn search(store: &ContentStore, tokens: &Vec<String>) -> (r: Vec<Quote>)
        ensures
            r@ == store.quotes@.filter(
                |q: Quote| loose_all(q.quote@, tokens.deep_view()),
            ),
    {
        let ghost pred = |q: Quote| loose_all(q.quote@, tokens.deep_view());
        let mut hits: Vec<Quote> = Vec::new();
        let mut i: usize = 0;
        proof {
            assert(store.quotes@.subrange(0, 0).filter(pred) =~= Seq::<Quote>::empty());
            assert(hits@ =~= Seq::<Quote>::empty());
        }
        while i < store.quotes.len()
            invariant
                0 <= i <= store.quotes@.len(),
                pred == (|q: Quote| loose_all(q.quote@, tokens.deep_view())),
                hits@ == store.quotes@.subrange(0, i as int).filter(pred),
            decreases store.quotes@.len() - i,
        {
            proof {
                assert(store.quotes@.subrange(0, i as int + 1) =~= store.quotes@.subrange(
                    0,
                    i as int,
                ).push(store.quotes@[i as int]));
                crate::text::lemma_filter_push(
                    store.quotes@.subrange(0, i as int),
                    pred,
                    store.quotes@[i as int],
                );
            }
            if matches_all_loose(store.quotes[i].quote.as_str(), tokens) {
                hits.push(store.quotes[i].duplicate());
            }
            i = i + 1;
        }
        proof {
            assert(store.quotes@.subrange(0, store.quotes@.len() as int) =~= store.quotes@);
        }
        hits
    }

    /// One ledger quote chosen uniformly at random; none exactly when the
    /// ledger is empty.
    pub fn random(store: &ContentStore) -> (r: Option<Quote>)
        ensures
            r is Some <==> store.quotes@.len() > 0,
            r matches Some(q) ==> exists|i: int|
                0 <= i < store.quotes@.len() && #[trigger] store.quotes@[i] == q,
    {
        let n = store.quotes.len();
        if n == 0 {
            None
        } else {
            let i = random_below(n);
            Some(store.quotes[i].duplicate())
        }
    }

    /// Append a quote under the next sequential number, `count() + 1`, and
    /// return that number. Numbers stay gapless from one.
    pub fn save(store: &mut ContentStore, quote: &str) -> (number: u64)
        requires
            old(store).wf(),
            old(store).quotes@.len() < u64::MAX,
        ensures
            final(store).wf(),
            number == old(store).quotes@.len() + 1,
            final(store).quotes@.len() == old(store).quotes@.len() + 1,
            final(store).quotes@.subrange(0, old(store).quotes@.len() as int) == old(
                store,
            ).quotes@,
            final(store).quotes@.last().quote@ == quote@,
            final(store).quotes@.last().number == number,
            final(store).quotes@.last().id == number,
            final(store).same_conneries(*old(store)),
            final(store).same_rss(*old(store)),
            final(store).same_skandites(*old(store)),
    {
        let number = (store.quotes.len() as u64) + 1;
        let rec = Quote { id: number, quote: String::from_str(quote), number };
        store.quotes.push(rec);
        proof {
            assert(store.quotes@.subrange(0, old(store).quotes@.len() as int) =~= old(
                store,
            ).quotes@);
        }
        number
    }
}

} // verus!
