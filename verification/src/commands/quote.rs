//! The quote ledger commands: look a quote up by its number, list the
//! numbers matching a keyword search, reply with a random quote, count the
//! ledger, and promote a message to a new, sequentially numbered quote.

use vstd::prelude::*;
use vstd::string::StringExecFns;

use crate::db::quote::Quote;
use crate::db::ContentStore;
use crate::search::loose_all;
use crate::text::all_digits;
use crate::text::dec_rep;
use crate::text::dec_value;
use crate::text::parse_u64;
use crate::text::push_dec;
use crate::text::split_char;
use crate::text::split_on;

verus! {

/// A rendered ledger entry: its number, a separator, its text.
pub open spec fn format_quote_spec(number: u64, text: Seq<char>) -> Seq<char> {
    dec_rep(number as nat) + ". "@ + text
}

/// The reply to an identifier that is not an unsigned decimal number.
pub open spec fn invalid_id_reply() -> Seq<char> {
    "Identifiant invalide"@
}

/// The matching quotes' numbers, joined with a comma and a space.
pub open spec fn numbers_list_spec(qs: Seq<Quote>) -> Seq<char>
    decreases qs.len(),
{
    if qs.len() == 0 {
        Seq::empty()
    } else if qs.len() == 1 {
        dec_rep(qs[0].number as nat)
    } else {
        numbers_list_spec(qs.drop_last()) + ", "@ + dec_rep(qs.last().number as nat)
    }
}

/// The quote ledger's read-side commands.
pub struct QuoteCommand;

impl QuoteCommand {
    /// Render a ledger entry as `number. text`.
    pub fn format_quote(quote: &Quote) -> (r: String)
        ensures
            r@ == format_quote_spec(quote.number, quote.quote@),
    {
        let mut out = String::new();
        push_dec(&mut out, quote.number);
        out.append(". ");
        out.append(quote.quote.as_str());
        proof {
            assert(out@ =~= format_quote_spec(quote.number, quote.quote@));
        }
        out
    }

    /// Look a quote up by the textual identifier the user typed. A
    /// non-numeric identifier is rejected with a user-facing message; an
    /// absent number answers a no-result message.
    pub fn trigger_get(&self, store: &ContentStore, arg: &str) -> (r: String)
        ensures
            (arg@.len() == 0 || !all_digits(arg@) || dec_value(arg@) > u64::MAX) ==> r@
                == invalid_id_reply(),
            (arg@.len() > 0 && all_digits(arg@) && dec_value(arg@) <= u64::MAX && (forall|i: int|
                0 <= i < store.quotes@.len() ==> (#[trigger] store.quotes@[i]).number
                    != dec_value(arg@))) ==> r@ == "Pas de résultat!"@,
            (arg@.len() > 0 && all_digits(arg@) && dec_value(arg@) <= u64::MAX && (exists|i: int|
                0 <= i < store.quotes@.len() && (#[trigger] store.quotes@[i]).number == dec_value(
                    arg@,
                ))) ==> exists|i: int|
                0 <= i < store.quotes@.len() && (#[trigger] store.quotes@[i]).number == dec_value(
                    arg@,
                ) && r@ == format_quote_spec(store.quotes@[i].number, store.quotes@[i].quote@),
    {
        match parse_u64(arg) {
            None => String::from_str("Identifiant invalide"),
            Some(n) => {
                match Quote::find_by_number(store, n) {
                    None => String::from_str("Pas de résultat!"),
                    Some(q) => Self::format_quote(&q),
                }
            },
        }
    }

    /// List the numbers of the quotes matching every search token, in
    /// store order, or answer a no-result message.
    pub fn trigger_find(&self, store: &ContentStore, search_terms: &str) -> (r: String)
        ensures
            ({
                let matching = store.quotes@.filter(
                    |q: Quote| loose_all(q.quote@, split_char(search_terms@, ' ')),
                );
                if matching.len() == 0 {
                    r@ == "Pas de résultat."@
                } else {
                    r@ == "Quotes correspondants à la recherche : "@ + numbers_list_spec(matching)
                }
            }),
    {
        let tokens = split_on(search_terms, ' ');
        let quotes = Quote::search(store, &tokens);
        if quotes.len() == 0 {
            return String::from_str("Pas de résultat.");
        }
        let ghost qs = quotes@;
        let mut out = String::new();
        out.append("Quotes correspondants à la recherche : ");
        push_dec(&mut out, quotes[0].number);
        proof {
            assert(qs.subrange(0, 1) =~= seq![qs[0]]);
            assert(numbers_list_spec(qs.subrange(0, 1)) == dec_rep(qs[0].number as nat));
            assert(out@ =~= "Quotes correspondants à la recherche : "@ + numbers_list_spec(
                qs.subrange(0, 1),
            ));
        }
        let mut j: usize = 1;
        while j < quotes.len()
            invariant
                1 <= j <= quotes@.len(),
                qs == quotes@,
                out@ == "Quotes correspondants à la recherche : "@ + numbers_list_spec(
                    qs.subrange(0, j as int),
                ),
            decreases quotes@.len() - j,
        {
            out.append(", ");
            push_dec(&mut out, quotes[j].number);
            proof {
                let t = qs.subrange(0, j as int + 1);
                assert(t.drop_last() =~= qs.subrange(0, j as int));
                assert(t.last() == qs[j as int]);
                assert(numbers_list_spec(t) == numbers_list_spec(qs.subrange(0, j as int)) + ", "@
                    + dec_rep(qs[j as int].number as nat));
                assert(out@ =~= "Quotes correspondants à la recherche : "@ + numbers_list_spec(t));
            }
            j = j + 1;
        }
        proof {
            assert(qs.subrange(0, qs.len() as int) =~= qs);
        }
        out
    }

    /// Reply with a uniformly random ledger quote, or a no-result message
    /// on an empty ledger.
    pub fn trigger_random(&self, store: &ContentStore) -> (r: String)
        ensures
            store.quotes@.len() == 0 ==> r@ == "Pas de résultat!"@,
            store.quotes@.len() > 0 ==> exists|i: int|
                0 <= i < store.quotes@.len() && r@ == format_quote_spec(
                    (#[trigger] store.quotes@[i]).number,
                    store.quotes@[i].quote@,
                ),
    {
        match Quote::random(store) {
            None => String::from_str("Pas de résultat!"),
            Some(q) => Self::format_quote(&q),
        }
    }

    /// Reply with how many quotes the ledger holds.
    pub fn trigger_count(&self, store: &ContentStore) -> (r: String)
        ensures
            r@ == "Il y a "@ + dec_rep(store.quotes@.len()) + " citations dans la base de données."@,
    {
        let n = Quote::count(store);
        let mut out = String::new();
        out.append("Il y a ");
        push_dec(&mut out, n as u64);
        out.append(" citations dans la base de données.");
        proof {
            assert(out@ =~= "Il y a "@ + dec_rep(store.quotes@.len())
                + " citations dans la base de données."@);
        }
        out
    }
}

/// The quote the promote action stores: the author in angle brackets, then
/// the message.
pub open spec fn promoted_quote_spec(author: Seq<char>, content: Seq<char>) -> Seq<char> {
    "<"@ + author + "> "@ + content
}

/// Promoting a message to the ledger.
pub struct QuoteAddCommand;

impl QuoteAddCommand {
    /// Store `<author> content` under the next sequential number and
    /// confirm with that number and the stored text.
    pub fn handle(&self, store: &mut ContentStore, author: &str, content: &str) -> (r: String)
        requires
            old(store).wf(),
            old(store).quotes@.len() < u64::MAX,
        ensures
            final(store).wf(),
            final(store).same_conneries(*old(store)),
            final(store).same_rss(*old(store)),
            final(store).same_skandites(*old(store)),
            final(store).quotes@.len() == old(store).quotes@.len() + 1,
            final(store).quotes@.subrange(0, old(store).quotes@.len() as int) == old(
                store,
            ).quotes@,
            final(store).quotes@.last().quote@ == promoted_quote_spec(author@, content@),
            final(store).quotes@.last().number == old(store).quotes@.len() + 1,
            r@ == "Quote "@ + dec_rep((old(store).quotes@.len() + 1) as nat) + " ajoutée : "@
                + promoted_quote_spec(author@, content@),
    {
        let mut quote = String::new();
        quote.append("<");
        quote.append(author);
        quote.append("> ");
        quote.append(content);
        proof {
            assert(quote@ =~= promoted_quote_spec(author@, content@));
        }
        let number = Quote::save(store, quote.as_str());
        let mut out = String::new();
        out.append("Quote ");
        push_dec(&mut out, number);
        out.append(" ajoutée : ");
        out.append(quote.as_str());
        proof {
            assert(out@ =~= "Quote "@ + dec_rep((old(store).quotes@.len() + 1) as nat)
                + " ajoutée : "@ + promoted_quote_spec(author@, content@));
        }
        out
    }
}

} // verus!
