//! Tiered keyword matching. Tier 1 is strict: every case-folded token must
//! occur space-padded (whole-word) in the case-folded text. Tier 2 is
//! loose: every token must occur as a plain substring. Strict matching
//! implies loose matching, which is what makes the fallback a widening.

use vstd::prelude::*;
use vstd::string::StringExecFns;

use crate::text::contains_seq;
use crate::text::lower_of;
use crate::text::lowercase;
use crate::text::str_contains;

verus! {

/// The token occurs somewhere in the text, both case-folded.
pub open spec fn loose_match(text: Seq<char>, token: Seq<char>) -> bool {
    contains_seq(lower_of(text), lower_of(token))
}

/// The token occurs space-padded in the text, both case-folded.
pub open spec fn strict_match(text: Seq<char>, token: Seq<char>) -> bool {
    contains_seq(lower_of(text), seq![' '] + lower_of(token) + seq![' '])
}

/// Every token matches loosely (conjunctive search).
pub open spec fn loose_all(text: Seq<char>, tokens: Seq<Seq<char>>) -> bool {
    forall|k: int| 0 <= k < tokens.len() ==> loose_match(text, #[trigger] tokens[k])
}

/// Every token matches strictly (conjunctive search).
pub open spec fn strict_all(text: Seq<char>, tokens: Seq<Seq<char>>) -> bool {
    forall|k: int| 0 <= k < tokens.len() ==> strict_match(text, #[trigger] tokens[k])
}

/// A strict (whole-word) match is also a loose (substring) match, so the
/// loose tier can only widen the strict tier's result set.
pub proof fn lemma_strict_implies_loose(text: Seq<char>, token: Seq<char>)
    requires
        strict_match(text, token),
    ensures
        loose_match(text, token),
{
    let hay = lower_of(text);
    let pat = seq![' '] + lower_of(token) + seq![' '];
    let i = choose|i: int|
        0 <= i && i + pat.len() <= hay.len() && #[trigger] hay.subrange(i, i + pat.len()) == pat;
    let tok = lower_of(token);
    assert(hay.subrange(i + 1, i + 1 + tok.len() as int) =~= tok) by {
        assert(forall|j: int|
            0 <= j < tok.len() ==> hay.subrange(i, i + pat.len())[j + 1] == #[trigger] tok[j]);
    }
}

/// Every strict conjunctive match is a loose conjunctive match.
pub proof fn lemma_strict_all_implies_loose_all(text: Seq<char>, tokens: Seq<Seq<char>>)
    requires
        strict_all(text, tokens),
    ensures
        loose_all(text, tokens),
{
    assert forall|k: int| 0 <= k < tokens.len() implies loose_match(text, #[trigger] tokens[k]) by {
        lemma_strict_implies_loose(text, tokens[k]);
    }
}

/// Does the token occur loosely in the text?
pub fn matches_loose(text: &str, token: &str) -> (r: bool)
    ensures
        r == loose_match(text@, token@),
{
    let lt = lowercase(text);
    let lk = lowercase(token);
    str_contains(lt.as_str(), lk.as_str())
}

/// Does the token occur strictly (space-padded) in the text?
pub fn matches_strict(text: &str, token: &str) -> (r: bool)
    ensures
        r == strict_match(text@, token@),
{
    let lt = lowercase(text);
    let lk = lowercase(token);
    let mut pat = String::new();
    pat.append(" ");
    pat.append(lk.as_str());
    pat.append(" ");
    proof {
        reveal_strlit(" ");
        assert(" "@ =~= seq![' ']);
        assert(pat@ =~= seq![' '] + lower_of(token@) + seq![' ']);
    }
    str_contains(lt.as_str(), pat.as_str())
}

/// Do all tokens occur loosely in the text?
pub fn matches_all_loose(text: &str, tokens: &Vec<String>) -> (r: bool)
    ensures
        r == loose_all(text@, tokens.deep_view()),
{
    let mut k: usize = 0;
    while k < tokens.len()
        invariant
            0 <= k <= tokens.len(),
            forall|j: int| 0 <= j < k ==> loose_match(text@, #[trigger] tokens.deep_view()[j]),
        decreases tokens.len() - k,
    {
        if !matches_loose(text, tokens[k].as_str()) {
            proof {
                assert(!loose_match(text@, tokens.deep_view()[k as int]));
            }
            return false;
        }
        k = k + 1;
    }
    true
}

/// Do all tokens occur strictly in the text?
pub fn matches_all_strict(text: &str, tokens: &Vec<String>) -> (r: bool)
    ensures
        r == strict_all(text@, tokens.deep_view()),
{
    let mut k: usize = 0;
    while k < tokens.len()
        invariant
            0 <= k <= tokens.len(),
            forall|j: int| 0 <= j < k ==> strict_match(text@, #[trigger] tokens.deep_view()[j]),
        decreases tokens.len() - k,
    {
        if !matches_strict(text, tokens[k].as_str()) {
            proof {
                assert(!strict_match(text@, tokens.deep_view()[k as int]));
            }
            return false;
        }
        k = k + 1;
    }
    true
}

} // verus!
