//! URL canonicalization: the deterministic stripping of tracking and
//! ephemeral query parameters that turns a raw link into the dedup key.
//!
//! A string is accepted as a URL when its first `:` is preceded by at least
//! one character and followed by `//` and at least one more character.
//! Everything after the first `?` past the authority is treated as the
//! query, a `&`-separated list of parameters. Canonicalization drops every
//! parameter whose name starts with `utm_`; on a microblogging host it also
//! drops the share-session and referrer parameters (`s`, `t`), and on a
//! video host the playback-timestamp parameter (`t`). A single trailing
//! path separator is removed last. Scheme, host casing and path segments
//! are never altered.

use vstd::prelude::*;
use vstd::string::StrSliceExecFns;
use vstd::string::StringExecFns;

use crate::text::char_idx;
use crate::text::contains_seq;
use crate::text::lemma_char_idx;
use crate::text::lemma_char_idx_unique;
use crate::text::prefix_of;
use crate::text::split_char;
use crate::text::split_on;
use crate::text::str_contains;
use crate::text::str_eq;
use crate::text::str_starts_with;
use crate::text::find_char_from;
use crate::text::lemma_filter_push;

verus! {

/// The input could not be parsed as a URL.
#[derive(Debug, Clone, Copy, PartialEq, Eq, Structural)]
pub struct NormalizationError;

pub open spec fn min_n(a: nat, b: nat) -> nat {
    if a <= b {
        a
    } else {
        b
    }
}

/// Position of the first `:`, which separates the scheme.
pub open spec fn scheme_sep(s: Seq<char>) -> nat {
    char_idx(s, ':')
}

/// The parse rule: a non-empty scheme, then `://`, then at least one more
/// character.
pub open spec fn is_url(s: Seq<char>) -> bool {
    let c = scheme_sep(s);
    &&& 1 <= c
    &&& c + 3 < s.len()
    &&& s[c as int + 1] == '/'
    &&& s[c as int + 2] == '/'
}

/// First character of the authority (host) part.
pub open spec fn authority_start(s: Seq<char>) -> nat {
    scheme_sep(s) + 3
}

/// Index of the `?` that starts the query, or the length when there is
/// no query.
pub open spec fn query_pos(s: Seq<char>) -> nat {
    let h = authority_start(s);
    h + char_idx(s.subrange(h as int, s.len() as int), '?')
}

/// Everything before the query: scheme, host and path.
pub open spec fn base_of(s: Seq<char>) -> Seq<char> {
    s.subrange(0, query_pos(s) as int)
}

/// The query parameters, in order; empty when there is no query.
pub open spec fn params_of(s: Seq<char>) -> Seq<Seq<char>> {
    if query_pos(s) >= s.len() {
        Seq::empty()
    } else {
        split_char(s.subrange(query_pos(s) as int + 1, s.len() as int), '&')
    }
}

/// The host: from the end of `://` to the first `/` or `?`.
pub open spec fn host_of(s: Seq<char>) -> Seq<char> {
    let h = authority_start(s);
    let rest = s.subrange(h as int, s.len() as int);
    rest.subrange(0, min_n(char_idx(rest, '/'), char_idx(rest, '?')) as int)
}

/// The parameter's name: everything before its first `=`.
pub open spec fn param_name(p: Seq<char>) -> Seq<char> {
    p.subrange(0, char_idx(p, '=') as int)
}

/// A tracking parameter: its name starts with `utm_`.
pub open spec fn is_tracking(p: Seq<char>) -> bool {
    prefix_of("utm_"@, param_name(p))
}

/// A platform-specific ephemeral parameter: share-session or referrer on a
/// microblogging host, playback timestamp on a video host.
pub open spec fn is_ephemeral(host: Seq<char>, p: Seq<char>) -> bool {
    ||| (contains_seq(host, "twitter.com"@) && (param_name(p) == "s"@ || param_name(p) == "t"@))
    ||| ((contains_seq(host, "youtube.com"@) || contains_seq(host, "youtu.be"@)) && param_name(p)
        == "t"@)
}

/// Parameters that canonicalization keeps.
pub open spec fn keep_param(host: Seq<char>, p: Seq<char>) -> bool {
    !is_tracking(p) && !is_ephemeral(host, p)
}

pub open spec fn kept_params(s: Seq<char>) -> Seq<Seq<char>> {
    params_of(s).filter(|p: Seq<char>| keep_param(host_of(s), p))
}

/// The parameters joined back with `&`.
pub open spec fn join_amp(ps: Seq<Seq<char>>) -> Seq<char>
    decreases ps.len(),
{
    if ps.len() == 0 {
        Seq::empty()
    } else if ps.len() == 1 {
        ps[0]
    } else {
        join_amp(ps.drop_last()) + seq!['&'] + ps.last()
    }
}

/// Remove one trailing `/` if present.
pub open spec fn strip_slash(s: Seq<char>) -> Seq<char> {
    if s.len() > 0 && s.last() == '/' {
        s.drop_last()
    } else {
        s
    }
}

/// The canonical form of a URL: base, then the kept parameters (the `?` is
/// dropped with them when none is kept), then the trailing slash removed.
pub open spec fn canonical_of(s: Seq<char>) -> Seq<char> {
    let joined = if kept_params(s).len() == 0 {
        base_of(s)
    } else {
        base_of(s) + seq!['?'] + join_amp(kept_params(s))
    };
    strip_slash(joined)
}

fn strip_trailing_slash(s: String) -> (r: String)
    ensures
        r@ == strip_slash(s@),
{
    let n = s.as_str().unicode_len();
    if n > 0 && s.as_str().get_char(n - 1) == '/' {
        let r = String::from_str(s.as_str().substring_char(0, n - 1));
        proof {
            assert(r@ =~= s@.drop_last());
        }
        r
    } else {
        s
    }
}

/// Does canonicalization keep this parameter, given the host?
fn keeps(host: &str, p: &str) -> (r: bool)
    ensures
        r == keep_param(host@, p@),
{
    let e = find_char_from(p, '=', 0);
    let name = p.substring_char(0, e);
    proof {
        assert(p@.subrange(0, p@.len() as int) =~= p@);
        assert(name@ =~= param_name(p@));
    }
    if str_starts_with(name, "utm_") {
        return false;
    }
    if str_contains(host, "twitter.com") && (str_eq(name, "s") || str_eq(name, "t")) {
        return false;
    }
    if (str_contains(host, "youtube.com") || str_contains(host, "youtu.be")) && str_eq(name, "t") {
        return false;
    }
    true
}

/// Canonicalize a raw URL; fails exactly when the input does not parse as
/// a URL.
pub fn normalize_url(url: &str) -> (r: Result<String, NormalizationError>)
    ensures
        r is Ok <==> is_url(url@),
        r matches Ok(o) ==> o@ == canonical_of(url@),
{
    let n = url.unicode_len();
    proof {
        assert(url@.subrange(0, n as int) =~= url@);
    }
    let c = find_char_from(url, ':', 0);
    if c < 1 || n - c <= 3 || url.get_char(c + 1) != '/' || url.get_char(c + 2) != '/' {
        proof {
            assert(scheme_sep(url@) == c);
        }
        return Err(NormalizationError);
    }
    proof {
        assert(scheme_sep(url@) == c);
        assert(is_url(url@));
    }
    let h = c + 3;
    let q = find_char_from(url, '?', h);
    let slash = find_char_from(url, '/', h);
    let host_end = if slash < q {
        slash
    } else {
        q
    };
    let host = url.substring_char(h, host_end);
    proof {
        let rest = url@.subrange(h as int, url@.len() as int);
        assert(q == query_pos(url@));
        assert(host@ =~= host_of(url@));
    }
    let base = url.substring_char(0, q);
    proof {
        assert(base@ =~= base_of(url@));
    }
    if q == n {
        proof {
            assert(params_of(url@) =~= Seq::<Seq<char>>::empty());
            assert(kept_params(url@) =~= Seq::<Seq<char>>::empty());
        }
        return Ok(strip_trailing_slash(String::from_str(base)));
    }
    let qs = url.substring_char(q + 1, n);
    proof {
        assert(qs@ =~= url@.subrange(q as int + 1, url@.len() as int));
        assert(params_of(url@) == split_char(qs@, '&'));
    }
    let parts = split_on(qs, '&');
    let ghost hostv = host@;
    let ghost paramsv = parts.deep_view();
    let mut kept: Vec<String> = Vec::new();
    let mut i: usize = 0;
    proof {
        assert(paramsv.subrange(0, 0).filter(|p: Seq<char>| keep_param(hostv, p))
            =~= Seq::<Seq<char>>::empty());
        assert(kept.deep_view() =~= Seq::<Seq<char>>::empty());
    }
    while i < parts.len()
        invariant
            0 <= i <= parts.len(),
            paramsv == parts.deep_view(),
            hostv == host_of(url@),
            hostv == host@,
            kept.deep_view() == paramsv.subrange(0, i as int).filter(
                |p: Seq<char>| keep_param(hostv, p),
            ),
        decreases parts.len() - i,
    {
        let keep_it = keeps(host, parts[i].as_str());
        proof {
            assert(parts.deep_view()[i as int] == parts@[i as int]@);
            assert(paramsv.subrange(0, i as int + 1) =~= paramsv.subrange(0, i as int).push(
                paramsv[i as int],
            ));
            lemma_filter_push(
                paramsv.subrange(0, i as int),
                |p: Seq<char>| keep_param(hostv, p),
                paramsv[i as int],
            );
        }
        if keep_it {
            let ghost old_kept = kept.deep_view();
            let piece = parts[i].clone();
            kept.push(piece);
            proof {
                assert(kept.deep_view() =~= old_kept.push(parts@[i as int]@));
            }
        }
        i = i + 1;
    }
    proof {
        assert(paramsv.subrange(0, parts.len() as int) =~= paramsv);
        assert(kept.deep_view() == kept_params(url@));
    }
    if kept.len() == 0 {
        return Ok(strip_trailing_slash(String::from_str(base)));
    }
    let ghost keptv = kept.deep_view();
    let mut out = String::from_str(base);
    out.append("?");
    out.append(kept[0].as_str());
    proof {
        reveal_strlit("?");
        assert("?"@ =~= seq!['?']);
        assert(keptv.subrange(0, 1) =~= seq![keptv[0]]);
        assert(join_amp(keptv.subrange(0, 1)) == keptv[0]);
        assert(kept.deep_view()[0] == kept@[0]@);
        assert(out@ =~= base_of(url@) + seq!['?'] + join_amp(keptv.subrange(0, 1)));
    }
    let mut j: usize = 1;
    while j < kept.len()
        invariant
            1 <= j <= kept.len(),
            keptv == kept.deep_view(),
            keptv == kept_params(url@),
            out@ == base_of(url@) + seq!['?'] + join_amp(keptv.subrange(0, j as int)),
        decreases kept.len() - j,
    {
        out.append("&");
        out.append(kept[j].as_str());
        proof {
            reveal_strlit("&");
            assert("&"@ =~= seq!['&']);
            let t = keptv.subrange(0, j as int + 1);
            assert(t.drop_last() =~= keptv.subrange(0, j as int));
            assert(t.last() == keptv[j as int]);
            assert(join_amp(t) == join_amp(keptv.subrange(0, j as int)) + seq!['&']
                + keptv[j as int]);
            assert(kept.deep_view()[j as int] == kept@[j as int]@);
            assert(out@ =~= base_of(url@) + seq!['?'] + join_amp(t));
        }
        j = j + 1;
    }
    proof {
        assert(keptv.subrange(0, kept.len() as int) =~= keptv);
    }
    Ok(strip_trailing_slash(out))
}

proof fn lemma_filter_compose<A>(s: Seq<A>, a: spec_fn(A) -> bool, b: spec_fn(A) -> bool)
    ensures
        s.filter(|x: A| a(x) && b(x)) == s.filter(a).filter(b),
    decreases s.len(),
{
    reveal(Seq::filter);
    if s.len() == 0 {
        assert(s.filter(|x: A| a(x) && b(x)) =~= s.filter(a).filter(b));
    } else {
        let t = s.drop_last();
        let x = s.last();
        lemma_filter_compose(t, a, b);
        if a(x) {
            assert(s.filter(a) == t.filter(a).push(x));
            lemma_filter_push(t.filter(a), b, x);
        }
    }
}

/// The scheme separator, the host, and the query position of a URL are all
/// determined by its base.
proof fn lemma_host_from_base(u1: Seq<char>, u2: Seq<char>)
    requires
        is_url(u1),
        is_url(u2),
        base_of(u1) == base_of(u2),
    ensures
        host_of(u1) == host_of(u2),
{
    let c1 = scheme_sep(u1);
    let c2 = scheme_sep(u2);
    let h1 = authority_start(u1);
    let h2 = authority_start(u2);
    let q1 = query_pos(u1);
    let q2 = query_pos(u2);
    let rest1 = u1.subrange(h1 as int, u1.len() as int);
    let rest2 = u2.subrange(h2 as int, u2.len() as int);
    lemma_char_idx(u1, ':');
    lemma_char_idx(u2, ':');
    lemma_char_idx(rest1, '?');
    lemma_char_idx(rest2, '?');
    lemma_char_idx(rest1, '/');
    lemma_char_idx(rest2, '/');
    assert(q1 <= u1.len() && q2 <= u2.len());
    assert(base_of(u1).len() == q1 && base_of(u2).len() == q2);
    assert(q1 == q2);
    assert forall|j: int| 0 <= j < q1 implies u1[j] == #[trigger] u2[j] by {
        assert(u1[j] == base_of(u1)[j]);
        assert(u2[j] == base_of(u2)[j]);
    }
    // The first `:` lies inside the base, so it is the same in both.
    assert(c1 < h1 <= q1);
    assert(u2[c1 as int] == u1[c1 as int] == ':');
    assert(forall|j: int| 0 <= j < c1 ==> u2[j] != ':');
    lemma_char_idx_unique(u2, ':', c1 as int);
    assert(c2 == c1 && h2 == h1);
    // The relative `?` positions agree because the query starts where the
    // base ends.
    let qr = char_idx(rest1, '?');
    assert(char_idx(rest2, '?') == qr);
    // The first `/` of the authority part: either both inside the base at
    // the same spot, or both at or beyond the `?`.
    let sl1 = char_idx(rest1, '/');
    let sl2 = char_idx(rest2, '/');
    assert(forall|j: int| 0 <= j < qr ==> rest1[j] == #[trigger] rest2[j]) by {
        assert(forall|j: int|
            0 <= j < qr ==> rest1[j] == u1[h1 + j] && rest2[j] == #[trigger] u2[h1 + j]);
    }
    let e1 = min_n(sl1, char_idx(rest1, '?'));
    let e2 = min_n(sl2, char_idx(rest2, '?'));
    if sl1 < qr {
        assert(rest2[sl1 as int] == rest1[sl1 as int] == '/');
        assert(forall|j: int| 0 <= j < sl1 ==> rest2[j] != '/');
        lemma_char_idx_unique(rest2, '/', sl1 as int);
        assert(e1 == e2);
    } else {
        if sl2 < qr {
            assert(rest1[sl2 as int] == rest2[sl2 as int] == '/');
            assert(false);
        }
        assert(e1 == qr && e2 == qr);
    }
    assert(host_of(u1) =~= host_of(u2));
}

/// Tracking parameters do not matter: two URLs with the same base and the
/// same non-`utm_` parameters, in the same order, canonicalize identically,
/// whatever `utm_*` parameters stand between them.
pub proof fn lemma_canonical_ignores_tracking(u1: Seq<char>, u2: Seq<char>)
    requires
        is_url(u1),
        is_url(u2),
        base_of(u1) == base_of(u2),
        params_of(u1).filter(|p: Seq<char>| !is_tracking(p)) == params_of(u2).filter(
            |p: Seq<char>| !is_tracking(p),
        ),
    ensures
        canonical_of(u1) == canonical_of(u2),
{
    lemma_host_from_base(u1, u2);
    let host = host_of(u1);
    let a = |p: Seq<char>| !is_tracking(p);
    let b = |p: Seq<char>| !is_ephemeral(host, p);
    lemma_filter_compose(params_of(u1), a, b);
    lemma_filter_compose(params_of(u2), a, b);
    assert((|p: Seq<char>| keep_param(host_of(u1), p)) =~= (|x: Seq<char>| a(x) && b(x)));
    assert((|p: Seq<char>| keep_param(host_of(u2), p)) =~= (|x: Seq<char>| a(x) && b(x)));
    assert(kept_params(u1) == kept_params(u2));
}

} // verus!
