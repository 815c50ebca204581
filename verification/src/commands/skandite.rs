//! The repost detector: canonicalize the link of an inbound message, look
//! it up, and decide between first sighting, same-author repost, ignored
//! domain, and a flagged repost whose counter is bumped.

use vstd::prelude::*;
use vstd::string::StrSliceExecFns;
use vstd::string::StringExecFns;

use crate::canonical::canonical_of;
use crate::canonical::is_url;
use crate::canonical::normalize_url;
use crate::canonical::NormalizationError;
use crate::db::skandite::bump;
use crate::db::skandite::Skandite;
use crate::db::ContentStore;
use crate::text::contains_seq;
use crate::text::dec_rep;
use crate::text::push_dec;
use crate::text::str_contains;
use crate::text::str_eq;
use crate::utils::extract_url;
use crate::utils::first_link_of;

verus! {

/// The detector's verdict on one sighting.
pub enum SkanditeOutcome {
    /// The message holds no link; nothing to do.
    NoLink,
    /// First sighting: a record was created with a count of one.
    New,
    /// The original poster re-shared their own link; no reply, no change.
    SameAuthor,
    /// The link's canonical URL matches the ignore list; no reply, no
    /// change.
    Ignored,
    /// A repost: the counter was bumped, and the reply material is carried
    /// along.
    Repost { url: String, author: String, posted_date: i64, count: u64 },
}

/// The canonical URL contains one of the configured low-signal substrings.
pub open spec fn ignored_url(url: Seq<char>, list: Seq<Seq<char>>) -> bool {
    exists|i: int| 0 <= i < list.len() && contains_seq(url, #[trigger] list[i])
}

/// A record for this canonical URL stands at index `i`.
pub open spec fn found_at(s: Seq<Skandite>, url: Seq<char>, i: int) -> bool {
    0 <= i < s.len() && s[i].url@ == url
}

/// Relies on chrono::Utc::now: the current time as seconds since the Unix
/// epoch. Nothing can be promised of the clock's value.
#[verifier::external_body]
pub(crate) fn now_unix() -> (t: i64) {
    chrono::Utc::now().timestamp()
}

/// What each successful verdict means, given the canonical URL, the store
/// before and after, the author, and the sighting time.
pub open spec fn observe_outcome_ok(
    r: Result<SkanditeOutcome, NormalizationError>,
    url: Seq<char>,
    olds: Seq<Skandite>,
    news: Seq<Skandite>,
    author: Seq<char>,
    now: i64,
    ignore: Seq<Seq<char>>,
) -> bool {
    match r {
        Ok(SkanditeOutcome::New) => (forall|i: int| !found_at(olds, url, i)) && news.len()
            == olds.len() + 1 && news.subrange(0, olds.len() as int) == olds && news.last().url@
            == url && news.last().author@ == author && news.last().posted_date == now
            && news.last().count == 1,
        Ok(SkanditeOutcome::SameAuthor) => (exists|i: int|
            #[trigger] found_at(olds, url, i) && olds[i].author@ == author) && news == olds,
        Ok(SkanditeOutcome::Ignored) => (exists|i: int|
            #[trigger] found_at(olds, url, i) && olds[i].author@ != author) && ignored_url(
            url,
            ignore,
        ) && news == olds,
        Ok(SkanditeOutcome::Repost { url: ru, author: ra, posted_date: rp, count: rc })
            => !ignored_url(url, ignore) && exists|i: int|
            #[trigger] found_at(olds, url, i) && olds[i].author@ != author && ru@ == url && ra@
                == olds[i].author@ && rp == olds[i].posted_date && rc == bump(olds[i].count)
                && news == olds.update(i, (Skandite { count: bump(olds[i].count), ..olds[i] })),
        _ => false,
    }
}

/// The repost detector, with its configurable ignore list.
pub struct SkanditeCommand {
    pub ignore_list: Vec<String>,
    pub discord_skandite_emoji_id: u64,
}

impl SkanditeCommand {
    /// A detector with the default ignore list: hosts whose links are
    /// inherently often re-shared.
    pub fn new(discord_skandite_emoji_id: u64) -> (r: SkanditeCommand)
        ensures
            r.ignore_list.deep_view() =~= seq!["tenor.com"@, "giphy.com"@, "warcraftlogs.com"@],
            r.discord_skandite_emoji_id == discord_skandite_emoji_id,
    {
        let mut list: Vec<String> = Vec::new();
        list.push(String::from_str("tenor.com"));
        list.push(String::from_str("giphy.com"));
        list.push(String::from_str("warcraftlogs.com"));
        proof {
            assert(list.deep_view() =~= seq!["tenor.com"@, "giphy.com"@, "warcraftlogs.com"@]);
        }
        SkanditeCommand { ignore_list: list, discord_skandite_emoji_id }
    }

    /// Is this record's URL on the configured ignore list?
    pub fn is_ignored(&self, skandite: &Skandite) -> (r: bool)
        ensures
            r == ignored_url(skandite.url@, self.ignore_list.deep_view()),
    {
        let mut i: usize = 0;
        while i < self.ignore_list.len()
            invariant
                0 <= i <= self.ignore_list@.len(),
                forall|j: int|
                    0 <= j < i ==> !contains_seq(
                        skandite.url@,
                        #[trigger] self.ignore_list.deep_view()[j],
                    ),
            decreases self.ignore_list@.len() - i,
        {
            if str_contains(skandite.url.as_str(), self.ignore_list[i].as_str()) {
                proof {
                    assert(contains_seq(skandite.url@, self.ignore_list.deep_view()[i as int]));
                }
                return true;
            }
            i = i + 1;
        }
        false
    }

    /// Process one sighting of a message at a given time. Extracts the
    /// first link, canonicalizes it, and applies the dedup policy: first
    /// sighting inserts a record with a count of one; a sighting by the
    /// original author or of an ignored domain changes nothing; any other
    /// sighting bumps the record's counter.
    pub fn observe(&self, store: &mut ContentStore, content: &str, author: &str, now: i64) -> (r:
        Result<SkanditeOutcome, NormalizationError>)
        requires
            old(store).wf(),
            old(store).skandites@.len() < u64::MAX,
        ensures
            final(store).wf(),
            final(store).same_conneries(*old(store)),
            final(store).same_quotes(*old(store)),
            final(store).same_rss(*old(store)),
            r == Ok::<SkanditeOutcome, NormalizationError>(SkanditeOutcome::NoLink)
                <==> first_link_of(content@) is None,
            r is Err <==> (first_link_of(content@) matches Some(l) && !is_url(l)),
            (r == Ok::<SkanditeOutcome, NormalizationError>(SkanditeOutcome::NoLink) || r is Err)
                ==> final(store).same_skandites(*old(store)),
            (match first_link_of(content@) {
                Some(l) => is_url(l) ==> observe_outcome_ok(
                    r,
                    canonical_of(l),
                    old(store).skandites@,
                    final(store).skandites@,
                    author@,
                    now,
                    self.ignore_list.deep_view(),
                ),
                None => true,
            }),
    {
        match extract_url(content) {
            None => Ok(SkanditeOutcome::NoLink),
            Some(link) => {
                match normalize_url(link.as_str()) {
                    Err(e) => Err(e),
                    Ok(url) => {
                        match Skandite::find_by_url(store, url.as_str()) {
                            None => {
                                Skandite::insert(store, url.as_str(), author, now);
                                Ok(SkanditeOutcome::New)
                            },
                            Some(rec) => {
                                proof {
                                    let olds = store.skandites@;
                                    let i = choose|i: int|
                                        0 <= i < olds.len() && #[trigger] olds[i] == rec;
                                    assert(found_at(olds, canonical_of(link@), i));
                                    assert(rec.id == i + 1);
                                }
                                if str_eq(rec.author.as_str(), author) {
                                    Ok(SkanditeOutcome::SameAuthor)
                                } else if self.is_ignored(&rec) {
                                    Ok(SkanditeOutcome::Ignored)
                                } else {
                                    let new_count = if rec.count < u64::MAX {
                                        rec.count + 1
                                    } else {
                                        rec.count
                                    };
                                    Skandite::increment(store, rec.id);
                                    Ok(
                                        SkanditeOutcome::Repost {
                                            url: rec.url,
                                            author: rec.author,
                                            posted_date: rec.posted_date,
                                            count: new_count,
                                        },
                                    )
                                }
                            },
                        }
                    },
                }
            },
        }
    }

    /// Process one sighting at the current time; as `observe`, with the
    /// clock read from the system.
    pub fn handle(&self, store: &mut ContentStore, content: &str, author: &str) -> (r: Result<
        SkanditeOutcome,
        NormalizationError,
    >)
        requires
            old(store).wf(),
            old(store).skandites@.len() < u64::MAX,
        ensures
            final(store).wf(),
            final(store).same_conneries(*old(store)),
            final(store).same_quotes(*old(store)),
            final(store).same_rss(*old(store)),
            r == Ok::<SkanditeOutcome, NormalizationError>(SkanditeOutcome::NoLink)
                <==> first_link_of(content@) is None,
            r is Err <==> (first_link_of(content@) matches Some(l) && !is_url(l)),
            (r == Ok::<SkanditeOutcome, NormalizationError>(SkanditeOutcome::NoLink) || r is Err)
                ==> final(store).same_skandites(*old(store)),
            (match first_link_of(content@) {
                Some(l) => is_url(l) ==> exists|t: i64|
                    #[trigger] observe_outcome_ok(
                        r,
                        canonical_of(l),
                        old(store).skandites@,
                        final(store).skandites@,
                        author@,
                        t,
                        self.ignore_list.deep_view(),
                    ),
                None => true,
            }),
    {
        let now = now_unix();
        self.observe(store, content, author, now)
    }
}

/// The human-relative rendering of an age in seconds, largest unit first.
pub open spec fn rel_time_spec(delta: i64) -> Seq<char> {
    if delta >= 86400 {
        "il y a "@ + dec_rep((delta / 86400) as nat) + " jour(s)"@
    } else if delta >= 3600 {
        "il y a "@ + dec_rep((delta / 3600) as nat) + " heure(s)"@
    } else if delta >= 60 {
        "il y a "@ + dec_rep((delta / 60) as nat) + " minute(s)"@
    } else if delta >= 0 {
        "il y a "@ + dec_rep(delta as nat) + " seconde(s)"@
    } else {
        "il y a "@ + dec_rep(0) + " seconde(s)"@
    }
}

/// Render an age in seconds as human-relative text.
pub fn relative_time(delta: i64) -> (r: String)
    ensures
        r@ == rel_time_spec(delta),
{
    let mut out = String::new();
    out.append("il y a ");
    if delta >= 86400 {
        push_dec(&mut out, (delta / 86400) as u64);
        out.append(" jour(s)");
        proof {
            assert(out@ =~= rel_time_spec(delta));
        }
    } else if delta >= 3600 {
        push_dec(&mut out, (delta / 3600) as u64);
        out.append(" heure(s)");
        proof {
            assert(out@ =~= rel_time_spec(delta));
        }
    } else if delta >= 60 {
        push_dec(&mut out, (delta / 60) as u64);
        out.append(" minute(s)");
        proof {
            assert(out@ =~= rel_time_spec(delta));
        }
    } else {
        let d: u64 = if delta >= 0 {
            delta as u64
        } else {
            0
        };
        push_dec(&mut out, d);
        out.append(" seconde(s)");
        proof {
            assert(out@ =~= rel_time_spec(delta));
        }
    }
    out
}

/// The reply text for a flagged repost: the canonical URL, the original
/// author, a human-relative rendering of the original posting time, and
/// the updated count.
pub open spec fn repost_reply_spec(
    url: Seq<char>,
    author: Seq<char>,
    posted_date: i64,
    now: i64,
    count: u64,
) -> Seq<char> {
    "Skandite ! Déjà posté par "@ + author + " "@ + rel_time_spec((now - posted_date) as i64)
        + ", vu "@ + dec_rep(count as nat) + " fois : "@ + url
}

/// Format the reply for a flagged repost. The reply always names the
/// original author and carries the updated count.
pub fn format_repost_reply(url: &str, author: &str, posted_date: i64, now: i64, count: u64) -> (r:
    String)
    requires
        i64::MIN <= now - posted_date <= i64::MAX,
    ensures
        r@ == repost_reply_spec(url@, author@, posted_date, now, count),
        r@.len() > 0,
        contains_seq(r@, author@),
        contains_seq(r@, dec_rep(count as nat)),
        contains_seq(r@, url@),
{
    let mut out = String::new();
    out.append("Skandite ! Déjà posté par ");
    out.append(author);
    out.append(" ");
    let rel = relative_time(now - posted_date);
    out.append(rel.as_str());
    out.append(", vu ");
    push_dec(&mut out, count);
    out.append(" fois : ");
    out.append(url);
    proof {
        assert(out@ =~= repost_reply_spec(url@, author@, posted_date, now, count));
        let p1 = "Skandite ! Déjà posté par "@;
        assert(out@.subrange(p1.len() as int, p1.len() as int + author@.len() as int) =~= author@);
        let p2 = p1 + author@ + " "@ + rel_time_spec((now - posted_date) as i64) + ", vu "@;
        assert(out@.subrange(p2.len() as int, p2.len() as int + dec_rep(count as nat).len() as int)
            =~= dec_rep(count as nat));
        let p3 = p2 + dec_rep(count as nat) + " fois : "@;
        assert(out@.subrange(p3.len() as int, p3.len() as int + url@.len() as int) =~= url@);
        reveal_strlit("Skandite ! Déjà posté par ");
        assert(out@.len() > 0);
    }
    out
}

} // verus!
