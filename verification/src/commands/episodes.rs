//! The next-episode command's decision logic: given a show's episode list
//! and the current time, find the most recently aired and the next
//! upcoming episode. Fetching and rendering stay with the collaborator
//! layer.

use vstd::prelude::*;
use vstd::string::StringExecFns;

use crate::text::dec_rep;
use crate::text::push_dec;

verus! {

/// One episode as the lookup API reports it; the air time is seconds since
/// the Unix epoch when known.
pub struct Episode {
    pub name: String,
    pub season: u32,
    pub number: u32,
    pub airstamp: Option<i64>,
}

/// The episode at `i` has a known air time strictly before `now`.
pub open spec fn aired_before(eps: Seq<Episode>, i: int, now: i64) -> bool {
    0 <= i < eps.len() && (eps[i].airstamp matches Some(d) && d < now)
}

/// The episode at `i` has a known air time at or after `now`.
pub open spec fn airs_at_or_after(eps: Seq<Episode>, i: int, now: i64) -> bool {
    0 <= i < eps.len() && (eps[i].airstamp matches Some(d) && d >= now)
}

pub struct EpisodesCommand {}

/// The previous episode (the last one in list order with a known air time
/// before `now`) and the next one (the first with a known air time at or
/// after `now`), as indices into the list.
pub fn find_previous_and_next_episodes(episodes: &Vec<Episode>, now: i64) -> (r: (
    Option<usize>,
    Option<usize>,
))
    ensures
        r.0 matches Some(p) ==> aired_before(episodes@, p as int, now) && (forall|j: int|
            p < j < episodes@.len() ==> !aired_before(episodes@, j, now)),
        r.0 is None ==> forall|j: int| !aired_before(episodes@, j, now),
        r.1 matches Some(n) ==> airs_at_or_after(episodes@, n as int, now) && (forall|j: int|
            0 <= j < n ==> !airs_at_or_after(episodes@, j, now)),
        r.1 is None ==> forall|j: int| !airs_at_or_after(episodes@, j, now),
{
    let mut previous: Option<usize> = None;
    let mut next: Option<usize> = None;
    let mut i: usize = 0;
    while i < episodes.len()
        invariant
            0 <= i <= episodes@.len(),
            previous matches Some(p) ==> aired_before(episodes@, p as int, now) && (forall|j: int|
                p < j < i ==> !aired_before(episodes@, j, now)),
            previous is None ==> forall|j: int| 0 <= j < i ==> !aired_before(episodes@, j, now),
            next matches Some(n) ==> airs_at_or_after(episodes@, n as int, now) && (forall|j: int|
                0 <= j < n ==> !airs_at_or_after(episodes@, j, now)),
            next is None ==> forall|j: int| 0 <= j < i ==> !airs_at_or_after(episodes@, j, now),
        decreases episodes@.len() - i,
    {
        match episodes[i].airstamp {
            Some(d) => {
                if d < now {
                    previous = Some(i);
                } else if next.is_none() {
                    next = Some(i);
                }
            },
            None => {},
        }
        i = i + 1;
    }
    (previous, next)
}

/// A number padded to two digits.
pub open spec fn pad2(n: nat) -> Seq<char> {
    if n < 10 {
        "0"@ + dec_rep(n)
    } else {
        dec_rep(n)
    }
}

/// The `S..E..` code of an episode.
pub open spec fn episode_code_spec(season: u32, number: u32) -> Seq<char> {
    "S"@ + pad2(season as nat) + "E"@ + pad2(number as nat)
}

/// Render an episode's season/number code, both padded to two digits.
pub fn episode_code(season: u32, number: u32) -> (r: String)
    ensures
        r@ == episode_code_spec(season, number),
{
    let mut out = String::new();
    out.append("S");
    if season < 10 {
        out.append("0");
    }
    push_dec(&mut out, season as u64);
    out.append("E");
    if number < 10 {
        out.append("0");
    }
    push_dec(&mut out, number as u64);
    proof {
        assert(out@ =~= episode_code_spec(season, number));
    }
    out
}

/// The reply's first line: the show's name, and a link to its entry in the
/// film database when one is known.
pub fn format_show_header(name: &str, imdb: &Option<String>) -> (r: String)
    ensures
        imdb matches Some(id) ==> r@ == name@ + " <http://www.imdb.com/title/"@ + id@ + ">"@,
        imdb is None ==> r@ == name@,
{
    let mut out = String::new();
    out.append(name);
    match imdb {
        Some(id) => {
            out.append(" <http://www.imdb.com/title/");
            out.append(id.as_str());
            out.append(">");
            proof {
                assert(out@ =~= name@ + " <http://www.imdb.com/title/"@ + imdb->Some_0@ + ">"@);
            }
        },
        None => {
            proof {
                assert(out@ =~= name@);
            }
        },
    }
    out
}

/// One line about an episode: its code, its name, and either the rendered
/// air time with its human-relative form, or a question mark when the air
/// time is unknown. Rendering the air time is the caller's job.
pub fn build_episode_line(episode: &Episode, rendered_time: Option<(String, String)>) -> (r:
    String)
    ensures
        rendered_time matches Some(t) ==> r@ == episode_code_spec(episode.season, episode.number)
            + " - "@ + episode.name@ + " ("@ + t.0@ + ", "@ + t.1@ + ")"@,
        rendered_time is None ==> r@ == episode_code_spec(episode.season, episode.number) + " - "@
            + episode.name@ + " (?)"@,
{
    let mut out = episode_code(episode.season, episode.number);
    out.append(" - ");
    out.append(episode.name.as_str());
    match &rendered_time {
        Some(t) => {
            out.append(" (");
            out.append(t.0.as_str());
            out.append(", ");
            out.append(t.1.as_str());
            out.append(")");
            proof {
                assert(out@ =~= episode_code_spec(episode.season, episode.number) + " - "@
                    + episode.name@ + " ("@ + rendered_time->Some_0.0@ + ", "@
                    + rendered_time->Some_0.1@ + ")"@);
            }
        },
        None => {
            out.append(" (?)");
            proof {
                assert(out@ =~= episode_code_spec(episode.season, episode.number) + " - "@
                    + episode.name@ + " (?)"@);
            }
        },
    }
    out
}

} // verus!
