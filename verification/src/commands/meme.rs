//! The meme command's compute parts: choosing a two-box template at
//! random, and picking caption text from the one-liner store, searched or
//! random, transliterated to ASCII for the image API.

use vstd::prelude::*;

use crate::db::connerie::Connerie;
use crate::db::ContentStore;
use crate::rng::random_below;
use crate::text::split_on;

verus! {

/// One meme template as the image API lists it: its identifier and how
/// many caption boxes it has.
pub struct MemeTemplate {
    pub id: String,
    pub box_count: u32,
}

/// The ASCII transliteration of a text: what unidecode yields, a function
/// of the characters alone.
pub uninterp spec fn ascii_of(s: Seq<char>) -> Seq<char>;

/// Relies on unidecode::unidecode: the ASCII transliteration of the text,
/// a function of its characters alone; empty input stays empty.
#[verifier::external_body]
fn transliterate(s: &str) -> (r: String)
    ensures
        r@ == ascii_of(s@),
        s@.len() == 0 ==> r@.len() == 0,
{
    unidecode::unidecode(s)
}

/// The index of a uniformly chosen template with exactly two caption
/// boxes; none when no template has two.
pub fn pick_two_box_meme(memes: &Vec<MemeTemplate>) -> (r: Option<usize>)
    ensures
        r matches Some(i) ==> i < memes@.len() && memes@[i as int].box_count == 2,
        r is None <==> forall|i: int|
            0 <= i < memes@.len() ==> (#[trigger] memes@[i]).box_count != 2,
{
    let mut candidates: Vec<usize> = Vec::new();
    let mut i: usize = 0;
    while i < memes.len()
        invariant
            0 <= i <= memes@.len(),
            forall|k: int|
                0 <= k < candidates@.len() ==> (#[trigger] candidates@[k]) < memes@.len()
                    && memes@[candidates@[k] as int].box_count == 2,
            candidates@.len() == 0 <==> forall|j: int|
                0 <= j < i ==> (#[trigger] memes@[j]).box_count != 2,
        decreases memes@.len() - i,
    {
        if memes[i].box_count == 2 {
            candidates.push(i);
        }
        i = i + 1;
    }
    if candidates.len() == 0 {
        None
    } else {
        let k = random_below(candidates.len());
        Some(candidates[k])
    }
}

/// The meme command, configured with the image API's credentials.
pub struct MemeCommand {
    pub imgflip_username: String,
    pub imgflip_password: String,
}

impl MemeCommand {
    /// Caption text for one box: a one-liner matching the given term when
    /// one does, else a uniformly random one, transliterated to ASCII.
    /// None exactly when the one-liner store is empty.
    pub fn get_meme_text(&self, store: &ContentStore, term: Option<&str>) -> (r: Option<String>)
        ensures
            r is Some <==> store.conneries@.len() > 0,
            r matches Some(v) ==> exists|i: int|
                0 <= i < store.conneries@.len() && v@ == ascii_of(
                    (#[trigger] store.conneries@[i]).value@,
                ),
    {
        let picked: Option<String> = match term {
            Some(t) => {
                let tokens = split_on(t, ' ');
                match Connerie::search(store, &tokens) {
                    Some(v) => Some(v),
                    None => Connerie::random(store),
                }
            },
            None => Connerie::random(store),
        };
        match picked {
            Some(v) => Some(transliterate(v.as_str())),
            None => None,
        }
    }
}

} // verus!
