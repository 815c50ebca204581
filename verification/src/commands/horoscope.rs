//! The horoscope command's compute parts: the fixed zodiac-sign map, in
//! its insertion order, and the lookup from a sign to its site number.
//! Fetching and scraping the page stay with the collaborator layer.

use vstd::prelude::*;
use vstd::string::StringExecFns;

use crate::text::str_eq;

verus! {

/// The twelve signs, in order, each with the site's sign number.
pub open spec fn sign_pairs() -> Seq<(Seq<char>, Seq<char>)> {
    seq![
        ("Bélier"@, "1"@),
        ("Taureau"@, "2"@),
        ("Gémeaux"@, "3"@),
        ("Cancer"@, "4"@),
        ("Lion"@, "5"@),
        ("Vierge"@, "6"@),
        ("Balance"@, "7"@),
        ("Scorpion"@, "8"@),
        ("Sagittaire"@, "9"@),
        ("Capricorne"@, "10"@),
        ("Verseau"@, "11"@),
        ("Poissons"@, "12"@),
    ]
}

pub struct HoroscopeCommand {}

/// The sign map as a vector of pairs, keys in insertion order.
pub fn build_sign_map() -> (r: Vec<(String, String)>)
    ensures
        r@.len() == sign_pairs().len(),
        forall|k: int|
            0 <= k < r@.len() ==> ((#[trigger] r@[k]).0@, r@[k].1@) == sign_pairs()[k],
{
    let mut m: Vec<(String, String)> = Vec::new();
    m.push((String::from_str("Bélier"), String::from_str("1")));
    m.push((String::from_str("Taureau"), String::from_str("2")));
    m.push((String::from_str("Gémeaux"), String::from_str("3")));
    m.push((String::from_str("Cancer"), String::from_str("4")));
    m.push((String::from_str("Lion"), String::from_str("5")));
    m.push((String::from_str("Vierge"), String::from_str("6")));
    m.push((String::from_str("Balance"), String::from_str("7")));
    m.push((String::from_str("Scorpion"), String::from_str("8")));
    m.push((String::from_str("Sagittaire"), String::from_str("9")));
    m.push((String::from_str("Capricorne"), String::from_str("10")));
    m.push((String::from_str("Verseau"), String::from_str("11")));
    m.push((String::from_str("Poissons"), String::from_str("12")));
    m
}

/// The site's number for a sign name; none for an unknown sign.
pub fn sign_number(sign: &str) -> (r: Option<String>)
    ensures
        r is Some <==> exists|k: int|
            0 <= k < sign_pairs().len() && (#[trigger] sign_pairs()[k]).0 == sign@,
        r matches Some(v) ==> exists|k: int|
            0 <= k < sign_pairs().len() && (#[trigger] sign_pairs()[k]).0 == sign@ && v@
                == sign_pairs()[k].1,
{
    let map = build_sign_map();
    let mut i: usize = 0;
    while i < map.len()
        invariant
            0 <= i <= map@.len(),
            map@.len() == sign_pairs().len(),
            forall|k: int|
                0 <= k < map@.len() ==> ((#[trigger] map@[k]).0@, map@[k].1@) == sign_pairs()[k],
            forall|k: int| 0 <= k < i ==> (#[trigger] sign_pairs()[k]).0 != sign@,
        decreases map@.len() - i,
    {
        if str_eq(map[i].0.as_str(), sign) {
            return Some(map[i].1.clone());
        }
        i = i + 1;
    }
    None
}

} // verus!
