//! The magic eight-ball: a fixed list of answers, one drawn uniformly at
//! random and wrapped in the ball marker.

use vstd::prelude::*;
use vstd::string::StringExecFns;

use crate::rng::random_below;

verus! {

/// The fixed answers, from stalling to certain to negative.
pub open spec fn answers_spec() -> Seq<Seq<char>> {
    seq![
        "Essaye plus tard"@,
        "Essaye encore"@,
        "Pas d'avis"@,
        "C'est ton destin"@,
        "Le sort en est jeté"@,
        "Une chance sur deux"@,
        "Repose ta question"@,
        "D'après moi oui"@,
        "C'est certain"@,
        "Oui absolument"@,
        "Tu peux compter dessus"@,
        "Sans aucun doute"@,
        "Très probable"@,
        "Oui"@,
        "C'est bien parti"@,
        "C'est non"@,
        "Peu probable"@,
        "Faut pas rêver"@,
        "N'y compte pas"@,
        "Impossible"@,
    ]
}

/// An answer wrapped in the ball marker.
pub open spec fn ball_reply_spec(answer: Seq<char>) -> Seq<char> {
    "🎱 "@ + answer + " 🎱"@
}

pub struct EightBallCommand {}

impl EightBallCommand {
    /// Reply with one of the fixed answers, chosen uniformly at random,
    /// wrapped in the ball marker.
    pub fn handle(&self) -> (r: String)
        ensures
            exists|i: int| 0 <= i < answers_spec().len() && r@ == ball_reply_spec(#[trigger] answers_spec()[i]),
    {
        let answers: Vec<&str> = vec![
            "Essaye plus tard",
            "Essaye encore",
            "Pas d'avis",
            "C'est ton destin",
            "Le sort en est jeté",
            "Une chance sur deux",
            "Repose ta question",
            "D'après moi oui",
            "C'est certain",
            "Oui absolument",
            "Tu peux compter dessus",
            "Sans aucun doute",
            "Très probable",
            "Oui",
            "C'est bien parti",
            "C'est non",
            "Peu probable",
            "Faut pas rêver",
            "N'y compte pas",
            "Impossible",
        ];
        proof {
            assert(answers.deep_view() =~= answers_spec());
        }
        let i = random_below(answers.len());
        let mut out = String::new();
        out.append("🎱 ");
        out.append(answers[i]);
        out.append(" 🎱");
        proof {
            assert(answers.deep_view()[i as int] == answers@[i as int]@);
            assert(out@ =~= ball_reply_spec(answers_spec()[i as int]));
        }
        out
    }
}

} // verus!
