//! The joke command's compute parts: the API authorization header and the
//! reply assembled from a fetched joke and its optional punch line.

use vstd::prelude::*;
use vstd::string::StringExecFns;

verus! {

pub struct BlagueCommand {
    pub blagues_api_token: String,
}

impl BlagueCommand {
    /// The bearer authorization header for the joke API.
    pub fn auth_header(&self) -> (r: String)
        ensures
            r@ == "Bearer "@ + self.blagues_api_token@,
    {
        let mut out = String::new();
        out.append("Bearer ");
        out.append(self.blagues_api_token.as_str());
        proof {
            assert(out@ =~= "Bearer "@ + self.blagues_api_token@);
        }
        out
    }

    /// The reply: the joke, and the punch line on its own line when there
    /// is one.
    pub fn format_joke(joke: &str, answer: &Option<String>) -> (r: String)
        ensures
            answer matches Some(a) ==> r@ == joke@ + "\n"@ + a@,
            answer is None ==> r@ == joke@,
    {
        let mut out = String::new();
        out.append(joke);
        match answer {
            Some(a) => {
                out.append("\n");
                out.append(a.as_str());
                proof {
                    assert(out@ =~= joke@ + "\n"@ + answer->Some_0@);
                }
            },
            None => {
                proof {
                    assert(out@ =~= joke@);
                }
            },
        }
        out
    }
}

} // verus!
