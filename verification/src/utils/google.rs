//! Building search-API request URLs. The HTTP call itself is the
//! collaborator layer's job; this module only assembles the query URL from
//! the configured credentials and the search terms.

use vstd::prelude::*;
use vstd::string::StringExecFns;

verus! {

/// Which index a search runs against.
pub enum SearchMode {
    Web,
    Image,
}

/// One result of the search API.
pub struct GoogleSearchItem {
    pub title: String,
    pub link: String,
    pub snippet: Option<String>,
}

/// The configured search client: an API key and an engine identifier.
pub struct GoogleSearcher {
    pub google_key: String,
    pub google_cse_id: String,
}

/// The application/x-www-form-urlencoded serialization of a text: what
/// url's byte serializer yields, a function of the text alone.
pub uninterp spec fn form_encoded(s: Seq<char>) -> Seq<char>;

/// Relies on url::form_urlencoded::byte_serialize: the form-urlencoded
/// serialization of the text's bytes; empty input stays empty.
#[verifier::external_body]
fn form_encode(s: &str) -> (r: String)
    ensures
        r@ == form_encoded(s@),
        s@.len() == 0 ==> r@.len() == 0,
{
    url::form_urlencoded::byte_serialize(s.as_bytes()).collect()
}

/// The search request URL for the given credentials, terms and mode.
pub open spec fn search_url_spec(
    key: Seq<char>,
    cse_id: Seq<char>,
    terms: Seq<char>,
    image: bool,
) -> Seq<char> {
    "https://www.googleapis.com/customsearch/v1?key="@ + form_encoded(key) + "&cx="@
        + form_encoded(cse_id) + "&q="@ + form_encoded(terms) + if image {
        "&searchType=image"@
    } else {
        Seq::empty()
    }
}

impl GoogleSearcher {
    /// Assemble the request URL; every dynamic part is form-urlencoded.
    pub fn build_search_url(&self, terms: &str, mode: &SearchMode) -> (r: String)
        ensures
            r@ == search_url_spec(
                self.google_key@,
                self.google_cse_id@,
                terms@,
                *mode is Image,
            ),
    {
        let mut out = String::new();
        out.append("https://www.googleapis.com/customsearch/v1?key=");
        out.append(form_encode(self.google_key.as_str()).as_str());
        out.append("&cx=");
        out.append(form_encode(self.google_cse_id.as_str()).as_str());
        out.append("&q=");
        out.append(form_encode(terms).as_str());
        match mode {
            SearchMode::Image => {
                out.append("&searchType=image");
                proof {
                    assert(out@ =~= search_url_spec(
                        self.google_key@,
                        self.google_cse_id@,
                        terms@,
                        true,
                    ));
                }
            },
            SearchMode::Web => {
                proof {
                    assert(out@ =~= search_url_spec(
                        self.google_key@,
                        self.google_cse_id@,
                        terms@,
                        false,
                    ));
                }
            },
        }
        out
    }
}

} // verus!
