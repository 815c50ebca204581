//! The video-search command's compute parts: the site-restricted query,
//! the request URL, and the reply with the optional snippet line.

use std::sync::Arc;

use vstd::prelude::*;
use vstd::string::StringExecFns;

use crate::utils::google::search_url_spec;
use crate::utils::google::GoogleSearchItem;
use crate::utils::google::GoogleSearcher;
use crate::utils::google::SearchMode;

verus! {

/// The search terms restricted to the video site.
pub open spec fn site_query_spec(terms: Seq<char>) -> Seq<char> {
    "site:www.youtube.com "@ + terms
}

pub struct YoutubeCommand {
    pub google_searcher: Arc<GoogleSearcher>,
}

impl YoutubeCommand {
    /// The request URL: a web search over the site-restricted terms.
    pub fn query_url(&self, terms: &str) -> (r: String)
        ensures
            r@ == search_url_spec(
                self.google_searcher.google_key@,
                self.google_searcher.google_cse_id@,
                site_query_spec(terms@),
                false,
            ),
    {
        let mut q = String::new();
        q.append("site:www.youtube.com ");
        q.append(terms);
        proof {
            assert(q@ =~= site_query_spec(terms@));
        }
        self.google_searcher.build_search_url(q.as_str(), &SearchMode::Web)
    }

    /// The reply for the winning result: title and link, then the snippet
    /// on its own line when there is one.
    pub fn format_result(item: &GoogleSearchItem) -> (r: String)
        ensures
            item.snippet matches Some(s) ==> r@ == item.title@ + " - "@ + item.link@ + "\n"@ + s@,
            item.snippet is None ==> r@ == item.title@ + " - "@ + item.link@,
    {
        let mut out = String::new();
        out.append(item.title.as_str());
        out.append(" - ");
        out.append(item.link.as_str());
        match &item.snippet {
            Some(s) => {
                out.append("\n");
                out.append(s.as_str());
                proof {
                    assert(out@ =~= item.title@ + " - "@ + item.link@ + "\n"@
                        + item.snippet->Some_0@);
                }
            },
            None => {
                proof {
                    assert(out@ =~= item.title@ + " - "@ + item.link@);
                }
            },
        }
        out
    }
}

} // verus!
