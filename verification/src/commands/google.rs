//! The web-search command's compute parts: building the request URL and
//! shaping the winning result into a reply.

use std::sync::Arc;

use vstd::prelude::*;
use vstd::string::StringExecFns;

use crate::utils::google::search_url_spec;
use crate::utils::google::GoogleSearchItem;
use crate::utils::google::GoogleSearcher;
use crate::utils::google::SearchMode;

verus! {

pub struct GoogleCommand {
    pub google_searcher: Arc<GoogleSearcher>,
}

impl GoogleCommand {
    /// The request URL for a web search over the given terms.
    pub fn query_url(&self, terms: &str) -> (r: String)
        ensures
            r@ == search_url_spec(
                self.google_searcher.google_key@,
                self.google_searcher.google_cse_id@,
                terms@,
                false,
            ),
    {
        self.google_searcher.build_search_url(terms, &SearchMode::Web)
    }

    /// The reply for the winning result: its title and its link.
    pub fn format_result(item: &GoogleSearchItem) -> (r: String)
        ensures
            r@ == item.title@ + " - "@ + item.link@,
    {
        let mut out = String::new();
        out.append(item.title.as_str());
        out.append(" - ");
        out.append(item.link.as_str());
        proof {
            assert(out@ =~= item.title@ + " - "@ + item.link@);
        }
        out
    }
}

} // verus!
