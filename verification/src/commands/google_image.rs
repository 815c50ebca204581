//! The image-search command's compute parts: building the request URL and
//! picking the reply out of the winning result.

use std::sync::Arc;

use vstd::prelude::*;
use vstd::string::StringExecFns;

use crate::utils::google::search_url_spec;
use crate::utils::google::GoogleSearchItem;
use crate::utils::google::GoogleSearcher;
use crate::utils::google::SearchMode;

verus! {

pub struct GoogleImageCommand {
    pub google_searcher: Arc<GoogleSearcher>,
}

impl GoogleImageCommand {
    /// The request URL for an image search over the given terms.
    pub fn query_url(&self, terms: &str) -> (r: String)
        ensures
            r@ == search_url_spec(
                self.google_searcher.google_key@,
                self.google_searcher.google_cse_id@,
                terms@,
                true,
            ),
    {
        self.google_searcher.build_search_url(terms, &SearchMode::Image)
    }

    /// The reply for the winning result: its link alone.
    pub fn format_result(item: &GoogleSearchItem) -> (r: String)
        ensures
            r@ == item.link@,
    {
        item.link.clone()
    }
}

} // verus!
