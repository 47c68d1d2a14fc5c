//! The search request to the catalog.

use vstd::prelude::*;
use crate::tui::app::SEARCH_MAX_RESULTS;
use crate::utils::text::{decimal, push_decimal};

verus! {

/// A search for `query` that asks for at most `max_results` results.
#[derive(Debug, PartialEq, Eq)]
pub struct YoutubeRequestBuilder {
    pub query: String,
    pub max_results: u8,
}

/// What a [`YoutubeRequestBuilder`] holds, as mathematical values.
pub struct RequestView {
    pub query: Seq<char>,
    pub max_results: nat,
}

impl View for YoutubeRequestBuilder {
    type V = RequestView;

    open spec fn view(&self) -> RequestView {
        RequestView { query: self.query@, max_results: self.max_results as nat }
    }
}

/// The address of a search: the base address of the catalog, then the
/// parameters. The query and the key are put in as they are.
pub open spec fn request_url(base_url: Seq<char>, request: RequestView, api_key: Seq<char>) -> Seq<
    char,
> {
    base_url + "?part=snippet&q="@ + request.query + "&maxResults="@ + decimal(
        request.max_results,
    ) + "&type=video&key="@ + api_key
}

impl YoutubeRequestBuilder {
    /// A search for `query` that asks for at most ten results.
    pub fn new(query: String) -> (request: Self)
        ensures
            request@ == (RequestView { query: query@, max_results: SEARCH_MAX_RESULTS as nat }),
    {
        YoutubeRequestBuilder { query, max_results: SEARCH_MAX_RESULTS }
    }

    /// The same search, asking for at most `max_results` results.
    pub fn max_results(self, max_results: u8) -> (request: Self)
        ensures
            request@ == (RequestView { query: self@.query, max_results: max_results as nat }),
    {
        let mut request = self;
        request.max_results = max_results;
        request
    }

    /// The address to get for this search, from the base address of the
    /// catalog and the key of the caller.
    pub fn url(&self, base_url: &str, api_key: &str) -> (url: String)
        ensures
            url@ == request_url(base_url@, self@, api_key@),
    {
        let mut url = String::from_str(base_url);
        url.append("?part=snippet&q=");
        url.append(self.query.as_str());
        url.append("&maxResults=");
        push_decimal(&mut url, self.max_results as u64);
        url.append("&type=video&key=");
        url.append(api_key);
        url
    }
}

} // verus!
