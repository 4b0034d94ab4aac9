//! The remote-gallery provider's query logic: which endpoint to ask and
//! with which parameters. The HTTP calls themselves happen outside the
//! library and hand back plain bytes, which `decode_avatar` turns into
//! an avatar.

use vstd::prelude::*;

verus! {

/// A provider that asks a third-party image-search API for one random
/// squarish photo and downloads it. Holds the client credential and the
/// optional search term the query is built from.
#[derive(Debug)]
pub struct UnsplashProvider {
    pub client_id: String,
    pub query: Option<String>,
}

impl UnsplashProvider {
    pub fn new(client_id: String, query: Option<String>) -> (r: Self)
        ensures
            r.client_id == client_id,
            r.query == query,
    {
        UnsplashProvider { client_id, query }
    }

    /// The search endpoint that returns one random photo.
    pub fn api_endpoint() -> (s: String)
        ensures
            s@ == "https://api.unsplash.com/photos/random"@,
    {
        "https://api.unsplash.com/photos/random".to_owned()
    }

    /// The query parameters of the search call: the client credential,
    /// the squarish orientation, and the search term if one is set.
    pub fn request_params(&self) -> (r: Vec<(String, String)>)
        ensures
            r@.len() == (if self.query is Some {
                3int
            } else {
                2int
            }),
            r@[0].0@ == "client_id"@ && r@[0].1@ == self.client_id@,
            r@[1].0@ == "orientation"@ && r@[1].1@ == "squarish"@,
            self.query matches Some(q) ==> r@[2].0@ == "query"@ && r@[2].1@ == q@,
    {
        let mut params: Vec<(String, String)> = Vec::new();
        params.push(("client_id".to_owned(), self.client_id.clone()));
        params.push(("orientation".to_owned(), "squarish".to_owned()));
        match &self.query {
            Some(q) => {
                params.push(("query".to_owned(), q.clone()));
            },
            None => {},
        }
        params
    }
}

} // verus!
