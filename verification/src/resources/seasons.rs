//! The seasons endpoint.
use crate::client::{no_params, Client};
use crate::endpoints::Endpoints;
use crate::request::{Method, Request};
use crate::resources::request::{rq_get, signed};
use crate::url::url_text;
use vstd::prelude::*;

verus! {

/// A handle on the seasons of the API at `base`.
#[derive(Clone, Copy, Debug)]
pub struct SeasonEndpoint<'a> {
    pub key: &'a str,
    pub secret: &'a str,
    pub base: &'a str,
}

impl<'a> SeasonEndpoint<'a> {
    /// A handle on the seasons of the API at `base`, for the given
    /// credentials.
    pub fn new(key: &'a str, secret: &'a str, base: &'a str) -> (handle: SeasonEndpoint<'a>)
        ensures
            handle.key@ == key@,
            handle.secret@ == secret@,
            handle.base@ == base@,
    {
        SeasonEndpoint { key: key, secret: secret, base: base }
    }

    /// Fetches the season `id`.
    pub fn get(&self, id: &str) -> (request: Request)
        ensures
            request@ == signed(
                self.key@,
                self.secret@,
                Method::Get,
                url_text(self.base@, None, Endpoints::Season, Some(id@), Seq::empty()),
            ),
    {
        let url = Client::build_url(self.base, None, Endpoints::Season, Some(id), no_params());
        rq_get(self.key, self.secret, url.as_str())
    }
}

} // verus!
