//! The franchises endpoint.
use crate::client::{no_params, Client};
use crate::endpoints::Endpoints;
use crate::request::{Method, Request};
use crate::resources::request::{rq_get, signed};
use crate::url::url_text;
use vstd::prelude::*;

verus! {

/// A handle on the franchises of the API at `base`.
#[derive(Clone, Copy, Debug)]
pub struct FranchiseEndpoint<'a> {
    pub key: &'a str,
    pub secret: &'a str,
    pub base: &'a str,
}

impl<'a> FranchiseEndpoint<'a> {
    /// A handle on the franchises of the API at `base`, for the given
    /// credentials.
    pub fn new(key: &'a str, secret: &'a str, base: &'a str) -> (handle: FranchiseEndpoint<'a>)
        ensures
            handle.key@ == key@,
            handle.secret@ == secret@,
            handle.base@ == base@,
    {
        FranchiseEndpoint { key: key, secret: secret, base: base }
    }

    /// Fetches the franchise `id`.
    pub fn get(&self, id: &str) -> (request: Request)
        ensures
            request@ == signed(
                self.key@,
                self.secret@,
                Method::Get,
                url_text(self.base@, None, Endpoints::Franchise, Some(id@), Seq::empty()),
            ),
    {
        let url = Client::build_url(self.base, None, Endpoints::Franchise, Some(id), no_params());
        rq_get(self.key, self.secret, url.as_str())
    }

    /// Fetches the franchises.
    pub fn list(&self) -> (request: Request)
        ensures
            request@ == signed(
                self.key@,
                self.secret@,
                Method::Get,
                url_text(self.base@, None, Endpoints::Franchise, None, Seq::empty()),
            ),
    {
        let url = Client::build_url(self.base, None, Endpoints::Franchise, None, no_params());
        rq_get(self.key, self.secret, url.as_str())
    }
}

} // verus!
