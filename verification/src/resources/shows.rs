//! The shows endpoint.
use crate::client::{no_params, Client};
use crate::endpoints::Endpoints;
use crate::request::{Method, Request};
use crate::resources::request::{rq_get, signed};
use crate::text::{decimal, decimal_text};
use crate::url::{url_text, Params};
use vstd::prelude::*;

verus! {

/// A handle on the shows of the API at `base`.
#[derive(Clone, Copy, Debug)]
pub struct ShowEndpoint<'a> {
    pub key: &'a str,
    pub secret: &'a str,
    pub base: &'a str,
}

impl<'a> ShowEndpoint<'a> {
    /// A handle on the shows of the API at `base`, for the given
    /// credentials.
    pub fn new(key: &'a str, secret: &'a str, base: &'a str) -> (handle: ShowEndpoint<'a>)
        ensures
            handle.key@ == key@,
            handle.secret@ == secret@,
            handle.base@ == base@,
    {
        ShowEndpoint { key: key, secret: secret, base: base }
    }

    /// Fetches the show `id`.
    pub fn get(&self, id: &str) -> (request: Request)
        ensures
            request@ == signed(
                self.key@,
                self.secret@,
                Method::Get,
                url_text(self.base@, None, Endpoints::Show, Some(id@), Seq::empty()),
            ),
    {
        let url = Client::build_url(self.base, None, Endpoints::Show, Some(id), no_params());
        rq_get(self.key, self.secret, url.as_str())
    }

    /// Fetches one page of the shows.
    pub fn list(&self, page: usize) -> (request: Request)
        ensures
            request@ == signed(
                self.key@,
                self.secret@,
                Method::Get,
                url_text(
                    self.base@,
                    None,
                    Endpoints::Show,
                    None,
                    seq![("page"@, decimal_text(page as nat))],
                ),
            ),
    {
        let number = decimal(page);
        let mut params: Params = Vec::new();
        params.push(("page", number.as_str()));
        proof {
            assert(params.deep_view() =~= seq![("page"@, decimal_text(page as nat))]);
        }
        let url = Client::build_url(self.base, None, Endpoints::Show, None, params);
        rq_get(self.key, self.secret, url.as_str())
    }
}

} // verus!
