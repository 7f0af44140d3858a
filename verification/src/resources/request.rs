//! The requests of the resource handles, and what comes of them.
use crate::client::Client;
use crate::endpoints::Endpoints;
use crate::error::{outcome, MMCError, MMCResult};
use crate::request::{Credentials, Method, Request, RequestView};
use crate::response::{delivery_view, settled, Delivery};
use crate::url::url_text;
use vstd::prelude::*;

verus! {

/// A request without a body that is signed with `key` and `secret` and
/// marked to close the connection.
pub open spec fn signed(key: Seq<char>, secret: Seq<char>, method: Method, url: Seq<char>)
    -> RequestView {
    RequestView { method, url, auth: (key, secret), close: true, body: None }
}

/// A `GET` of `url`, signed with `key` and `secret`.
pub fn rq_get(key: &str, secret: &str, url: &str) -> (request: Request)
    ensures
        request@ == signed(key@, secret@, Method::Get, url@),
{
    sign(key, secret, Method::Get, url)
}

/// A `POST` to `url`, signed with `key` and `secret`.
pub fn rq_post(key: &str, secret: &str, url: &str) -> (request: Request)
    ensures
        request@ == signed(key@, secret@, Method::Post, url@),
{
    sign(key, secret, Method::Post, url)
}

/// A `PATCH` of `url`, signed with `key` and `secret`.
pub fn rq_patch(key: &str, secret: &str, url: &str) -> (request: Request)
    ensures
        request@ == signed(key@, secret@, Method::Patch, url@),
{
    sign(key, secret, Method::Patch, url)
}

/// A signed request without a body.
fn sign(key: &str, secret: &str, method: Method, url: &str) -> (request: Request)
    ensures
        request@ == signed(key@, secret@, method, url@),
{
    Request {
        method,
        url: String::from_str(url),
        auth: Credentials { key: String::from_str(key), secret: String::from_str(secret) },
        close: true,
        body: None,
    }
}

/// The result of a request of a resource handle, from what the transport
/// reports of it: a request that did not get through is a `Network`
/// failure, and a response means what its status says.
pub fn rq_make(delivery: Delivery) -> (result: MMCResult<String>)
    ensures
        outcome(result) == settled(delivery_view(delivery)),
{
    match delivery {
        Ok(response) => Client::handle_response(response),
        Err(cause) => Err(MMCError::Network(cause)),
    }
}

/// A handle asks for a resource, and for a list, what a client with the
/// same key, secret and base asks for.
pub proof fn lemma_handle_asks_as_client(
    client: Client,
    kind: Endpoints,
    id: Seq<char>,
    params: Seq<(Seq<char>, Seq<char>)>,
)
    ensures
        signed(
            client.key@,
            client.secret@,
            Method::Get,
            url_text(client.base@, None, kind, Some(id), params),
        ) == client.get_request(kind, id, params),
        signed(
            client.key@,
            client.secret@,
            Method::Get,
            url_text(client.base@, None, kind, None, params),
        ) == client.list_request(kind, params),
{
}

} // verus!
