//! The client: its credentials, the base URL of the API it talks to, and the
//! request that each operation of the API comes to.
use crate::authorization::basic_authorization;
use crate::endpoints::Endpoints;
use crate::error::{Failure, MMCResult};
use crate::move_request::{MoveRequest, MoveRequestView};
use crate::request::{Credentials, Method, Request, RequestView};
use crate::url::{edit_url_text, url_text, Params};
use vstd::prelude::*;

verus! {

/// The base URL of the production API.
pub const LIVE_URL: &'static str = "https://media.services.pbs.org/api/v1";

/// The base URL of the staging API.
pub const STAGING_URL: &'static str = "https://media-staging.services.pbs.org/api/v1";

/// A client for the Media Manager API: a key, a secret and the base URL that
/// every request of the client starts with.
#[derive(Debug, PartialEq, Eq)]
pub struct Client {
    pub key: String,
    pub secret: String,
    pub base: String,
}

/// The parameters of a call by their characters; a call without parameters
/// has none.
pub open spec fn params_view(params: Option<Params>) -> Seq<(Seq<char>, Seq<char>)> {
    match params {
        Some(given) => given.deep_view(),
        None => Seq::empty(),
    }
}

/// The result of an operation that may refuse to make a request, as a
/// mathematical value.
pub open spec fn request_view(made: MMCResult<Request>) -> Result<RequestView, Failure> {
    match made {
        Ok(request) => Ok(request@),
        Err(error) => Err(error@),
    }
}

impl Client {
    /// A request of this client: signed with its key and its secret, and
    /// marked to close the connection.
    pub open spec fn signed(&self, method: Method, url: Seq<char>, body: Option<Seq<char>>)
        -> RequestView {
        RequestView { method, url, auth: (self.key@, self.secret@), close: true, body }
    }

    /// Whether `request` carries this client's key and secret as its
    /// credentials and asks for the connection to be closed.
    pub open spec fn signs(&self, request: RequestView) -> bool {
        request.auth == (self.key@, self.secret@) && request.close
    }

    /// The request that fetches the resource `id` of kind `endpoint`.
    pub open spec fn get_request(
        &self,
        endpoint: Endpoints,
        id: Seq<char>,
        params: Seq<(Seq<char>, Seq<char>)>,
    ) -> RequestView {
        self.signed(Method::Get, url_text(self.base@, None, endpoint, Some(id), params), None)
    }

    /// The request that fetches the resources of kind `endpoint`.
    pub open spec fn list_request(&self, endpoint: Endpoints, params: Seq<(Seq<char>, Seq<char>)>)
        -> RequestView {
        self.signed(Method::Get, url_text(self.base@, None, endpoint, None, params), None)
    }

    /// The request that fetches the resources of kind `endpoint` under the
    /// parent `parent_id` of kind `parent_endpoint`.
    pub open spec fn child_list_request(
        &self,
        endpoint: Endpoints,
        parent_id: Seq<char>,
        parent_endpoint: Endpoints,
        params: Seq<(Seq<char>, Seq<char>)>,
    ) -> RequestView {
        self.signed(
            Method::Get,
            url_text(self.base@, Some((parent_endpoint, parent_id)), endpoint, None, params),
            None,
        )
    }

    /// The request that creates a resource of kind `endpoint` under the
    /// parent `id` of kind `parent`.
    pub open spec fn create_request(
        &self,
        parent: Endpoints,
        id: Seq<char>,
        endpoint: Endpoints,
        body: Seq<char>,
    ) -> RequestView {
        self.signed(
            Method::Post,
            url_text(self.base@, Some((parent, id)), endpoint, None, Seq::empty()),
            Some(body),
        )
    }

    /// The request that fetches the editable form of a resource.
    pub open spec fn edit_request(&self, endpoint: Endpoints, id: Seq<char>) -> RequestView {
        self.signed(
            Method::Get,
            edit_url_text(self.base@, None, endpoint, Some(id), Seq::empty()),
            None,
        )
    }

    /// The request that updates a resource.
    pub open spec fn update_request(&self, endpoint: Endpoints, id: Seq<char>, body: Seq<char>)
        -> RequestView {
        self.signed(
            Method::Patch,
            edit_url_text(self.base@, None, endpoint, Some(id), Seq::empty()),
            Some(body),
        )
    }

    /// The request that deletes a resource.
    pub open spec fn delete_request(&self, endpoint: Endpoints, id: Seq<char>) -> RequestView {
        self.signed(
            Method::Delete,
            edit_url_text(self.base@, None, endpoint, Some(id), Seq::empty()),
            None,
        )
    }

    /// The request that moves the resource `child_id` of kind
    /// `child_endpoint` under the parent `parent_id` of kind
    /// `parent_endpoint`: a `PATCH` of the resource's plain URL with the move
    /// as its body. Where the parent cannot take the resource there is no
    /// request.
    pub open spec fn change_parent_request(
        &self,
        parent_endpoint: Endpoints,
        parent_id: Seq<char>,
        child_endpoint: Endpoints,
        child_id: Seq<char>,
    ) -> Result<RequestView, Failure> {
        match MoveRequestView::relocating(parent_endpoint, parent_id, child_endpoint, child_id) {
            Ok(body) => Ok(
                self.signed(
                    Method::Patch,
                    url_text(self.base@, None, child_endpoint, Some(child_id), Seq::empty()),
                    Some(body.json_text()),
                ),
            ),
            Err(failure) => Err(failure),
        }
    }

    /// A client for the production API.
    pub fn new(key: &str, secret: &str) -> (client: Client)
        ensures
            client.key@ == key@,
            client.secret@ == secret@,
            client.base@ == LIVE_URL@,
    {
        Client::client_builder(key, secret, LIVE_URL)
    }

    /// A client for the staging API.
    pub fn staging(key: &str, secret: &str) -> (client: Client)
        ensures
            client.key@ == key@,
            client.secret@ == secret@,
            client.base@ == STAGING_URL@,
    {
        Client::client_builder(key, secret, STAGING_URL)
    }

    /// A client for the API at `base`.
    pub fn client_builder(key: &str, secret: &str, base: &str) -> (client: Client)
        ensures
            client.key@ == key@,
            client.secret@ == secret@,
            client.base@ == base@,
    {
        Client {
            key: String::from_str(key),
            secret: String::from_str(secret),
            base: String::from_str(base),
        }
    }

    /// Fetches the resource `id` of kind `endpoint`.
    pub fn get(&self, endpoint: Endpoints, id: &str, params: Option<Params>) -> (request: Request)
        ensures
            request@ == self.get_request(endpoint, id@, params_view(params)),
    {
        self.rq_get(
            Client::build_url(self.base.as_str(), None, endpoint, Some(id), given_or_none(params)),
        )
    }

    /// Fetches the resources of kind `endpoint`.
    pub fn list(&self, endpoint: Endpoints, params: Params) -> (request: Request)
        ensures
            request@ == self.list_request(endpoint, params.deep_view()),
    {
        self.rq_get(Client::build_url(self.base.as_str(), None, endpoint, None, params))
    }

    /// Fetches the resources of kind `endpoint` that belong to the parent
    /// `parent_id` of kind `parent_endpoint`.
    pub fn child_list(
        &self,
        endpoint: Endpoints,
        parent_id: &str,
        parent_endpoint: Endpoints,
        params: Option<Params>,
    ) -> (request: Request)
        ensures
            request@ == self.child_list_request(
                endpoint,
                parent_id@,
                parent_endpoint,
                params_view(params),
            ),
    {
        self.rq_get(
            Client::build_url(
                self.base.as_str(),
                Some((parent_endpoint, parent_id)),
                endpoint,
                None,
                given_or_none(params),
            ),
        )
    }

    /// Creates a resource of kind `endpoint` under the parent `id` of kind
    /// `parent`. `body` is the JSON text of the new resource.
    pub fn create(
        &self,
        parent: Endpoints,
        id: &str,
        endpoint: Endpoints,
        body: &str,
    ) -> (request: Request)
        ensures
            request@ == self.create_request(parent, id@, endpoint, body@),
    {
        self.rq_post(
            Client::build_url(self.base.as_str(), Some((parent, id)), endpoint, None, no_params()),
            body,
        )
    }

    /// Fetches the editable form of the resource `id` of kind `endpoint`.
    pub fn edit(&self, endpoint: Endpoints, id: &str) -> (request: Request)
        ensures
            request@ == self.edit_request(endpoint, id@),
    {
        self.rq_get(
            Client::build_edit_url(self.base.as_str(), None, endpoint, Some(id), no_params()),
        )
    }

    /// Updates the resource `id` of kind `endpoint`. `body` is the JSON text
    /// of the update.
    pub fn update(&self, endpoint: Endpoints, id: &str, body: &str) -> (request: Request)
        ensures
            request@ == self.update_request(endpoint, id@, body@),
    {
        self.rq_patch(
            Client::build_edit_url(self.base.as_str(), None, endpoint, Some(id), no_params()),
            body,
        )
    }

    /// Deletes the resource `id` of kind `endpoint`.
    pub fn delete(&self, endpoint: Endpoints, id: &str) -> (request: Request)
        ensures
            request@ == self.delete_request(endpoint, id@),
    {
        self.rq_delete(
            Client::build_edit_url(self.base.as_str(), None, endpoint, Some(id), no_params()),
        )
    }

    /// Moves the resource `child_id` of kind `child_endpoint` under the
    /// parent `parent_id` of kind `parent_endpoint`. Only a season and a show
    /// can take a resource: for any other parent no request is made.
    pub fn change_parent(
        &self,
        parent_endpoint: Endpoints,
        parent_id: &str,
        child_endpoint: Endpoints,
        child_id: &str,
    ) -> (made: MMCResult<Request>)
        ensures
            request_view(made) == self.change_parent_request(
                parent_endpoint,
                parent_id@,
                child_endpoint,
                child_id@,
            ),
    {
        match MoveRequest::new(&parent_endpoint, parent_id, &child_endpoint, child_id) {
            Ok(move_request) => Ok(
                self.rq_patch(
                    Client::build_url(
                        self.base.as_str(),
                        None,
                        child_endpoint,
                        Some(child_id),
                        no_params(),
                    ),
                    move_request.to_json().as_str(),
                ),
            ),
            Err(error) => Err(error),
        }
    }

    /// Fetches any URL of the API.
    pub fn url(&self, url: &str) -> (request: Request)
        ensures
            request@ == self.signed(Method::Get, url@, None),
    {
        self.rq_get(String::from_str(url))
    }

    /// Fetches one asset.
    pub fn asset(&self, id: &str, params: Option<Params>) -> (request: Request)
        ensures
            request@ == self.get_request(Endpoints::Asset, id@, params_view(params)),
    {
        self.get(Endpoints::Asset, id, params)
    }

    /// Fetches the assets of a parent.
    pub fn assets(
        &self,
        parent_id: &str,
        parent_endpoint: Endpoints,
        params: Option<Params>,
    ) -> (request: Request)
        ensures
            request@ == self.child_list_request(
                Endpoints::Asset,
                parent_id@,
                parent_endpoint,
                params_view(params),
            ),
    {
        self.child_list(Endpoints::Asset, parent_id, parent_endpoint, params)
    }

    /// Fetches the changes.
    pub fn changelog(&self, params: Params) -> (request: Request)
        ensures
            request@ == self.list_request(Endpoints::Changelog, params.deep_view()),
    {
        self.list(Endpoints::Changelog, params)
    }

    /// Fetches one collection.
    pub fn collection(&self, id: &str, params: Option<Params>) -> (request: Request)
        ensures
            request@ == self.get_request(Endpoints::Collection, id@, params_view(params)),
    {
        self.get(Endpoints::Collection, id, params)
    }

    /// Fetches the collections.
    pub fn collections(&self, params: Params) -> (request: Request)
        ensures
            request@ == self.list_request(Endpoints::Collection, params.deep_view()),
    {
        self.list(Endpoints::Collection, params)
    }

    /// Fetches one episode.
    pub fn episode(&self, id: &str, params: Option<Params>) -> (request: Request)
        ensures
            request@ == self.get_request(Endpoints::Episode, id@, params_view(params)),
    {
        self.get(Endpoints::Episode, id, params)
    }

    /// Fetches the episodes of a season.
    pub fn episodes(&self, season_id: &str, params: Option<Params>) -> (request: Request)
        ensures
            request@ == self.child_list_request(
                Endpoints::Episode,
                season_id@,
                Endpoints::Season,
                params_view(params),
            ),
    {
        self.child_list(Endpoints::Episode, season_id, Endpoints::Season, params)
    }

    /// Fetches one franchise.
    pub fn franchise(&self, id: &str, params: Option<Params>) -> (request: Request)
        ensures
            request@ == self.get_request(Endpoints::Franchise, id@, params_view(params)),
    {
        self.get(Endpoints::Franchise, id, params)
    }

    /// Fetches the franchises.
    pub fn franchises(&self, params: Params) -> (request: Request)
        ensures
            request@ == self.list_request(Endpoints::Franchise, params.deep_view()),
    {
        self.list(Endpoints::Franchise, params)
    }

    /// Fetches one season.
    pub fn season(&self, id: &str, params: Option<Params>) -> (request: Request)
        ensures
            request@ == self.get_request(Endpoints::Season, id@, params_view(params)),
    {
        self.get(Endpoints::Season, id, params)
    }

    /// Fetches the seasons of a show.
    pub fn seasons(&self, show_id: &str, params: Option<Params>) -> (request: Request)
        ensures
            request@ == self.child_list_request(
                Endpoints::Season,
                show_id@,
                Endpoints::Show,
                params_view(params),
            ),
    {
        self.child_list(Endpoints::Season, show_id, Endpoints::Show, params)
    }

    /// Fetches one special.
    pub fn special(&self, id: &str, params: Option<Params>) -> (request: Request)
        ensures
            request@ == self.get_request(Endpoints::Special, id@, params_view(params)),
    {
        self.get(Endpoints::Special, id, params)
    }

    /// Fetches the specials of a show.
    pub fn specials(&self, show_id: &str, params: Option<Params>) -> (request: Request)
        ensures
            request@ == self.child_list_request(
                Endpoints::Special,
                show_id@,
                Endpoints::Show,
                params_view(params),
            ),
    {
        self.child_list(Endpoints::Special, show_id, Endpoints::Show, params)
    }

    /// Fetches one show.
    pub fn show(&self, id: &str, params: Option<Params>) -> (request: Request)
        ensures
            request@ == self.get_request(Endpoints::Show, id@, params_view(params)),
    {
        self.get(Endpoints::Show, id, params)
    }

    /// Fetches the shows.
    pub fn shows(&self, params: Params) -> (request: Request)
        ensures
            request@ == self.list_request(Endpoints::Show, params.deep_view()),
    {
        self.list(Endpoints::Show, params)
    }

    /// A request that reads.
    fn rq_get(&self, url: String) -> (request: Request)
        ensures
            request@ == self.signed(Method::Get, url@, None),
    {
        self.rq_send(Method::Get, url, None)
    }

    /// A request that creates.
    fn rq_post(&self, url: String, body: &str) -> (request: Request)
        ensures
            request@ == self.signed(Method::Post, url@, Some(body@)),
    {
        self.rq_send(Method::Post, url, Some(String::from_str(body)))
    }

    /// A request that updates.
    fn rq_patch(&self, url: String, body: &str) -> (request: Request)
        ensures
            request@ == self.signed(Method::Patch, url@, Some(body@)),
    {
        self.rq_send(Method::Patch, url, Some(String::from_str(body)))
    }

    /// A request that deletes.
    fn rq_delete(&self, url: String) -> (request: Request)
        ensures
            request@ == self.signed(Method::Delete, url@, None),
    {
        self.rq_send(Method::Delete, url, None)
    }

    /// Signs a request with the client's credentials and marks it to close
    /// the connection.
    fn rq_send(&self, method: Method, url: String, body: Option<String>) -> (request: Request)
        ensures
            request@ == self.signed(
                method,
                url@,
                match body {
                    Some(text) => Some(text@),
                    None => None,
                },
            ),
    {
        Request {
            method,
            url,
            auth: Credentials { key: self.key.clone(), secret: self.secret.clone() },
            close: true,
            body,
        }
    }
}

/// No parameters.
pub(crate) fn no_params<'a>() -> (params: Params<'a>)
    ensures
        params.deep_view() == Seq::<(Seq<char>, Seq<char>)>::empty(),
{
    let params: Params<'a> = Vec::new();
    assert(params.deep_view() =~= Seq::empty());
    params
}

/// The parameters that were given, or none.
fn given_or_none<'a>(params: Option<Params<'a>>) -> (given: Params<'a>)
    ensures
        given.deep_view() == params_view(params),
{
    match params {
        Some(given) => given,
        None => no_params(),
    }
}

/// Every request of a client carries the client's key and secret as its
/// credentials, and asks for the connection to be closed.
pub proof fn lemma_requests_are_signed(
    client: Client,
    endpoint: Endpoints,
    id: Seq<char>,
    parent: Endpoints,
    parent_id: Seq<char>,
    params: Seq<(Seq<char>, Seq<char>)>,
    body: Seq<char>,
)
    ensures
        client.signs(client.get_request(endpoint, id, params)),
        client.signs(client.list_request(endpoint, params)),
        client.signs(client.child_list_request(endpoint, parent_id, parent, params)),
        client.signs(client.create_request(parent, parent_id, endpoint, body)),
        client.signs(client.edit_request(endpoint, id)),
        client.signs(client.update_request(endpoint, id, body)),
        client.signs(client.delete_request(endpoint, id)),
        client.change_parent_request(parent, parent_id, endpoint, id) matches Ok(request)
            ==> client.signs(request),
{
}

/// The `Authorization` header of every request of a client is `Basic`, a
/// space and the base64 of the client's key, a colon and the client's
/// secret: it is made of the client's credentials and of nothing else.
pub proof fn lemma_requests_carry_the_clients_authorization(
    client: Client,
    endpoint: Endpoints,
    id: Seq<char>,
    parent: Endpoints,
    parent_id: Seq<char>,
    params: Seq<(Seq<char>, Seq<char>)>,
    body: Seq<char>,
)
    ensures
        client.get_request(endpoint, id, params).authorization() == basic_authorization(
            client.key@,
            client.secret@,
        ),
        client.list_request(endpoint, params).authorization() == basic_authorization(
            client.key@,
            client.secret@,
        ),
        client.child_list_request(endpoint, parent_id, parent, params).authorization()
            == basic_authorization(client.key@, client.secret@),
        client.create_request(parent, parent_id, endpoint, body).authorization()
            == basic_authorization(client.key@, client.secret@),
        client.edit_request(endpoint, id).authorization() == basic_authorization(
            client.key@,
            client.secret@,
        ),
        client.update_request(endpoint, id, body).authorization() == basic_authorization(
            client.key@,
            client.secret@,
        ),
        client.delete_request(endpoint, id).authorization() == basic_authorization(
            client.key@,
            client.secret@,
        ),
        client.change_parent_request(parent, parent_id, endpoint, id) matches Ok(request)
            ==> request.authorization() == basic_authorization(client.key@, client.secret@),
        forall|request: RequestView| #[trigger]
            client.signs(request) ==> request.authorization() == basic_authorization(
                client.key@,
                client.secret@,
            ),
{
}

/// A move is refused exactly when the new parent is neither a season nor a
/// show. The failure then holds the plural name of the parent's kind, and
/// there is no request. Otherwise the request is a `PATCH` of the moved
/// resource's plain URL.
pub proof fn lemma_move_needs_season_or_show(
    client: Client,
    parent_endpoint: Endpoints,
    parent_id: Seq<char>,
    child_endpoint: Endpoints,
    child_id: Seq<char>,
)
    ensures
        parent_endpoint != Endpoints::Season && parent_endpoint != Endpoints::Show
            <==> client.change_parent_request(
            parent_endpoint,
            parent_id,
            child_endpoint,
            child_id,
        ) is Err,
        client.change_parent_request(parent_endpoint, parent_id, child_endpoint, child_id)
            matches Err(failure) ==> failure == Failure::UnsupportedMoveParent(
            parent_endpoint.plural_name(),
        ),
        client.change_parent_request(parent_endpoint, parent_id, child_endpoint, child_id)
            matches Ok(request) ==> request.method == Method::Patch && request.url == url_text(
            client.base@,
            None,
            child_endpoint,
            Some(child_id),
            Seq::empty(),
        ),
{
}

} // verus!
