use mm_client::request::{Method, Request};
use mm_client::response::{Delivery, Response};
use mm_client::url::Params;
use mm_client::{Client, Endpoints, MMCError, MMCResult};
use std::cell::Cell;
use uuid::Uuid;

const KEY: &str = "hello";
const SECRET: &str = "world";
const BASIC_AUTH: &str = "Basic aGVsbG86d29ybGQ=";
const SERVER_URL: &str = "http://127.0.0.1:1234";

/// What a server is set up to be asked, and what it then answers.
struct Mock {
    method: String,
    path: String,
    headers: Vec<(String, String)>,
    body: Option<String>,
    status: u16,
    answer: String,
    hits: Cell<usize>,
}

fn mock(method: &str, path: &str) -> Mock {
    Mock {
        method: method.to_string(),
        path: path.to_string(),
        headers: Vec::new(),
        body: None,
        status: 200,
        answer: String::new(),
        hits: Cell::new(0),
    }
}

impl Mock {
    fn with_status(mut self, status: u16) -> Mock {
        self.status = status;
        self
    }

    fn with_header(self, _field: &str, _value: &str) -> Mock {
        self
    }

    fn with_body(mut self, body: &str) -> Mock {
        self.answer = body.to_string();
        self
    }

    fn match_header(mut self, field: &str, value: &str) -> Mock {
        self.headers.push((field.to_string(), value.to_string()));
        self
    }

    fn match_body(mut self, body: &str) -> Mock {
        self.body = Some(body.to_string());
        self
    }

    fn create(self) -> Mock {
        self
    }

    fn matches(&self, request: &reqwest::blocking::Request) -> bool {
        let url = request.url();
        let path = match url.query() {
            Some(query) => format!("{}?{}", url.path(), query),
            None => url.path().to_string(),
        };
        let sent = match request.body() {
            Some(body) => body.as_bytes().unwrap_or(&[]).to_vec(),
            None => Vec::new(),
        };
        request.method().as_str() == self.method
            && path == self.path
            && self.headers.iter().all(|(field, value)| {
                request.headers().get(field.as_str()).map(|found| found.as_bytes())
                    == Some(value.as_bytes())
            })
            && self.body.as_ref().map_or(true, |body| body.as_bytes() == sent.as_slice())
    }

    /// The response to a request: the one that was set up where the request
    /// is the expected one, and 501 where it is not.
    fn respond(&self, request: &reqwest::blocking::Request) -> Response {
        if self.matches(request) {
            self.hits.set(self.hits.get() + 1);
            Response { status: self.status, body: Ok(self.answer.clone().into_bytes()) }
        } else {
            Response { status: 501, body: Ok(Vec::new()) }
        }
    }

    fn assert_asked(&self) {
        assert_eq!(self.hits.get(), 1, "expected one {} of {}", self.method, self.path);
    }
}

fn sample_client() -> Client {
    Client::client_builder(KEY, SECRET, SERVER_URL)
}

/// Makes the HTTP request that the transport would send, hands it to the
/// server and reports what came of it.
fn deliver(server: &Mock, request: &Request) -> Delivery {
    let method = match request.method {
        Method::Get => reqwest::Method::GET,
        Method::Post => reqwest::Method::POST,
        Method::Patch => reqwest::Method::PATCH,
        Method::Delete => reqwest::Method::DELETE,
    };
    let network = reqwest::blocking::Client::new();
    let mut builder = network
        .request(method, request.url.as_str())
        .header(reqwest::header::AUTHORIZATION, request.authorization());
    if request.close {
        builder = builder.header(reqwest::header::CONNECTION, "close");
    }
    if let Some(body) = &request.body {
        builder = builder
            .header(reqwest::header::CONTENT_TYPE, "application/json")
            .body(body.clone());
    }
    match builder.build() {
        Ok(built) => Ok(server.respond(&built)),
        Err(error) => Err(error.to_string()),
    }
}

fn send(server: &Mock, request: Request) -> MMCResult<String> {
    Client::finish(deliver(server, &request))
}

fn show_get(server: &Mock, id: &str, params: Option<Params>) -> MMCResult<String> {
    send(server, sample_client().get(Endpoints::Show, id, params))
}

fn show_list(server: &Mock, params: Params) -> MMCResult<String> {
    send(server, sample_client().list(Endpoints::Show, params))
}

fn show_create(server: &Mock, id: &str, body: &str) -> MMCResult<String> {
    send(server, sample_client().create(Endpoints::Show, id, Endpoints::Asset, body))
}

fn show_edit(server: &Mock, id: &str) -> MMCResult<String> {
    send(server, sample_client().edit(Endpoints::Asset, id))
}

fn show_update(server: &Mock, id: &str, body: &str) -> MMCResult<String> {
    send(server, sample_client().update(Endpoints::Asset, id, body))
}

fn show_delete(server: &Mock, id: &str) -> MMCResult<String> {
    send(server, sample_client().delete(Endpoints::Asset, id))
}

fn random_id() -> String {
    Uuid::new_v4().hyphenated().to_string()
}

fn empty_req() -> String {
    serde_json::to_string(&serde_json::Map::new()).unwrap()
}

fn mock_single(endpoint: &str, id: &str, params: Option<&str>) -> Mock {
    mock(
        "GET",
        vec!["/", endpoint, "/", id, "/", params.unwrap_or("")]
            .join("")
            .as_str(),
    )
}

fn mock_create(parent: &str, p_id: &str, endpoint: &str) -> Mock {
    mock(
        "POST",
        vec!["/", parent, "/", p_id, "/", endpoint, "/"]
            .join("")
            .as_str(),
    )
}

fn mock_edit(endpoint: &str, id: &str) -> Mock {
    mock(
        "GET",
        vec!["/", endpoint, "/", id, "/edit/"].join("").as_str(),
    )
}

fn mock_update(endpoint: &str, id: &str) -> Mock {
    mock("PATCH", vec!["/", endpoint, "/", id, "/"].join("").as_str())
}

fn mock_asset_update(endpoint: &str, id: &str) -> Mock {
    mock(
        "PATCH",
        vec!["/", endpoint, "/", id, "/edit/"].join("").as_str(),
    )
}

fn mock_delete(endpoint: &str, id: &str) -> Mock {
    mock(
        "DELETE",
        vec!["/", endpoint, "/", id, "/edit/"].join("").as_str(),
    )
}

fn mock_list(endpoint: &str, param_string: &str) -> Mock {
    mock(
        "GET",
        vec!["/", endpoint, "/", param_string].join("").as_str(),
    )
}

#[test]
fn single_200() {
    let id = random_id();
    let m = mock_single("shows", id.as_str(), None)
        .with_status(200)
        .with_header("content-type", "application/json")
        .with_body("{\"name\":\"value\"}")
        .create();

    let resp = show_get(&m, id.as_str(), None);

    assert_eq!(resp.unwrap(), "{\"name\":\"value\"}");

    m.assert_asked();
}

#[test]
fn single_with_params_200() {
    let id = random_id();
    let param_string = "?param1=value1&param2=value2";

    let m = mock_single("shows", id.as_str(), Some(param_string))
        .with_status(200)
        .with_header("content-type", "application/json")
        .with_body("{\"name\":\"value\"}")
        .create();

    let resp = show_get(
        &m,
        id.as_str(),
        Some(vec![("param1", "value1"), ("param2", "value2")]),
    );

    assert_eq!(resp.unwrap(), "{\"name\":\"value\"}");

    m.assert_asked();
}

#[test]
fn list_200() {
    let param_string = "?param1=value1&param2=value2";

    let m = mock_list("shows", param_string)
        .with_status(200)
        .with_header("content-type", "application/json")
        .with_body("{\"name\":\"value\"}")
        .create();

    let resp = show_list(&m, vec![("param1", "value1"), ("param2", "value2")]);

    assert_eq!(resp.unwrap(), "{\"name\":\"value\"}");

    m.assert_asked();
}

#[test]
fn basic_auth_ok() {
    let id = random_id();
    let mut param_string = "?param=".to_string();
    param_string.push_str(id.as_str());

    let m = mock_list("shows", param_string.as_str())
        .match_header("Authorization", BASIC_AUTH)
        .with_status(200)
        .with_header("content-type", "application/json")
        .with_body("{\"name\":\"value\"}")
        .create();

    let _ = show_list(&m, vec![("param", id.as_str())]);

    m.assert_asked();
}

#[test]
fn get_400() {
    let id = random_id();
    let m = mock_single("shows", id.as_str(), None)
        .with_status(400)
        .with_header("content-type", "application/json")
        .with_body("Failure message from the server")
        .create();

    let resp = show_get(&m, id.as_str(), None);

    match resp.unwrap_err() {
        MMCError::BadRequest(msg) => {
            assert_eq!(msg, "Failure message from the server");
        }
        err => panic!("Expected BadRequest error but recieved {:?}", err),
    }

    m.assert_asked();
}

#[test]
fn get_401() {
    let id = random_id();
    let m = mock_single("shows", id.as_str(), None)
        .with_status(401)
        .create();

    let resp = show_get(&m, id.as_str(), None);

    match resp.unwrap_err() {
        MMCError::NotAuthorized => (),
        err => panic!("Expected NotAuthorized error but recieved {:?}", err),
    }

    m.assert_asked();
}

#[test]
fn get_403() {
    let id = random_id();
    let m = mock_single("shows", id.as_str(), None)
        .with_status(403)
        .create();

    let resp = show_get(&m, id.as_str(), None);

    match resp.unwrap_err() {
        MMCError::NotAuthorized => (),
        err => panic!("Expected NotAuthorized error but recieved {:?}", err),
    }

    m.assert_asked();
}

#[test]
fn get_404() {
    let id = random_id();
    let m = mock_single("shows", id.as_str(), None)
        .with_status(404)
        .create();

    let resp = show_get(&m, id.as_str(), None);

    match resp.unwrap_err() {
        MMCError::ResourceNotFound => (),
        err => panic!("Expected ResourceNotFound error but recieved {:?}", err),
    }

    m.assert_asked();
}

#[test]
fn get_500() {
    let id = random_id();
    let m = mock_single("shows", id.as_str(), None)
        .with_status(500)
        .create();

    let resp = show_get(&m, id.as_str(), None);

    match resp.unwrap_err() {
        MMCError::APIFailure(500) => (),
        err => panic!("Expected APIFailure error but recieved {:?}", err),
    }

    m.assert_asked();
}

#[test]
fn shorthand_singles_200() {
    let id = random_id();

    let endpoints = vec![
        Endpoints::Asset,
        Endpoints::Collection,
        Endpoints::Episode,
        Endpoints::Franchise,
        Endpoints::Season,
        Endpoints::Special,
        Endpoints::Show,
    ];

    for endpoint in endpoints.into_iter() {
        let m = mock_single(endpoint.to_string().as_str(), id.as_str(), None)
            .with_status(200)
            .with_header("content-type", "application/json")
            .with_body("{\"name\":\"value\"}")
            .create();

        let resp = send(&m, sample_client().get(endpoint.clone(), id.as_str(), None));

        assert_eq!(resp.unwrap(), String::from("{\"name\":\"value\"}"));

        m.assert_asked();
    }
}

#[test]
fn shorthand_list_200() {
    let id = random_id();

    let param_string = vec!["?param1=", id.as_str(), "&param2=value2"].join("");
    let params = vec![("param1", id.as_str()), ("param2", "value2")];

    let endpoints = vec![
        Endpoints::Changelog,
        Endpoints::Collection,
        Endpoints::Franchise,
        Endpoints::Show,
    ];

    for endpoint in endpoints.into_iter() {
        let m = mock_list(endpoint.to_string().as_str(), param_string.as_str())
            .with_status(200)
            .with_header("content-type", "application/json")
            .with_body("{\"name\":\"value\"}")
            .create();

        let resp = send(&m, sample_client().list(endpoint.clone(), params.clone()));
        assert_eq!(resp.unwrap(), String::from("{\"name\":\"value\"}"));

        m.assert_asked();
    }
}

#[test]
fn create_204() {
    let p_id = random_id();

    let m = mock_create("shows", p_id.as_str(), "assets")
        .with_status(204)
        .with_header("content-type", "application/json")
        .with_body("")
        .match_body("{}")
        .create();

    let _ = show_create(&m, p_id.as_str(), empty_req().as_str());

    m.assert_asked();
}

#[test]
fn create_400() {
    let p_id = random_id();
    let body = "{\"name\":\"value\"}";
    let server_error = "Payload missing parameter";

    let m = mock_create("shows", p_id.as_str(), "assets")
        .with_status(400)
        .with_header("content-type", "application/json")
        .with_body(server_error)
        .create();

    let resp = show_create(
        &m,
        p_id.as_str(),
        serde_json::to_string(&body).unwrap().as_str(),
    );

    match resp.unwrap_err() {
        MMCError::BadRequest(err) => {
            assert_eq!(err, String::from(server_error));
        }
        err => panic!("Expected BadRequest error but recieved {:?}", err),
    }

    m.assert_asked();
}

#[test]
fn edit_200() {
    let id = random_id();
    let body = "{\"name\":\"value\"}";

    let m = mock_edit("assets", id.as_str())
        .with_status(200)
        .with_header("content-type", "application/json")
        .with_body(body)
        .create();

    let resp = show_edit(&m, id.as_str());
    assert_eq!(resp.unwrap(), body);

    m.assert_asked();
}

#[test]
fn update_200() {
    let id = random_id();

    let m = mock_asset_update("assets", id.as_str())
        .with_status(200)
        .with_header("content-type", "application/json")
        .match_body("{}")
        .create();

    let _ = show_update(&m, id.as_str(), empty_req().as_str());

    m.assert_asked();
}

#[test]
fn delete_200() {
    let id = random_id();

    let m = mock_delete("assets", id.as_str())
        .with_status(200)
        .with_header("content-type", "application/json")
        .match_body("")
        .create();

    let _ = show_delete(&m, id.as_str());

    m.assert_asked();
}

#[test]
fn move_special_to_season() {
    let special_id = random_id();
    let season_id = random_id();
    let body_str = [
        "{\"data\":{\"type\":\"special\",\"id\":\"",
        special_id.as_str(),
        "\",\"attributes\":{\"season\":\"",
        season_id.as_str(),
        "\"}}}",
    ]
    .join("");

    let m = mock_update("specials", special_id.as_str())
        .with_status(204)
        .with_header("content-type", "application/json")
        .with_body("")
        .match_body(body_str.as_str())
        .create();

    let request = sample_client()
        .change_parent(
            Endpoints::Season,
            season_id.as_str(),
            Endpoints::Special,
            special_id.as_str(),
        )
        .unwrap();
    let _ = send(&m, request);

    m.assert_asked();
}
