//! What the client asks a transport to send.
use vstd::prelude::*;

verus! {

/// The HTTP methods that the client uses.
#[derive(Clone, Copy, Debug, PartialEq, Eq, Structural)]
pub enum Method {
    Get,
    Post,
    Patch,
    Delete,
}

/// The key and the secret that a request is signed with, as the user and the
/// password of HTTP Basic authentication.
#[derive(Debug, PartialEq, Eq)]
pub struct Credentials {
    pub key: String,
    pub secret: String,
}

/// One request, ready for a transport.
#[derive(Debug, PartialEq, Eq)]
pub struct Request {
    /// The method of the request.
    pub method: Method,
    /// The full URL, query string included.
    pub url: String,
    /// The credentials that the `Authorization` header is made of.
    pub auth: Credentials,
    /// Whether the request carries `Connection: close`.
    pub close: bool,
    /// The JSON text that the request carries as its body, if it has one.
    pub body: Option<String>,
}

/// A [`Request`] as a mathematical value.
pub struct RequestView {
    pub method: Method,
    pub url: Seq<char>,
    pub auth: (Seq<char>, Seq<char>),
    pub close: bool,
    pub body: Option<Seq<char>>,
}

impl View for Request {
    type V = RequestView;

    open spec fn view(&self) -> RequestView {
        RequestView {
            method: self.method,
            url: self.url@,
            auth: (self.auth.key@, self.auth.secret@),
            close: self.close,
            body: match self.body {
                Some(text) => Some(text@),
                None => None,
            },
        }
    }
}

} // verus!
