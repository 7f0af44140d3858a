//! The failures that a call on the API can end in.
use std::string::FromUtf8Error;
use vstd::prelude::*;

verus! {

/// What every fallible operation of the crate returns.
pub type MMCResult<T> = Result<T, MMCError>;

/// A failure of the client.
#[derive(Debug, PartialEq, Eq)]
pub enum MMCError {
    /// A text that names no endpoint; it holds that text.
    UnknownEndpoint(String),
    /// A move to a parent that is neither a season nor a show; it holds the
    /// plural name of the parent's endpoint.
    UnsupportedMoveParent(String),
    /// The server answered 401 or 403.
    NotAuthorized,
    /// The server answered 404.
    ResourceNotFound,
    /// The server answered 400; it holds the response body as it came.
    BadRequest(String),
    /// The server answered with a status that has no meaning of its own here.
    APIFailure(u16),
    /// The transport could not complete the request; it holds the
    /// transport's account of why.
    Network(String),
    /// The response body could not be read to its end; it holds the
    /// transport's account of why.
    Io(String),
    /// The response body is not UTF-8.
    Convert(FromUtf8Error),
}

/// An [`MMCError`] as a mathematical value: every text by its characters,
/// and the cause of a failed conversion left out.
pub enum Failure {
    UnknownEndpoint(Seq<char>),
    UnsupportedMoveParent(Seq<char>),
    NotAuthorized,
    ResourceNotFound,
    BadRequest(Seq<char>),
    APIFailure(u16),
    Network(Seq<char>),
    Io(Seq<char>),
    Convert,
}

impl View for MMCError {
    type V = Failure;

    open spec fn view(&self) -> Failure {
        match *self {
            MMCError::UnknownEndpoint(text) => Failure::UnknownEndpoint(text@),
            MMCError::UnsupportedMoveParent(name) => Failure::UnsupportedMoveParent(name@),
            MMCError::NotAuthorized => Failure::NotAuthorized,
            MMCError::ResourceNotFound => Failure::ResourceNotFound,
            MMCError::BadRequest(body) => Failure::BadRequest(body@),
            MMCError::APIFailure(status) => Failure::APIFailure(status),
            MMCError::Network(cause) => Failure::Network(cause@),
            MMCError::Io(cause) => Failure::Io(cause@),
            MMCError::Convert(_) => Failure::Convert,
        }
    }
}

/// A result of the client as a mathematical value.
pub open spec fn outcome(result: MMCResult<String>) -> Result<Seq<char>, Failure> {
    match result {
        Ok(body) => Ok(body@),
        Err(error) => Err(error@),
    }
}

impl Failure {
    /// The text that describes the failure to a user. A failed conversion is
    /// described by its cause, of which this value holds nothing: for it the
    /// text is empty.
    pub open spec fn message(self) -> Seq<char> {
        match self {
            Failure::UnknownEndpoint(text) => "Unknown endpoint: "@ + text,
            Failure::UnsupportedMoveParent(name) => "Unsupported parent for a move: "@ + name,
            Failure::NotAuthorized =>
                "Supplied credentials are not authorized to access this resource"@,
            Failure::ResourceNotFound => "Specified resource could not be found"@,
            Failure::BadRequest(_) => "API did not understand request"@,
            Failure::APIFailure(_) => "Unknown failure of the API endpoint"@,
            Failure::Network(cause) => cause,
            Failure::Io(cause) => cause,
            Failure::Convert => Seq::empty(),
        }
    }
}

impl MMCError {
    /// The text that describes the error to a user.
    pub fn to_string(&self) -> (text: String)
        ensures
            self@ !is Convert ==> text@ == self@.message(),
    {
        match self {
            MMCError::UnknownEndpoint(given) => {
                let mut text = String::from_str("Unknown endpoint: ");
                text.append(given.as_str());
                text
            },
            MMCError::UnsupportedMoveParent(name) => {
                let mut text = String::from_str("Unsupported parent for a move: ");
                text.append(name.as_str());
                text
            },
            MMCError::NotAuthorized => String::from_str(
                "Supplied credentials are not authorized to access this resource",
            ),
            MMCError::ResourceNotFound => String::from_str("Specified resource could not be found"),
            MMCError::BadRequest(_) => String::from_str("API did not understand request"),
            MMCError::APIFailure(_) => String::from_str("Unknown failure of the API endpoint"),
            MMCError::Network(cause) => cause.clone(),
            MMCError::Io(cause) => cause.clone(),
            MMCError::Convert(cause) => cause.to_string(),
        }
    }
}

} // verus!
