//! What a transport reports of a request, and what the client makes of it.
use crate::client::Client;
use crate::error::{outcome, Failure, MMCError, MMCResult};
use crate::text::string_from_utf8;
use vstd::prelude::*;
use vstd::utf8::*;

verus! {

/// 200 OK.
pub const OK: u16 = 200;

/// 204 No Content.
pub const NO_CONTENT: u16 = 204;

/// 400 Bad Request.
pub const BAD_REQUEST: u16 = 400;

/// 401 Unauthorized.
pub const UNAUTHORIZED: u16 = 401;

/// 403 Forbidden.
pub const FORBIDDEN: u16 = 403;

/// 404 Not Found.
pub const NOT_FOUND: u16 = 404;

/// What reading a response body gave: its bytes, or the transport's account
/// of why it could not be read to its end.
pub type Body = Result<Vec<u8>, String>;

/// What came of sending a request: a response, or the transport's account of
/// why none arrived.
pub type Delivery = Result<Response, String>;

/// A response of the server.
#[derive(Debug, PartialEq, Eq)]
pub struct Response {
    /// The status code.
    pub status: u16,
    /// What reading the body gave. Where [`Client::wants_body`] is false of the
    /// status the body need not be read: any value may stand here.
    pub body: Body,
}

/// A [`Response`] as a mathematical value.
pub struct ResponseView {
    pub status: u16,
    pub body: Result<Seq<u8>, Seq<char>>,
}

/// A [`Body`] as a mathematical value.
pub open spec fn body_view(body: Body) -> Result<Seq<u8>, Seq<char>> {
    match body {
        Ok(bytes) => Ok(bytes@),
        Err(cause) => Err(cause@),
    }
}

impl View for Response {
    type V = ResponseView;

    open spec fn view(&self) -> ResponseView {
        ResponseView { status: self.status, body: body_view(self.body) }
    }
}

/// A [`Delivery`] as a mathematical value.
pub open spec fn delivery_view(delivery: Delivery) -> Result<ResponseView, Seq<char>> {
    match delivery {
        Ok(response) => Ok(response@),
        Err(cause) => Err(cause@),
    }
}

/// Whether the body of a response with this status is read at all.
pub open spec fn body_matters(status: u16) -> bool {
    status == OK || status == NO_CONTENT || status == BAD_REQUEST
}

/// The text of a body: a body that could not be read is an `Io` failure,
/// bytes that are not UTF-8 are a `Convert` failure, and other bytes are the
/// characters that they encode.
pub open spec fn body_text(body: Result<Seq<u8>, Seq<char>>) -> Result<Seq<char>, Failure> {
    match body {
        Ok(bytes) => if valid_utf8(bytes) {
            Ok(decode_utf8(bytes))
        } else {
            Err(Failure::Convert)
        },
        Err(cause) => Err(Failure::Io(cause)),
    }
}

/// The text of the body of a 400 response, as the failure that it is.
pub open spec fn bad_request(body: Result<Seq<u8>, Seq<char>>) -> Result<Seq<char>, Failure> {
    match body_text(body) {
        Ok(text) => Err(Failure::BadRequest(text)),
        Err(failure) => Err(failure),
    }
}

/// What a response means, by its status: 200 and 204 give the body's text,
/// 400 gives the body's text as a failure, 401 and 403 mean that the
/// credentials were refused, 404 that the resource is missing, and every
/// other status is a failure that holds the status.
pub open spec fn classified(response: ResponseView) -> Result<Seq<char>, Failure> {
    if response.status == OK || response.status == NO_CONTENT {
        body_text(response.body)
    } else if response.status == BAD_REQUEST {
        bad_request(response.body)
    } else if response.status == UNAUTHORIZED || response.status == FORBIDDEN {
        Err(Failure::NotAuthorized)
    } else if response.status == NOT_FOUND {
        Err(Failure::ResourceNotFound)
    } else {
        Err(Failure::APIFailure(response.status))
    }
}

/// What a delivery means: a request that did not get through is a `Network`
/// failure, and a response means what [`classified`] says.
pub open spec fn settled(delivery: Result<ResponseView, Seq<char>>) -> Result<
    Seq<char>,
    Failure,
> {
    match delivery {
        Ok(response) => classified(response),
        Err(cause) => Err(Failure::Network(cause)),
    }
}

impl Client {
    /// Whether the body of a response with this status has to be read. A
    /// transport may leave the body of any other response unread.
    pub fn wants_body(status: u16) -> (wanted: bool)
        ensures
            wanted == body_matters(status),
    {
        status == OK || status == NO_CONTENT || status == BAD_REQUEST
    }

    /// Turns what reading a body gave into its text.
    pub fn parse_response_body(body: Body) -> (text: MMCResult<String>)
        ensures
            outcome(text) == body_text(body_view(body)),
    {
        match body {
            Ok(bytes) => match string_from_utf8(bytes) {
                Ok(decoded) => Ok(decoded),
                Err(cause) => Err(MMCError::Convert(cause)),
            },
            Err(cause) => Err(MMCError::Io(cause)),
        }
    }

    /// The result of a request that the server accepted: the body's text.
    pub fn parse_success(body: Body) -> (text: MMCResult<String>)
        ensures
            outcome(text) == body_text(body_view(body)),
    {
        Client::parse_response_body(body)
    }

    /// The result of a request that the server did not understand: a
    /// `BadRequest` that holds the body's text, unless the body itself could
    /// not be had.
    pub fn parse_bad_request(body: Body) -> (refused: MMCResult<String>)
        ensures
            outcome(refused) == bad_request(body_view(body)),
    {
        match Client::parse_response_body(body) {
            Ok(text) => Err(MMCError::BadRequest(text)),
            Err(error) => Err(error),
        }
    }

    /// The result of a request, from the response to it.
    pub fn handle_response(response: Response) -> (result: MMCResult<String>)
        ensures
            outcome(result) == classified(response@),
    {
        let status = response.status;
        if status == OK || status == NO_CONTENT {
            Client::parse_success(response.body)
        } else if status == BAD_REQUEST {
            Client::parse_bad_request(response.body)
        } else if status == UNAUTHORIZED || status == FORBIDDEN {
            Err(MMCError::NotAuthorized)
        } else if status == NOT_FOUND {
            Err(MMCError::ResourceNotFound)
        } else {
            Err(MMCError::APIFailure(status))
        }
    }

    /// The result of a request, from what the transport reports of it.
    pub fn finish(delivery: Delivery) -> (result: MMCResult<String>)
        ensures
            outcome(result) == settled(delivery_view(delivery)),
    {
        match delivery {
            Ok(response) => Client::handle_response(response),
            Err(cause) => Err(MMCError::Network(cause)),
        }
    }
}

/// A request succeeds exactly when the server answered 200 or 204 and the
/// body was read and is UTF-8; its result is then the text of the body.
pub proof fn lemma_success(response: ResponseView)
    ensures
        classified(response) is Ok <==> (response.status == OK || response.status == NO_CONTENT)
            && response.body is Ok && valid_utf8(response.body->Ok_0),
        classified(response) is Ok ==> classified(response) == Ok::<Seq<char>, Failure>(
            decode_utf8(response.body->Ok_0),
        ),
{
}

/// Where the body need not be read, it has no part in the result.
pub proof fn lemma_unread_body_is_ignored(
    status: u16,
    first: Result<Seq<u8>, Seq<char>>,
    second: Result<Seq<u8>, Seq<char>>,
)
    requires
        !body_matters(status),
    ensures
        classified(ResponseView { status, body: first }) == classified(
            ResponseView { status, body: second },
        ),
{
}

/// The text that a server sends is the text that comes back: a body that is
/// the UTF-8 encoding of `text` is read as `text`, with a 200 or 204 as the
/// result and with a 400 as the message of the failure.
pub proof fn lemma_body_comes_back(status: u16, text: Seq<char>)
    ensures
        status == OK || status == NO_CONTENT ==> classified(
            ResponseView { status, body: Ok(encode_utf8(text)) },
        ) == Ok::<Seq<char>, Failure>(text),
        status == BAD_REQUEST ==> classified(
            ResponseView { status, body: Ok(encode_utf8(text)) },
        ) == Err::<Seq<char>, Failure>(Failure::BadRequest(text)),
{
    encode_utf8_valid_utf8(text);
    encode_utf8_decode_utf8(text);
}

} // verus!
