//! A query of the command-line front end, from its arguments to what is
//! shown.
use crate::cli::config::Config;
use crate::cli::error::{CLIError, CliFailure};
use crate::client::{Client, LIVE_URL, STAGING_URL};
use crate::endpoints::Endpoints;
use crate::error::{outcome, Failure, MMCResult};
use crate::json::{is_json, json_pretty, json_value, pretty_printed};
use crate::request::{Method, Request, RequestView};
use crate::url::url_text;
use vstd::prelude::*;

verus! {

/// The base URL of the API that a query goes to.
pub open spec fn base_of(is_staging: bool) -> Seq<char> {
    if is_staging {
        STAGING_URL@
    } else {
        LIVE_URL@
    }
}

/// The request of a query for the resource `id` of kind `endpoint`: a signed
/// `GET` of the resource at the chosen API, or the failure that the
/// configuration has no credentials for that API.
pub open spec fn query_request(
    config: Config,
    is_staging: bool,
    endpoint: Endpoints,
    id: Seq<char>,
) -> Result<RequestView, CliFailure> {
    match config.chosen(is_staging) {
        Some(credentials) => Ok(
            RequestView {
                method: Method::Get,
                url: url_text(base_of(is_staging), None, endpoint, Some(id), Seq::empty()),
                auth: (credentials.key@, credentials.secret@),
                close: true,
                body: None,
            },
        ),
        None => Err(CliFailure::EndpointConfigMissing),
    }
}

/// The request of a query whose endpoint is given by name: a name that
/// names no endpoint is a failure, whatever the configuration holds.
pub open spec fn named_query_request(
    config: Config,
    is_staging: bool,
    name: Seq<char>,
    id: Seq<char>,
) -> Result<RequestView, CliFailure> {
    match Endpoints::named(name) {
        Some(endpoint) => query_request(config, is_staging, endpoint, id),
        None => Err(CliFailure::Endpoint),
    }
}

/// The result of making a request, as a mathematical value.
pub open spec fn made_view(made: Result<Request, CLIError>) -> Result<RequestView, CliFailure> {
    match made {
        Ok(request) => Ok(request@),
        Err(error) => Err(error@),
    }
}

/// What is shown, as a mathematical value.
pub open spec fn shown_view(shown: Result<String, CLIError>) -> Result<Seq<char>, CliFailure> {
    match shown {
        Ok(text) => Ok(text@),
        Err(error) => Err(error@),
    }
}

/// What is shown of a text: a JSON document is shown pretty-printed, and any
/// other text is a `Format` failure.
pub open spec fn shown_text(text: Seq<char>) -> Result<Seq<char>, CliFailure> {
    if is_json(text) {
        Ok(pretty_printed(text))
    } else {
        Err(CliFailure::Format)
    }
}

/// What is shown of the result of a query: the body of a successful one as
/// [`shown_text`] says, and a failed one as a `Network` failure that holds
/// the query's failure.
pub open spec fn shown_result(result: Result<Seq<char>, Failure>) -> Result<
    Seq<char>,
    CliFailure,
> {
    match result {
        Ok(body) => shown_text(body),
        Err(failure) => Err(CliFailure::Network(failure)),
    }
}

/// The request that asks the production API, or the staging API where
/// `is_staging` is set, for the resource `id` of kind `endpoint`.
pub fn rq_endpoint(
    config: &Config,
    is_staging: bool,
    endpoint: Endpoints,
    id: &str,
) -> (made: Result<Request, CLIError>)
    ensures
        made_view(made) == query_request(*config, is_staging, endpoint, id@),
{
    let conf = if is_staging {
        &config.staging
    } else {
        &config.live
    };
    match conf {
        Some(key_sec) => {
            let client = if is_staging {
                Client::staging(key_sec.key.as_str(), key_sec.secret.as_str())
            } else {
                Client::new(key_sec.key.as_str(), key_sec.secret.as_str())
            };
            Ok(client.get(endpoint, id, None))
        },
        None => Err(CLIError::EndpointConfigMissing),
    }
}

/// The request of a query whose endpoint is given by name.
pub fn rq_named_endpoint(
    config: &Config,
    is_staging: bool,
    name: &str,
    id: &str,
) -> (made: Result<Request, CLIError>)
    ensures
        made_view(made) == named_query_request(*config, is_staging, name@, id@),
{
    match Endpoints::from_str(name) {
        Ok(endpoint) => rq_endpoint(config, is_staging, endpoint, id),
        Err(_) => Err(CLIError::Endpoint),
    }
}

/// What is shown of the result of a query: the body of a successful one,
/// pretty-printed, where it is a JSON document. A failed query is a
/// `Network` failure that holds the query's error, and a body that is no
/// JSON document is a `Format` failure.
pub fn handle_client_response(result: MMCResult<String>) -> (shown: Result<String, CLIError>)
    ensures
        shown_view(shown) == shown_result(outcome(result)),
{
    match result {
        Ok(json_string) => to_pretty_print(json_string),
        Err(err) => Err(CLIError::Network(err)),
    }
}

/// Pretty-prints a JSON document. A text that is no JSON document is a
/// `Format` failure.
pub fn to_pretty_print(json_string: String) -> (printed: Result<String, CLIError>)
    ensures
        shown_view(printed) == shown_text(json_string@),
{
    match json_value(json_string.as_str()) {
        Ok(json) => match json_pretty(&json) {
            Ok(text) => Ok(text),
            Err(err) => Err(CLIError::Format(err)),
        },
        Err(err) => Err(CLIError::Format(err)),
    }
}

} // verus!
