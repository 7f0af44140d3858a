//! The failures of the command-line front end.
use crate::error::{Failure, MMCError};
use vstd::prelude::*;

verus! {

/// A failure of the command-line front end.
#[derive(Debug)]
pub enum CLIError {
    /// The configuration file could not be understood.
    InvalidConfig,
    /// The configuration has no credentials for the API that was asked for.
    EndpointConfigMissing,
    /// The text that was given for the endpoint names none.
    Endpoint,
    /// The configuration file could not be read or written; it holds the
    /// account of why.
    ConfigStorageFailure(String),
    /// The result of a query is no JSON document.
    Format(serde_json::Error),
    /// The query itself failed.
    Network(MMCError),
}

/// A [`CLIError`] as a mathematical value: every text by its characters, and
/// the cause of a failed formatting left out.
pub enum CliFailure {
    InvalidConfig,
    EndpointConfigMissing,
    Endpoint,
    ConfigStorageFailure(Seq<char>),
    Format,
    Network(Failure),
}

impl View for CLIError {
    type V = CliFailure;

    open spec fn view(&self) -> CliFailure {
        match *self {
            CLIError::InvalidConfig => CliFailure::InvalidConfig,
            CLIError::EndpointConfigMissing => CliFailure::EndpointConfigMissing,
            CLIError::Endpoint => CliFailure::Endpoint,
            CLIError::ConfigStorageFailure(cause) => CliFailure::ConfigStorageFailure(cause@),
            CLIError::Format(_) => CliFailure::Format,
            CLIError::Network(error) => CliFailure::Network(error@),
        }
    }
}

impl CliFailure {
    /// The text that tells a user of the failure. Where a query failed on a
    /// failed conversion, nothing is said of the text.
    pub open spec fn message(self) -> Seq<char> {
        match self {
            CliFailure::InvalidConfig =>
                "Supplied config.toml could not be understood. Try checking for a misspelled or missing property."@,
            CliFailure::EndpointConfigMissing =>
                "config.toml is missing the key/secret pair for this endpoint."@,
            CliFailure::Endpoint => "Requested endpoint is not in the list of known endpoints."@,
            CliFailure::ConfigStorageFailure(cause) => cause,
            CliFailure::Format => "Failure to format response."@,
            CliFailure::Network(failure) => failure.message(),
        }
    }

    /// Whether [`CliFailure::message`] says what the text is.
    pub open spec fn has_message(self) -> bool {
        self != CliFailure::Network(Failure::Convert)
    }
}

impl CLIError {
    /// The text that tells a user of the error.
    pub fn to_string(&self) -> (text: String)
        ensures
            self@.has_message() ==> text@ == self@.message(),
    {
        match self {
            CLIError::InvalidConfig => String::from_str(
                "Supplied config.toml could not be understood. Try checking for a misspelled or missing property.",
            ),
            CLIError::EndpointConfigMissing => String::from_str(
                "config.toml is missing the key/secret pair for this endpoint.",
            ),
            CLIError::Endpoint => String::from_str(
                "Requested endpoint is not in the list of known endpoints.",
            ),
            CLIError::ConfigStorageFailure(cause) => cause.clone(),
            CLIError::Format(_) => String::from_str("Failure to format response."),
            CLIError::Network(error) => error.to_string(),
        }
    }
}

} // verus!
