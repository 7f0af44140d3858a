//! What a command-line front end decides: which credentials a query runs
//! with, which request it comes to, and what is shown of its result.
pub mod config;
pub mod error;
pub mod query;

pub use self::config::{Config, EndpointConfig};
pub use self::error::CLIError;
