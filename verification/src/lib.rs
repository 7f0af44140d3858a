//! A typed client for the PBS Media Manager REST API.
//!
//! The crate builds the URL of every request, states what a request carries
//! and classifies what the server sent back. It performs no input or output
//! of its own: a caller hands each [`Request`] to a transport and gives the
//! transport's report back to [`Client::finish`].
use vstd::prelude::*;

pub mod authorization;
pub mod cli;
pub mod client;
pub mod endpoints;
pub mod error;
pub mod json;
pub mod move_request;
pub mod request;
pub mod resources;
pub mod response;
pub mod text;
pub mod url;

pub use crate::client::Client;
pub use crate::endpoints::Endpoints;
pub use crate::error::{MMCError, MMCResult};
