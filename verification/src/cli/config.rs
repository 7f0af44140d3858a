//! The configuration of the command-line front end.
use vstd::prelude::*;

verus! {

/// The credentials for one API: a key and a secret.
#[derive(Debug, PartialEq, Eq)]
pub struct EndpointConfig {
    pub key: String,
    pub secret: String,
}

/// The credentials for the production API and for the staging API, each of
/// which may be missing.
#[derive(Debug, PartialEq, Eq)]
pub struct Config {
    pub live: Option<EndpointConfig>,
    pub staging: Option<EndpointConfig>,
}

impl Config {
    /// The credentials for the API that a query goes to, if the
    /// configuration has them.
    pub open spec fn chosen(self, is_staging: bool) -> Option<EndpointConfig> {
        if is_staging {
            self.staging
        } else {
            self.live
        }
    }

    /// A configuration with credentials for both APIs.
    pub fn generate(
        live_key: String,
        live_secret: String,
        staging_key: String,
        staging_secret: String,
    ) -> (config: Config)
        ensures
            config.live == Some(EndpointConfig { key: live_key, secret: live_secret }),
            config.staging == Some(EndpointConfig { key: staging_key, secret: staging_secret }),
    {
        Config {
            live: Some(EndpointConfig { key: live_key, secret: live_secret }),
            staging: Some(EndpointConfig { key: staging_key, secret: staging_secret }),
        }
    }
}

} // verus!
