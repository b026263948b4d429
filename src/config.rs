//! Service configuration: where the upstream API lives and the credential
//! sent with every outbound call.

use vstd::prelude::*;
use vstd::string::StringExecFns;

verus! {

/// Base URL of the upstream API when none is configured.
pub const DEFAULT_API_URL: &'static str = "https://sandboxapi.bitnob.co";

/// Scheme that precedes the secret in the `Authorization` header.
pub const BEARER_PREFIX: &'static str = "Bearer ";

/// Content type of every outbound body.
pub const CONTENT_TYPE: &'static str = "application/json";

/// Read-only settings shared by every request.
#[derive(Clone, Debug)]
pub struct Config {
    pub api_url: String,
    pub bitnob_secret_key: String,
}

/// Why a configuration could not be built.
#[derive(Clone, Copy, Debug, PartialEq, Eq, Structural)]
pub enum ConfigError {
    MissingSecretKey,
}

impl ConfigError {
    /// Human-readable text of the error.
    pub fn message(&self) -> (r: String)
        ensures
            r@ == MISSING_SECRET_KEY@,
    {
        String::from_str(MISSING_SECRET_KEY)
    }
}

/// Text of `ConfigError::MissingSecretKey`.
pub const MISSING_SECRET_KEY: &'static str = "BITNOB_SECRET_KEY environment variable is required";

impl Config {
    /// Builds the configuration from the values of the `API_URL` and
    /// `BITNOB_SECRET_KEY` settings (`None` where a setting is absent).
    /// The URL falls back to the sandbox; the secret is required.
    pub fn from_env(api_url: Option<String>, secret_key: Option<String>) -> (r: Result<
        Config,
        ConfigError,
    >)
        ensures
            r is Err <==> secret_key is None,
            r is Err ==> r == Err::<Config, ConfigError>(ConfigError::MissingSecretKey),
            r is Ok ==> r->Ok_0.bitnob_secret_key@ == secret_key->0@,
            r is Ok ==> r->Ok_0.api_url@ == (match api_url {
                Some(u) => u@,
                None => DEFAULT_API_URL@,
            }),
    {
        let api_url = match api_url {
            Some(u) => u,
            None => String::from_str(DEFAULT_API_URL),
        };
        match secret_key {
            Some(k) => Ok(Config { api_url, bitnob_secret_key: k }),
            None => Err(ConfigError::MissingSecretKey),
        }
    }

    /// Full URL of an upstream endpoint: the base URL followed by `path`.
    pub fn endpoint(&self, path: &str) -> (r: String)
        ensures
            r@ == self.api_url@ + path@,
    {
        let mut url = self.api_url.clone();
        url.append(path);
        url
    }

    /// Value of the `Authorization` header: the bearer scheme and the secret.
    pub fn authorization(&self) -> (r: String)
        ensures
            r@ == BEARER_PREFIX@ + self.bitnob_secret_key@,
    {
        let mut header = String::from_str(BEARER_PREFIX);
        header.append(self.bitnob_secret_key.as_str());
        header
    }
}

} // verus!
