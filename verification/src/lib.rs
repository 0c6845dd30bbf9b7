//! Request signing and response classification for the Wusul digital access
//! control platform.
//!
//! This library prepares every request of the API: the URL, the signature of
//! the payload, the header fields, the query and the body. It classifies
//! every response by its status. It sends nothing: a caller hands a
//! [`http_client::PreparedRequest`] to its transport and brings the status
//! and the body back.
//!
//! Everything here is verified with Verus, but for the calls into `base64`,
//! `hex`, `sha2` and `serde_json`, which stand behind small functions whose
//! contracts are taken on trust; each of them says so.

pub mod auth;
pub mod decimal;
pub mod encoding;
pub mod error;
pub mod http_client;
pub mod json;
pub mod resources;
pub mod types;

use error::WusulError;
use http_client::{is_planned, ClientModel, HttpClient, Method, PreparedRequest};
use resources::{AccessPasses, Console};
use std::sync::Arc;
pub use types::WusulConfig;
use vstd::prelude::*;
use vstd::string::StringExecFns;

verus! {

/// The client that a configuration gives.
pub open spec fn configured_client(config: WusulConfig) -> ClientModel {
    ClientModel {
        account_id: config.account_id@,
        shared_secret: config.shared_secret@,
        base_url: config.base_url@,
        timeout: config.timeout,
    }
}

/// The configuration error for a configuration that cannot be used, where
/// there is one: an empty account id comes first, then an empty shared
/// secret.
pub open spec fn config_fault(config: WusulConfig) -> Option<Seq<char>> {
    if config.account_id@.len() == 0 {
        Some("Account ID is required"@)
    } else if config.shared_secret@.len() == 0 {
        Some("Shared secret is required"@)
    } else {
        None
    }
}

/// Main client for the Wusul API. It prepares the requests of every
/// operation and classifies the responses; sending is left to the caller.
pub struct Wusul {
    /// The client that prepares the requests and classifies the responses;
    /// both resources share it.
    pub http: Arc<HttpClient>,
    /// Resource for managing access passes.
    pub access_passes: AccessPasses,
    /// Resource for console operations (enterprise tier).
    pub console: Console,
}

impl Wusul {
    /// The client that the requests are prepared for.
    pub open spec fn client(&self) -> ClientModel {
        self.http@
    }

    /// Creates a client for an account, with the default configuration.
    pub fn new(account_id: String, shared_secret: String) -> (out: Result<Wusul, WusulError>)
        ensures
            match out {
                Ok(wusul) => {
                    &&& account_id@.len() > 0
                    &&& shared_secret@.len() > 0
                    &&& wusul.client().account_id == account_id@
                    &&& wusul.client().shared_secret == shared_secret@
                    &&& wusul.client().base_url == types::default_base_url()
                    &&& wusul.client().timeout == types::duration_of_secs(
                        types::DEFAULT_TIMEOUT_SECS,
                    )
                    &&& wusul.access_passes.client() == wusul.client()
                    &&& wusul.console.client() == wusul.client()
                },
                Err(error) => {
                    &&& error matches WusulError::ConfigError(message)
                    &&& if account_id@.len() == 0 {
                        message@ == "Account ID is required"@
                    } else {
                        shared_secret@.len() == 0 && message@ == "Shared secret is required"@
                    }
                },
            },
    {
        let config = WusulConfig::new(account_id, shared_secret);
        Self::with_config(config)
    }

    /// Creates a client from a configuration. An empty account id or an
    /// empty shared secret is a configuration error; every other
    /// configuration gives a client.
    pub fn with_config(config: WusulConfig) -> (out: Result<Wusul, WusulError>)
        ensures
            match out {
                Ok(wusul) => {
                    &&& config_fault(config) is None
                    &&& wusul.client() == configured_client(config)
                    &&& wusul.access_passes.client() == wusul.client()
                    &&& wusul.console.client() == wusul.client()
                },
                Err(error) => {
                    &&& error matches WusulError::ConfigError(message)
                    &&& config_fault(config) == Some(message@)
                },
            },
    {
        if config.account_id.as_str().is_empty() {
            return Err(WusulError::ConfigError(String::from_str("Account ID is required")));
        }
        if config.shared_secret.as_str().is_empty() {
            return Err(WusulError::ConfigError(String::from_str("Shared secret is required")));
        }
        let created = HttpClient::new(
            config.account_id,
            config.shared_secret,
            config.base_url,
            config.timeout,
        );
        match created {
            Ok(client) => {
                let http = Arc::new(client);
                let access_passes = AccessPasses::new(Arc::clone(&http));
                let console = Console::new(Arc::clone(&http));
                Ok(Wusul { http, access_passes, console })
            },
            Err(error) => Err(error),
        }
    }

    /// The time after which the transport gives up on a request.
    pub fn timeout(&self) -> (out: std::time::Duration)
        ensures
            out == self.client().timeout,
    {
        self.http.timeout()
    }

    /// Checks the health of the API: a GET of `/health` without parameters.
    pub fn health(&self) -> (out: Result<PreparedRequest, WusulError>)
        ensures
            is_planned(out, self.client(), Method::Get, "/health"@, None),
    {
        self.http.get("/health", None)
    }
}

} // verus!
