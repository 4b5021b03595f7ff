//! The HTTP client the resolution loop runs on: a reusable handle and a
//! lenient, browser-like configuration for the many non-compliant table
//! sites.
//!
//! The client type and its construction belong to the reqwest crate; nothing
//! about the network is claimed here. The fetch loop itself lives with the
//! caller, which feeds fetched texts to the resolution state machine.
use vstd::prelude::*;

use crate::errors::TableError;

verus! {

#[verifier::external_type_specification]
#[verifier::external_body]
pub struct ExClient(reqwest::Client);

/// Relies on `reqwest::Client::clone`: a cheap handle to the same client.
pub assume_specification[ <reqwest::Client as Clone>::clone ](c: &reqwest::Client) -> reqwest::Client;

/// A fetcher around a reusable HTTP client.
#[derive(Clone)]
pub struct Fetcher {
    client: reqwest::Client,
}

impl Fetcher {
    /// Wraps an existing HTTP client.
    pub fn new(client: reqwest::Client) -> (r: Fetcher) {
        Fetcher { client }
    }

    /// A fetcher with the lenient, browser-like client configuration.
    pub fn lenient() -> (r: Result<Fetcher, TableError>) {
        match make_lenient_client() {
            Ok(c) => Ok(Fetcher::new(c)),
            Err(e) => Err(e),
        }
    }

    /// Borrows the underlying HTTP client.
    pub fn client(&self) -> (r: &reqwest::Client) {
        &self.client
    }
}

/// Relies on `reqwest::ClientBuilder`: builds a client with browser-like
/// headers, a generous timeout and redirect limit, cookies kept, and invalid
/// TLS certificates and hostnames accepted, for the few misconfigured sites.
#[verifier::external_body]
pub fn make_lenient_client() -> (r: Result<reqwest::Client, TableError>) {
    let mut h = reqwest::header::HeaderMap::new();
    h.insert("accept", reqwest::header::HeaderValue::from_static("text/html,application/xhtml+xml,application/xml;q=0.9,image/avif,image/webp,image/apng,*/*;q=0.8,application/signed-exchange;v=b3;q=0.9"));
    h.insert("accept-language", reqwest::header::HeaderValue::from_static("zh-CN,zh;q=0.9,en;q=0.8"));
    h.insert("upgrade-insecure-requests", reqwest::header::HeaderValue::from_static("1"));
    h.insert("connection", reqwest::header::HeaderValue::from_static("keep-alive"));
    reqwest::Client::builder().default_headers(h).user_agent("Mozilla/5.0 (Windows NT 10.0; Win64; x64) AppleWebKit/537.36 (KHTML, like Gecko) Chrome/119 Safari/537.36 bms-table-rs").timeout(core::time::Duration::from_secs(60)).redirect(reqwest::redirect::Policy::limited(100)).referer(true).cookie_store(true).danger_accept_invalid_certs(true).danger_accept_invalid_hostnames(true).build().map_err(|e| TableError::TransportFailure { detail: e.to_string() })
}

} // verus!
