//! The settings of the HTTP client that carries a connection.

use crate::error::{ErrorModel, TransportError};
use crate::headers::{header_set_of, well_formed, HeaderPair, HeaderSet};
use vstd::prelude::*;

verus! {

/// The time allowed for one network call, in seconds.
pub const REQUEST_TIMEOUT_SECS: u64 = 10;

/// How long an idle pooled connection is kept, in seconds.
pub const POOL_IDLE_TIMEOUT_SECS: u64 = 30;

/// How many idle connections are kept for one host.
pub const POOL_MAX_IDLE_PER_HOST: usize = 5;

/// The user agent that the client announces.
pub const USER_AGENT: &'static str = "MCP-Inspector/1.0 (Windows; Tauri)";

/// What the HTTP client of a connection is built from.
#[derive(Debug, PartialEq, Eq)]
pub struct HttpClientConfig {
    pub timeout_secs: u64,
    pub user_agent: String,
    /// HTTP/1.1 only: some servers fail to negotiate HTTP/2.
    pub http1_only: bool,
    pub tcp_nodelay: bool,
    pub pool_idle_timeout_secs: u64,
    pub pool_max_idle_per_host: usize,
    /// Sent with every request of the connection.
    pub default_headers: HeaderSet,
}

/// Builds the client settings for a connection that sends `headers` with every
/// request. The pairs are cleaned and validated; the first pair that cannot
/// be encoded as an HTTP header fails the call.
pub fn build_http_client_with_headers(headers: &[(String, String)]) -> (r: Result<
    HttpClientConfig,
    TransportError,
>)
    ensures
        match r {
            Ok(config) => {
                &&& header_set_of(headers.deep_view()) == Ok::<_, ErrorModel>(
                    config.default_headers@,
                )
                &&& well_formed(config.default_headers@)
                &&& config.timeout_secs == REQUEST_TIMEOUT_SECS
                &&& config.user_agent@ == USER_AGENT@
                &&& config.http1_only
                &&& config.tcp_nodelay
                &&& config.pool_idle_timeout_secs == POOL_IDLE_TIMEOUT_SECS
                &&& config.pool_max_idle_per_host == POOL_MAX_IDLE_PER_HOST
            },
            Err(e) => header_set_of(headers.deep_view()) == Err::<
                Seq<(Seq<char>, Seq<char>)>,
                _,
            >(e@),
        },
{
    let mut pairs: Vec<HeaderPair> = Vec::new();
    let mut i: usize = 0;
    while i < headers.len()
        invariant
            i <= headers.len(),
            pairs.len() == i,
            forall|j: int| 0 <= j < i ==> (#[trigger] pairs@[j])@ == headers@[j].deep_view(),
        decreases headers.len() - i,
    {
        pairs.push(HeaderPair { name: headers[i].0.clone(), value: headers[i].1.clone() });
        i = i + 1;
    }
    assert(pairs.deep_view() =~= headers.deep_view());
    match HeaderSet::from_pairs(&pairs) {
        Ok(default_headers) => Ok(
            HttpClientConfig {
                timeout_secs: REQUEST_TIMEOUT_SECS,
                user_agent: USER_AGENT.to_owned(),
                http1_only: true,
                tcp_nodelay: true,
                pool_idle_timeout_secs: POOL_IDLE_TIMEOUT_SECS,
                pool_max_idle_per_host: POOL_MAX_IDLE_PER_HOST,
                default_headers,
            },
        ),
        Err(e) => Err(e),
    }
}

} // verus!
