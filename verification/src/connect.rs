//! From a connect request to the target of the connection, and to the report
//! that the caller gets back.

use crate::headers::{clean_headers, cleaned, HeaderPair};
use crate::text::{trim, trimmed};
use vstd::prelude::*;

verus! {

/// The endpoint that is used where the request names none.
pub const DEFAULT_URL: &'static str = "http://localhost:8003/mcp";

/// What a caller asks for when it connects.
#[derive(Debug, PartialEq, Eq)]
pub struct ConnectPayload {
    pub url: Option<String>,
    pub headers: Option<Vec<HeaderPair>>,
}

impl Default for ConnectPayload {
    fn default() -> (r: Self)
        ensures
            r.url is None,
            r.headers is None,
    {
        ConnectPayload { url: None, headers: None }
    }
}

/// Where a connection goes and what it sends with every request. It does not
/// change once a connection attempt has begun.
#[derive(Debug, PartialEq, Eq)]
pub struct ConnectionTarget {
    pub endpoint: String,
    pub headers: Vec<HeaderPair>,
}

/// What a successful connect reports.
#[derive(Debug, PartialEq, Eq)]
pub struct ConnectResult {
    pub connected: bool,
    pub url: String,
    pub headers: Vec<HeaderPair>,
}

/// The endpoint of a request: its URL, trimmed, or the default where that is
/// absent or empty.
pub open spec fn endpoint_of(url: Option<Seq<char>>) -> Seq<char> {
    match url {
        Some(text) => if trimmed(text).len() > 0 {
            trimmed(text)
        } else {
            DEFAULT_URL@
        },
        None => DEFAULT_URL@,
    }
}

/// The header pairs of a request, or none where it names none.
pub open spec fn requested_headers(headers: Option<Vec<HeaderPair>>) -> Seq<(Seq<char>, Seq<char>)> {
    match headers {
        Some(pairs) => pairs.deep_view(),
        None => Seq::empty(),
    }
}

/// Works out the target of a connect request. A request without content
/// stands for the default one.
pub fn connection_target(payload: Option<ConnectPayload>) -> (r: ConnectionTarget)
    ensures
        r.endpoint@ == match payload {
            Some(p) => endpoint_of(p.url.deep_view()),
            None => DEFAULT_URL@,
        },
        r.headers.deep_view() == match payload {
            Some(p) => cleaned(requested_headers(p.headers)),
            None => Seq::empty(),
        },
{
    let payload = match payload {
        Some(p) => p,
        None => ConnectPayload::default(),
    };
    let endpoint = match payload.url {
        Some(text) => {
            let url = trim(text.as_str());
            if url.as_str().is_empty() {
                DEFAULT_URL.to_owned()
            } else {
                url
            }
        },
        None => DEFAULT_URL.to_owned(),
    };
    let headers = match payload.headers {
        Some(pairs) => clean_headers(&pairs),
        None => {
            let none: Vec<HeaderPair> = Vec::new();
            assert(none.deep_view() =~= Seq::empty());
            none
        },
    };
    ConnectionTarget { endpoint, headers }
}

impl ConnectionTarget {
    /// The headers as pairs of name and value.
    pub fn header_tuples(&self) -> (r: Vec<(String, String)>)
        ensures
            r.deep_view() == self.headers.deep_view(),
    {
        let mut out: Vec<(String, String)> = Vec::new();
        let mut i: usize = 0;
        while i < self.headers.len()
            invariant
                i <= self.headers.len(),
                out.len() == i,
                forall|j: int|
                    0 <= j < i ==> (#[trigger] out@[j]).deep_view() == self.headers@[j]@,
            decreases self.headers.len() - i,
        {
            out.push((self.headers[i].name.clone(), self.headers[i].value.clone()));
            i = i + 1;
        }
        assert(out.deep_view() =~= self.headers.deep_view());
        out
    }

    /// The report of a connect to this target that succeeded.
    pub fn connected(self) -> (r: ConnectResult)
        ensures
            r.connected,
            r.url == self.endpoint,
            r.headers == self.headers,
    {
        ConnectResult { connected: true, url: self.endpoint, headers: self.headers }
    }
}

} // verus!
