//! Plain-value model of the HTTP exchanges the portal client performs.
//!
//! The transport itself (connection handling, TLS, redirects) is outside
//! this crate; callers turn a wire response into an [`HttpResponse`] and
//! hand an [`HttpRequest`] to whatever carries it.

use vstd::prelude::*;

verus! {

/// One cookie of a response, as a name/value pair.
#[derive(Debug, Clone)]
pub struct Cookie {
    pub name: String,
    pub value: String,
}

/// One request header, as a name/value pair.
#[derive(Debug, Clone)]
pub struct Header {
    pub name: String,
    pub value: String,
}

/// An outbound request, fully determined by its fields: no hidden
/// headers, no retries. Whoever sends it sends exactly this, once.
#[derive(Debug, Clone)]
pub struct HttpRequest {
    pub method: String,
    pub url: String,
    pub headers: Vec<Header>,
    pub body: String,
}

/// An inbound response: status line, the cookies it set, and its body.
#[derive(Debug, Clone)]
pub struct HttpResponse {
    pub status: u16,
    pub cookies: Vec<Cookie>,
    pub body: String,
}

/// A 2xx status line.
pub open spec fn is_success(status: u16) -> bool {
    200 <= status < 300
}

} // verus!
