//! Authenticated reads against an established session.
//!
//! A [`SessionClient`] wraps the [`SessionHandle`] the handshake
//! produced and replays its cookie on every read, never
//! re-authenticating. Each call to [`SessionClient::fetch_request`]
//! describes exactly one outbound request, determined by the handle
//! alone, and [`fetch_result`] hands the response body back unchanged.

use vstd::prelude::*;

use crate::auth::{SessionHandle, TransportError};
use crate::http::{Header, HttpRequest, HttpResponse, is_success};

verus! {

/// How an authenticated read can fail: the transport's own failure,
/// or a non-2xx answer.
#[derive(Debug, Clone, PartialEq, Eq)]
pub struct RequestError {
    pub cause: TransportError,
}

/// A client bound to one session. It holds the handle and nothing
/// else; no call mutates it, so every read is made from the same
/// handle the handshake produced.
#[derive(Debug, Clone)]
pub struct SessionClient {
    pub handle: SessionHandle,
}

/// The personal-details endpoint for a host.
pub open spec fn details_url(hostname: Seq<char>) -> Seq<char> {
    "https://"@ + hostname + "/services/mobile.svc/GetPersonalDetails?sessionstate=readonly"@
}

/// The one request an authenticated read sends: an empty-bodied POST
/// to the personal-details endpoint whose only header replays the
/// handle's cookie value verbatim.
pub open spec fn is_fetch_request(h: SessionHandle, r: HttpRequest) -> bool {
    &&& r.method@ == "POST"@
    &&& r.url@ == details_url(h.hostname@)
    &&& r.headers@.len() == 1
    &&& r.headers@[0].name@ == "Cookie"@
    &&& r.headers@[0].value == h.cookie_value
    &&& r.body@ == Seq::<char>::empty()
}

impl SessionClient {
    /// The handle was produced whole by the handshake.
    pub open spec fn wf(self) -> bool {
        self.handle.wf()
    }

    /// Wrap a handle. Pure: no request is made here.
    pub fn new(handle: SessionHandle) -> (r: SessionClient)
        requires
            handle.wf(),
        ensures
            r.handle == handle,
            r.wf(),
    {
        SessionClient { handle }
    }

    /// Build the personal-details POST for this session. Pure and
    /// read-only: the request is a function of the handle alone, so
    /// every call describes the same single request, and sending it
    /// is the caller's one outbound call.
    pub fn fetch_request(&self) -> (r: HttpRequest)
        ensures
            is_fetch_request(self.handle, r),
    {
        let mut url = String::from_str("https://");
        url.append(self.handle.hostname.as_str());
        url.append("/services/mobile.svc/GetPersonalDetails?sessionstate=readonly");
        let mut headers: Vec<Header> = Vec::new();
        headers.push(
            Header { name: String::from_str("Cookie"), value: self.handle.cookie_value.clone() },
        );
        let r = HttpRequest {
            method: String::from_str("POST"),
            url,
            headers,
            body: String::new(),
        };
        proof {
            assert(r.url@ =~= details_url(self.handle.hostname@));
        }
        r
    }
}

/// Read the portal's answer to the personal-details POST.
///
/// A connection failure or a non-2xx status is a [`RequestError`]
/// carrying the cause; a 2xx response yields its body exactly as the
/// portal sent it, unparsed and uncached.
pub fn fetch_result(outcome: &Result<HttpResponse, String>) -> (r: Result<String, RequestError>)
    ensures
        (*outcome) matches Err(m) ==> r == Err::<String, RequestError>(
            RequestError { cause: TransportError::Connection(m) },
        ),
        (*outcome) matches Ok(resp) ==> ({
            if is_success(resp.status) {
                r == Ok::<String, RequestError>(resp.body)
            } else {
                r == Err::<String, RequestError>(
                    RequestError { cause: TransportError::Status(resp.status) },
                )
            }
        }),
{
    match outcome {
        Err(m) => Err(RequestError { cause: TransportError::Connection(m.clone()) }),
        Ok(resp) => {
            if resp.status >= 200 && resp.status < 300 {
                Ok(resp.body.clone())
            } else {
                Err(RequestError { cause: TransportError::Status(resp.status) })
            }
        },
    }
}

/// Repeated reads from one session are identical: any two requests
/// the client describes for the same handle agree in method, URL,
/// headers and body, because no state changes between calls.
pub proof fn lemma_fetch_idempotent(h: SessionHandle, r1: HttpRequest, r2: HttpRequest)
    requires
        is_fetch_request(h, r1),
        is_fetch_request(h, r2),
    ensures
        r1.method@ == r2.method@,
        r1.url@ == r2.url@,
        r1.headers@.len() == r2.headers@.len(),
        r1.headers@[0].name@ == r2.headers@[0].name@,
        r1.headers@[0].value == r2.headers@[0].value,
        r1.body@ == r2.body@,
{
}

} // verus!
