//! The login handshake: exchanging credentials for a session handle.
//!
//! The handshake is one POST to the portal's credential endpoint; its
//! whole value is the `ASP.NET_SessionId` cookie the portal sets on
//! success. [`login_request`] builds that POST, and [`authenticate`]
//! reads the portal's answer: it scans the response's cookies for the
//! first one named exactly `ASP.NET_SessionId` (case-sensitive) and
//! folds it into a [`SessionHandle`], or reports which way the
//! handshake failed.

use vstd::prelude::*;

use crate::http::{Cookie, Header, HttpRequest, HttpResponse, is_success};
use crate::json::{json_quote, quoted};

verus! {

/// What a caller supplies once, at the start of a run: the portal's
/// hostname (a DNS name, no scheme prefix) and the account to log in
/// as. The portal expects the username and password verbatim.
#[derive(Debug, Clone)]
pub struct Credentials {
    pub hostname: String,
    pub username: String,
    pub password: String,
}

impl Credentials {
    /// All three parts are present: the hostname names a server and
    /// the account fields are non-empty.
    pub open spec fn valid(self) -> bool {
        &&& self.hostname@.len() > 0
        &&& self.username@.len() > 0
        &&& self.password@.len() > 0
    }
}

/// The proof of a completed handshake: the host it was made against,
/// the name of the portal's session cookie, and the `name=value` text
/// to replay on authenticated requests. Only [`authenticate`] builds
/// one, and only whole: either every field is filled or the handshake
/// failed.
#[derive(Debug, Clone)]
pub struct SessionHandle {
    pub hostname: String,
    pub cookie_name: String,
    pub cookie_value: String,
}

impl SessionHandle {
    /// A handle is never partially initialized: its cookie name and
    /// cookie value are both non-empty.
    pub open spec fn wf(self) -> bool {
        &&& self.cookie_name@.len() > 0
        &&& self.cookie_value@.len() > 0
    }
}

/// How an HTTP exchange can fail before its payload means anything:
/// the connection itself failed (with the transport's own message), or
/// the server answered outside the 2xx range.
#[derive(Debug, Clone, PartialEq, Eq)]
pub enum TransportError {
    Connection(String),
    Status(u16),
}

/// How the handshake can fail.
#[derive(Debug, Clone, PartialEq, Eq)]
pub enum AuthError {
    /// The login call itself failed: no connection, or a non-2xx
    /// answer. Carries the underlying cause.
    Authentication(TransportError),
    /// The login call succeeded at the transport level but the portal
    /// set no `ASP.NET_SessionId` cookie; typically the credentials
    /// were rejected at the application layer.
    SessionCookieMissing,
}

/// The exact name of the portal's session cookie.
pub open spec fn session_cookie_name() -> Seq<char> {
    "ASP.NET_SessionId"@
}

/// Whether one cookie is the portal's session cookie.
pub open spec fn is_session_cookie(c: Cookie) -> bool {
    c.name@ == session_cookie_name()
}

/// Whether some cookie of the response is the session cookie.
pub open spec fn has_session_cookie(cookies: Seq<Cookie>) -> bool {
    exists|i: int| 0 <= i < cookies.len() && #[trigger] is_session_cookie(cookies[i])
}

/// The cookie at `i` is the session cookie, and no earlier cookie of
/// the response is.
pub open spec fn first_session_cookie_at(cookies: Seq<Cookie>, i: int) -> bool {
    &&& 0 <= i < cookies.len()
    &&& is_session_cookie(cookies[i])
    &&& forall|j: int| 0 <= j < i ==> !is_session_cookie(cookies[j])
}

/// The `name=value` text of a cookie, as a `Cookie` request header
/// carries it.
pub open spec fn cookie_pair(name: Seq<char>, value: Seq<char>) -> Seq<char> {
    name + "="@ + value
}

/// The login endpoint for a host.
pub open spec fn login_url(hostname: Seq<char>) -> Seq<char> {
    "https://"@ + hostname + "/services/admin.svc/AuthenticateUserCredentials"@
}

/// The JSON body of the login POST: the username and the password as
/// JSON strings, and the fixed request for a read-only session.
pub open spec fn login_body(username: Seq<char>, password: Seq<char>) -> Seq<char> {
    "{\"username\":"@ + quoted(username) + ",\"password\":"@ + quoted(password)
        + ",\"sessionstate\":\"readonly\"}"@
}

/// The one request the handshake sends: a POST of the login body to
/// the login endpoint, declared as JSON, and nothing else.
pub open spec fn is_login_request(creds: Credentials, r: HttpRequest) -> bool {
    &&& r.method@ == "POST"@
    &&& r.url@ == login_url(creds.hostname@)
    &&& r.headers@.len() == 1
    &&& r.headers@[0].name@ == "Content-Type"@
    &&& r.headers@[0].value@ == "application/json"@
    &&& r.body@ == login_body(creds.username@, creds.password@)
}

/// The login body for a concrete account.
pub fn login_body_text(username: &String, password: &String) -> (r: String)
    ensures
        r@ == login_body(username@, password@),
{
    let mut body = String::from_str("{\"username\":");
    let quoted_username = json_quote(username);
    body.append(quoted_username.as_str());
    body.append(",\"password\":");
    let quoted_password = json_quote(password);
    body.append(quoted_password.as_str());
    body.append(",\"sessionstate\":\"readonly\"}");
    proof {
        assert(body@ =~= login_body(username@, password@));
    }
    body
}

/// Build the login POST for these credentials. Pure: the same
/// credentials always yield the same request, and nothing is sent
/// here.
pub fn login_request(creds: &Credentials) -> (r: HttpRequest)
    requires
        creds.valid(),
    ensures
        is_login_request(*creds, r),
{
    let mut url = String::from_str("https://");
    url.append(creds.hostname.as_str());
    url.append("/services/admin.svc/AuthenticateUserCredentials");
    let mut headers: Vec<Header> = Vec::new();
    headers.push(
        Header {
            name: String::from_str("Content-Type"),
            value: String::from_str("application/json"),
        },
    );
    let body = login_body_text(&creds.username, &creds.password);
    let r = HttpRequest { method: String::from_str("POST"), url, headers, body };
    proof {
        assert(r.url@ =~= login_url(creds.hostname@));
    }
    r
}

/// Read the portal's answer to the login POST.
///
/// `outcome` is what the transport produced: a response, or its own
/// failure message. A connection failure or a non-2xx status is an
/// `Authentication` error carrying the cause; a 2xx response without
/// an `ASP.NET_SessionId` cookie is `SessionCookieMissing`; a 2xx
/// response with one yields a fully formed handle whose cookie value
/// is the `name=value` concatenation for the first such cookie. The
/// authenticator itself keeps no state and never retries.
pub fn authenticate(creds: &Credentials, outcome: &Result<HttpResponse, String>) -> (r: Result<
    SessionHandle,
    AuthError,
>)
    requires
        creds.valid(),
    ensures
        r matches Ok(h) ==> h.wf(),
        (*outcome) matches Err(m) ==> r == Err::<SessionHandle, AuthError>(
            AuthError::Authentication(TransportError::Connection(m)),
        ),
        (*outcome) matches Ok(resp) ==> ({
            if !is_success(resp.status) {
                r == Err::<SessionHandle, AuthError>(
                    AuthError::Authentication(TransportError::Status(resp.status)),
                )
            } else if !has_session_cookie(resp.cookies@) {
                r == Err::<SessionHandle, AuthError>(AuthError::SessionCookieMissing)
            } else {
                r matches Ok(h)
                    && h.hostname == creds.hostname
                    && h.cookie_name@ == session_cookie_name()
                    && (exists|i: int|
                        #[trigger] first_session_cookie_at(resp.cookies@, i)
                        && h.cookie_value@ == cookie_pair(
                            session_cookie_name(),
                            resp.cookies@[i].value@,
                        ))
            }
        }),
{
    match outcome {
        Err(m) => Err(AuthError::Authentication(TransportError::Connection(m.clone()))),
        Ok(resp) => {
            if resp.status < 200 || resp.status >= 300 {
                return Err(AuthError::Authentication(TransportError::Status(resp.status)));
            }
            let target = String::from_str("ASP.NET_SessionId");
            let n = resp.cookies.len();
            let mut sel: Option<usize> = None;
            let mut i: usize = 0;
            while i < n
                invariant
                    i <= n,
                    n == resp.cookies@.len(),
                    target@ == session_cookie_name(),
                    match sel {
                        None => forall|j: int|
                            0 <= j < i ==> !is_session_cookie(resp.cookies@[j]),
                        Some(k) => k < i && first_session_cookie_at(resp.cookies@, k as int),
                    },
                decreases n - i,
            {
                if sel.is_none() && resp.cookies[i].name == target {
                    sel = Some(i);
                }
                i = i + 1;
            }
            match sel {
                None => Err(AuthError::SessionCookieMissing),
                Some(k) => {
                    let found = &resp.cookies[k];
                    let mut cookie_value = String::from_str("ASP.NET_SessionId");
                    cookie_value.append("=");
                    cookie_value.append(found.value.as_str());
                    let h = SessionHandle {
                        hostname: creds.hostname.clone(),
                        cookie_name: String::from_str("ASP.NET_SessionId"),
                        cookie_value,
                    };
                    proof {
                        reveal_strlit("ASP.NET_SessionId");
                        assert(first_session_cookie_at(resp.cookies@, k as int));
                        assert(h.cookie_value@ =~= cookie_pair(
                            session_cookie_name(),
                            resp.cookies@[k as int].value@,
                        ));
                    }
                    Ok(h)
                },
            }
        },
    }
}

} // verus!
