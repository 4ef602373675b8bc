use compass::auth::{authenticate, login_request, AuthError, Credentials, TransportError};
use compass::http::{Cookie, HttpResponse};

fn school_creds() -> Credentials {
    Credentials {
        hostname: "school.compass.edu".to_string(),
        username: "alice".to_string(),
        password: "secret".to_string(),
    }
}

fn response(status: u16, cookies: Vec<(&str, &str)>) -> HttpResponse {
    HttpResponse {
        status,
        cookies: cookies
            .into_iter()
            .map(|(n, v)| Cookie { name: n.to_string(), value: v.to_string() })
            .collect(),
        body: String::new(),
    }
}

#[test]
fn login_request_shape() {
    let req = login_request(&school_creds());
    assert_eq!(req.method, "POST");
    assert_eq!(
        req.url,
        "https://school.compass.edu/services/admin.svc/AuthenticateUserCredentials"
    );
    assert_eq!(req.headers.len(), 1);
    assert_eq!(req.headers[0].name, "Content-Type");
    assert_eq!(req.headers[0].value, "application/json");
    assert_eq!(
        req.body,
        "{\"username\":\"alice\",\"password\":\"secret\",\"sessionstate\":\"readonly\"}"
    );
}

#[test]
fn cookie_value_is_name_value_concatenation() {
    let outcome = Ok(response(200, vec![("ASP.NET_SessionId", "XYZ")]));
    let handle = authenticate(&school_creds(), &outcome).unwrap();
    assert_eq!(handle.hostname, "school.compass.edu");
    assert_eq!(handle.cookie_name, "ASP.NET_SessionId");
    assert_eq!(handle.cookie_value, "ASP.NET_SessionId=XYZ");
}

#[test]
fn first_session_cookie_wins() {
    let outcome = Ok(response(
        200,
        vec![
            ("theme", "dark"),
            ("ASP.NET_SessionId", "first"),
            ("ASP.NET_SessionId", "second"),
        ],
    ));
    let handle = authenticate(&school_creds(), &outcome).unwrap();
    assert_eq!(handle.cookie_value, "ASP.NET_SessionId=first");
}

#[test]
fn empty_cookie_value_still_yields_whole_handle() {
    let outcome = Ok(response(204, vec![("ASP.NET_SessionId", "")]));
    let handle = authenticate(&school_creds(), &outcome).unwrap();
    assert_eq!(handle.cookie_value, "ASP.NET_SessionId=");
    assert!(!handle.cookie_name.is_empty());
    assert!(!handle.cookie_value.is_empty());
}

#[test]
fn missing_session_cookie_is_its_own_error() {
    let outcome = Ok(response(200, vec![("theme", "dark"), ("lang", "en")]));
    let err = authenticate(&school_creds(), &outcome).unwrap_err();
    assert_eq!(err, AuthError::SessionCookieMissing);
}

#[test]
fn cookie_name_match_is_case_sensitive() {
    let outcome = Ok(response(200, vec![("asp.net_sessionid", "XYZ")]));
    let err = authenticate(&school_creds(), &outcome).unwrap_err();
    assert_eq!(err, AuthError::SessionCookieMissing);
}

#[test]
fn non_2xx_status_is_authentication_error() {
    let outcome = Ok(response(401, vec![("ASP.NET_SessionId", "XYZ")]));
    let err = authenticate(&school_creds(), &outcome).unwrap_err();
    assert_eq!(err, AuthError::Authentication(TransportError::Status(401)));
}

#[test]
fn status_range_edges() {
    let ok_low = Ok(response(200, vec![("ASP.NET_SessionId", "a")]));
    assert!(authenticate(&school_creds(), &ok_low).is_ok());
    let ok_high = Ok(response(299, vec![("ASP.NET_SessionId", "a")]));
    assert!(authenticate(&school_creds(), &ok_high).is_ok());
    let below = Ok(response(199, vec![("ASP.NET_SessionId", "a")]));
    assert_eq!(
        authenticate(&school_creds(), &below).unwrap_err(),
        AuthError::Authentication(TransportError::Status(199))
    );
    let above = Ok(response(300, vec![("ASP.NET_SessionId", "a")]));
    assert_eq!(
        authenticate(&school_creds(), &above).unwrap_err(),
        AuthError::Authentication(TransportError::Status(300))
    );
}

#[test]
fn connection_failure_is_authentication_error() {
    let outcome = Err("connection refused".to_string());
    let err = authenticate(&school_creds(), &outcome).unwrap_err();
    assert_eq!(
        err,
        AuthError::Authentication(TransportError::Connection("connection refused".to_string()))
    );
}
