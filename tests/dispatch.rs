use std::cell::RefCell;

use matrix_sdk::error::Error;
use matrix_sdk::json::Json;
use matrix_sdk::http_client::{
    classify_response, join_uri, names_match, resolve_access_token, AuthScheme, HttpClient, HttpRequest,
    HttpResponse, HttpSend, Method, OutgoingRequest, Session,
};

struct Recorded {
    method: Method,
    uri: String,
    headers: Vec<(String, String)>,
    body: Vec<u8>,
}

struct MockTransport {
    sent: RefCell<Vec<Recorded>>,
    status: u16,
    body: Vec<u8>,
}

impl MockTransport {
    fn new(status: u16, body: &str) -> MockTransport {
        MockTransport { sent: RefCell::new(Vec::new()), status, body: body.as_bytes().to_vec() }
    }
}

impl HttpSend for MockTransport {
    fn answers(&self, _request: HttpRequest, _r: Result<HttpResponse, Error>) -> bool {
        true
    }

    fn send_request(&self, request: HttpRequest) -> Result<HttpResponse, Error> {
        self.sent.borrow_mut().push(Recorded {
            method: request.method,
            uri: request.uri,
            headers: request.headers,
            body: request.body,
        });
        Ok(HttpResponse { status: self.status, headers: Vec::new(), body: self.body.clone() })
    }
}

struct Failing;

impl HttpSend for Failing {
    fn answers(&self, _request: HttpRequest, _r: Result<HttpResponse, Error>) -> bool {
        true
    }

    fn send_request(&self, _request: HttpRequest) -> Result<HttpResponse, Error> {
        Err(Error::Transport("connection refused".to_string()))
    }
}

fn client(status: u16, body: &str) -> HttpClient<MockTransport> {
    HttpClient { inner: MockTransport::new(status, body), homeserver: "https://example.org/".to_string() }
}

fn session() -> Option<Session> {
    Some(Session {
        access_token: "tok123".to_string(),
        user_id: "@alice:example.org".to_string(),
        device_id: "DEVICE1".to_string(),
    })
}

fn request(method: Method, auth: AuthScheme) -> OutgoingRequest {
    OutgoingRequest {
        method,
        path: "/_matrix/client/r0/account/whoami".to_string(),
        authentication: auth,
        headers: Vec::new(),
        body: b"{}".to_vec(),
    }
}

fn header<'a>(headers: &'a [(String, String)], name: &str) -> Vec<&'a str> {
    headers.iter().filter(|(k, _)| k == name).map(|(_, v)| v.as_str()).collect()
}

#[test]
fn post_with_session_carries_token_and_json_type() {
    let c = client(200, "{}");
    let r = c.send::<Json>(request(Method::Post, AuthScheme::AccessToken), &session());
    assert!(r.is_ok());
    let sent = c.inner.sent.borrow();
    assert_eq!(sent.len(), 1);
    assert_eq!(sent[0].method, Method::Post);
    assert_eq!(sent[0].uri, "https://example.org/_matrix/client/r0/account/whoami");
    assert_eq!(header(&sent[0].headers, "authorization"), vec!["Bearer tok123"]);
    assert_eq!(header(&sent[0].headers, "content-type"), vec!["application/json"]);
    assert_eq!(sent[0].body, b"{}".to_vec());
}

#[test]
fn token_required_without_session_sends_nothing() {
    for m in [Method::Get, Method::Post, Method::Put, Method::Delete] {
        let c = client(200, "{}");
        let r = c.send::<Json>(request(m, AuthScheme::AccessToken), &None);
        assert!(matches!(r, Err(Error::AuthenticationRequired)));
        assert!(c.inner.sent.borrow().is_empty());
    }
}

#[test]
fn server_signatures_are_not_for_clients() {
    let c = client(200, "{}");
    let r = c.send::<Json>(request(Method::Get, AuthScheme::ServerSignatures), &session());
    assert!(matches!(r, Err(Error::NotClientRequest)));
    assert!(c.inner.sent.borrow().is_empty());
}

#[test]
fn anonymous_request_goes_without_session() {
    let c = client(200, "{}");
    let r = c.send::<Json>(request(Method::Get, AuthScheme::Unauthenticated), &None);
    assert!(r.is_ok());
    let c2 = client(200, "{}");
    assert!(c2.send::<Json>(request(Method::Get, AuthScheme::Unauthenticated), &session()).is_ok());
    let a = c.inner.sent.borrow();
    let b = c2.inner.sent.borrow();
    assert!(header(&a[0].headers, "authorization").is_empty());
    assert_eq!(a[0].headers, b[0].headers);
    assert_eq!(a[0].uri, b[0].uri);
}

#[test]
fn get_gets_no_content_type() {
    let c = client(200, "{}");
    c.send::<Json>(request(Method::Get, AuthScheme::Unauthenticated), &None).unwrap();
    assert!(header(&c.inner.sent.borrow()[0].headers, "content-type").is_empty());
}

#[test]
fn upload_keeps_callers_content_type() {
    let c = client(200, "{\"content_uri\":\"mxc://x/y\"}");
    let mut req = request(Method::Post, AuthScheme::AccessToken);
    req.headers.push(("content-type".to_string(), "image/png".to_string()));
    c.upload(req, &session()).unwrap();
    assert_eq!(header(&c.inner.sent.borrow()[0].headers, "content-type"), vec!["image/png"]);
}

#[test]
fn send_keeps_callers_content_type() {
    let c = client(200, "{}");
    let mut req = request(Method::Put, AuthScheme::Unauthenticated);
    req.headers.push(("content-type".to_string(), "text/plain".to_string()));
    c.send::<Json>(req, &None).unwrap();
    assert_eq!(header(&c.inner.sent.borrow()[0].headers, "content-type"), vec!["text/plain"]);
}

#[test]
fn uiaa_challenge_on_401() {
    let body = r#"{"flows":[{"stages":["m.login.password"]},{"stages":["m.login.email.identity","m.login.recaptcha"]}],"completed":["m.login.dummy"],"params":{},"session":"xxxxxx"}"#;
    let c = client(401, body);
    let r = c.send::<Json>(request(Method::Post, AuthScheme::AccessToken), &session());
    let e = r.unwrap_err();
    let info = e.uiaa_response().expect("a challenge");
    assert_eq!(info.flows.len(), 2);
    assert_eq!(info.flows[0].stages, vec!["m.login.password".to_string()]);
    assert_eq!(
        info.flows[1].stages,
        vec!["m.login.email.identity".to_string(), "m.login.recaptcha".to_string()]
    );
    assert_eq!(info.completed, vec!["m.login.dummy".to_string()]);
    assert_eq!(info.session, Some("xxxxxx".to_string()));
    assert!(matches!(&info.params, Some(Json::Object(m)) if m.is_empty()));
}

#[test]
fn transport_error_comes_back_unchanged() {
    let c = HttpClient { inner: Failing, homeserver: "https://h.org".to_string() };
    match c.upload(request(Method::Post, AuthScheme::AccessToken), &session()) {
        Err(Error::Transport(m)) => assert_eq!(m, "connection refused"),
        other => panic!("unexpected {:?}", other),
    }
}

#[test]
fn plain_error_body_is_protocol_error() {
    let c = client(403, r#"{"errcode":"M_FORBIDDEN","error":"You are not invited"}"#);
    let r = c.send::<Json>(request(Method::Get, AuthScheme::AccessToken), &session());
    match r {
        Err(Error::MatrixProtocolError(e)) => {
            assert_eq!(e.status, 403);
            assert_eq!(e.errcode, "M_FORBIDDEN");
            assert_eq!(e.message, "You are not invited");
        }
        other => panic!("unexpected {:?}", other),
    }
}

#[test]
fn uiaa_body_on_other_status_is_not_a_challenge() {
    let c = client(400, r#"{"flows":[],"errcode":"M_UNKNOWN","error":"bad"}"#);
    let r = c.send::<Json>(request(Method::Get, AuthScheme::Unauthenticated), &None);
    assert!(matches!(r, Err(Error::MatrixProtocolError(_))));
}

#[test]
fn undecodable_failure_is_response_decode() {
    let c = client(502, "<html>bad gateway</html>");
    let r = c.send::<Json>(request(Method::Get, AuthScheme::Unauthenticated), &None);
    assert!(matches!(r, Err(Error::ResponseDecode(502))));
    let c = client(401, r#"{"flows":"nope"}"#);
    let r = c.send::<Json>(request(Method::Get, AuthScheme::Unauthenticated), &None);
    assert!(matches!(r, Err(Error::ResponseDecode(401))));
}

#[test]
fn success_passes_body_through() {
    let resp = HttpResponse { status: 204, headers: Vec::new(), body: b"not json".to_vec() };
    let r = classify_response(resp).unwrap();
    assert_eq!(r.status, 204);
    assert_eq!(r.body, b"not json".to_vec());
}

#[test]
fn uri_joining_trims_base_slashes() {
    assert_eq!(join_uri("https://h.org//", "/_matrix/x"), "https://h.org/_matrix/x");
    assert_eq!(join_uri("https://h.org", "/p"), "https://h.org/p");
    assert_eq!(join_uri("", "/p"), "/p");
}

#[test]
fn token_resolution() {
    assert_eq!(
        resolve_access_token(AuthScheme::AccessToken, &session()).unwrap(),
        Some("tok123".to_string())
    );
    assert_eq!(resolve_access_token(AuthScheme::Unauthenticated, &session()).unwrap(), None);
    assert!(matches!(
        resolve_access_token(AuthScheme::AccessToken, &None),
        Err(Error::AuthenticationRequired)
    ));
}

#[test]
fn default_agent_names_version() {
    assert_eq!(matrix_sdk::http_client::default_user_agent("0.1.0"), "matrix-rust-sdk 0.1.0");
}

#[test]
fn success_body_that_is_not_json_is_response_decode() {
    let c = client(200, "<html>ok</html>");
    let r = c.send::<Json>(request(Method::Get, AuthScheme::Unauthenticated), &None);
    assert!(matches!(r, Err(Error::ResponseDecode(200))));
}

#[test]
fn upload_decodes_content_uri() {
    let c = client(200, r#"{"content_uri":"mxc://example.org/abc"}"#);
    let r = c.upload(request(Method::Post, AuthScheme::AccessToken), &session()).unwrap();
    assert_eq!(r.content_uri, "mxc://example.org/abc");
    let c = client(200, "{}");
    let r = c.upload(request(Method::Post, AuthScheme::AccessToken), &session());
    assert!(matches!(r, Err(Error::ResponseDecode(200))));
}

#[test]
fn content_type_names_ignore_case() {
    let c = client(200, "{}");
    let mut req = request(Method::Post, AuthScheme::Unauthenticated);
    req.headers.push(("Content-Type".to_string(), "text/plain".to_string()));
    c.send::<Json>(req, &None).unwrap();
    let sent = c.inner.sent.borrow();
    assert_eq!(header(&sent[0].headers, "Content-Type"), vec!["text/plain"]);
    assert!(header(&sent[0].headers, "content-type").is_empty());
    assert!(names_match("Content-TYPE", "content-type"));
    assert!(!names_match("content-typ", "content-type"));
}

#[test]
fn session_token_replaces_callers_authorization() {
    let c = client(200, "{}");
    let mut req = request(Method::Get, AuthScheme::AccessToken);
    req.headers.push(("Authorization".to_string(), "Bearer stale".to_string()));
    req.headers.push(("accept".to_string(), "*/*".to_string()));
    c.send::<Json>(req, &session()).unwrap();
    let sent = c.inner.sent.borrow();
    assert!(header(&sent[0].headers, "Authorization").is_empty());
    assert_eq!(header(&sent[0].headers, "authorization"), vec!["Bearer tok123"]);
    assert_eq!(header(&sent[0].headers, "accept"), vec!["*/*"]);
}
