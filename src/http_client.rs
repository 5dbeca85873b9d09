//! The authenticated dispatcher: it attaches the session's credential to a
//! request, hands the request to a pluggable transport and reads the answer.
use vstd::prelude::*;
use vstd::string::StringExecFns;

use crate::error::{failure_of, is_success, Error};
use crate::json::{field, find_field, json_of, parse_json, Json};

verus! {

/// How an endpoint expects to be authenticated.
#[derive(Debug, Clone, Copy, PartialEq, Eq, Structural)]
pub enum AuthScheme {
    /// No credential.
    Unauthenticated,
    /// The session's access token.
    AccessToken,
    /// Server-to-server signatures, which clients do not issue.
    ServerSignatures,
}

/// The HTTP methods that endpoints use.
#[derive(Debug, Clone, Copy, PartialEq, Eq, Structural)]
pub enum Method {
    Get,
    Post,
    Put,
    Delete,
    Patch,
    Head,
    Options,
}

/// The login context of the client.
#[derive(Debug, Clone)]
pub struct Session {
    pub access_token: String,
    pub user_id: String,
    pub device_id: String,
}

/// A request as the caller describes it. Header names are lower case.
#[derive(Debug)]
pub struct OutgoingRequest {
    pub method: Method,
    pub path: String,
    pub authentication: AuthScheme,
    pub headers: Vec<(String, String)>,
    pub body: Vec<u8>,
}

/// A request as the transport sends it. Header names are lower case.
#[derive(Debug)]
pub struct HttpRequest {
    pub method: Method,
    pub uri: String,
    pub headers: Vec<(String, String)>,
    pub body: Vec<u8>,
}

/// A response as the transport received it.
#[derive(Debug)]
pub struct HttpResponse {
    pub status: u16,
    pub headers: Vec<(String, String)>,
    pub body: Vec<u8>,
}

/// Sends requests to the homeserver: any HTTP library can stand behind it.
pub trait HttpSend {
    /// Whether `r` is an answer that this transport may give to `request`.
    spec fn answers(&self, request: HttpRequest, r: Result<HttpResponse, Error>) -> bool;

    /// Sends one request and hands back its response.
    fn send_request(&self, request: HttpRequest) -> (r: Result<HttpResponse, Error>)
        ensures
            self.answers(request, r),
    ;
}

/// The access token that a request with this scheme carries, or the error
/// that stops it.
pub open spec fn access_token_for(scheme: AuthScheme, session: Option<Session>) -> Result<
    Option<String>,
    Error,
> {
    match scheme {
        AuthScheme::AccessToken => match session {
            Some(s) => Ok(Some(s.access_token)),
            None => Err(Error::AuthenticationRequired),
        },
        AuthScheme::Unauthenticated => Ok(None),
        AuthScheme::ServerSignatures => Err(Error::NotClientRequest),
    }
}

/// `s` without its trailing slashes.
pub open spec fn trim_slashes(s: Seq<char>) -> Seq<char>
    decreases s.len(),
{
    if s.len() > 0 && s.last() == '/' {
        trim_slashes(s.drop_last())
    } else {
        s
    }
}

/// The URI of a request to `path` on the homeserver at `base`.
pub open spec fn request_uri(base: Seq<char>, path: Seq<char>) -> Seq<char> {
    trim_slashes(base) + path
}

/// Whether requests with this method change state on the server.
pub open spec fn is_mutating(m: Method) -> bool {
    m is Post || m is Put || m is Delete
}

/// Headers as pairs of character sequences.
pub open spec fn headers_view(h: Seq<(String, String)>) -> Seq<(Seq<char>, Seq<char>)> {
    h.map_values(|p: (String, String)| (p.0@, p.1@))
}

/// A character's code with ASCII upper case folded to lower case.
pub open spec fn folded(c: char) -> int {
    if 65 <= (c as u32) <= 90 {
        (c as u32) + 32
    } else {
        c as u32 as int
    }
}

/// Whether two header names are equal, ignoring ASCII case.
pub open spec fn same_name(a: Seq<char>, b: Seq<char>) -> bool {
    a.len() == b.len() && forall|i: int| 0 <= i < a.len() ==> folded(a[i]) == folded(b[i])
}

/// Whether a header with this name is present.
pub open spec fn has_header(h: Seq<(Seq<char>, Seq<char>)>, name: Seq<char>) -> bool {
    exists|i: int| 0 <= i < h.len() && same_name(#[trigger] h[i].0, name)
}

/// The headers without those of this name, in their order.
pub open spec fn without_name(h: Seq<(Seq<char>, Seq<char>)>, name: Seq<char>) -> Seq<
    (Seq<char>, Seq<char>),
>
    decreases h.len(),
{
    if h.len() == 0 {
        h
    } else if same_name(h.last().0, name) {
        without_name(h.drop_last(), name)
    } else {
        without_name(h.drop_last(), name).push(h.last())
    }
}

/// The headers that are sent: the caller's, then the bearer credential if
/// there is a token (which replaces an authorization header of the
/// caller's), then the content type for a state-changing method if
/// one is given and the caller set none.
pub open spec fn sent_headers(
    base: Seq<(Seq<char>, Seq<char>)>,
    token: Option<String>,
    method: Method,
    content_type: Option<Seq<char>>,
) -> Seq<(Seq<char>, Seq<char>)> {
    let with_auth = match token {
        Some(t) => without_name(base, "authorization"@).push(("authorization"@, "Bearer "@ + t@)),
        None => base,
    };
    if is_mutating(method) && content_type is Some && !has_header(base, "content-type"@) {
        with_auth.push(("content-type"@, content_type->Some_0))
    } else {
        with_auth
    }
}

/// The view of an optional string.
pub open spec fn opt_view(s: Option<&str>) -> Option<Seq<char>> {
    match s {
        Some(t) => Some(t@),
        None => None,
    }
}

/// The access token that a request with this scheme carries; the session is
/// read only where the scheme asks for a token.
pub fn resolve_access_token(scheme: AuthScheme, session: &Option<Session>) -> (r: Result<
    Option<String>,
    Error,
>)
    ensures
        r == access_token_for(scheme, *session),
{
    match scheme {
        AuthScheme::AccessToken => match session {
            Some(s) => Ok(Some(s.access_token.clone())),
            None => Err(Error::AuthenticationRequired),
        },
        AuthScheme::Unauthenticated => Ok(None),
        AuthScheme::ServerSignatures => Err(Error::NotClientRequest),
    }
}

/// Joins the homeserver's base URL and a request path.
pub fn join_uri(base: &str, path: &str) -> (r: String)
    ensures
        r@ == request_uri(base@, path@),
{
    let mut n = base.unicode_len();
    assert(base@.subrange(0, n as int) =~= base@);
    while n > 0 && base.get_char(n - 1) == '/'
        invariant
            n <= base@.len(),
            trim_slashes(base@) == trim_slashes(base@.subrange(0, n as int)),
        decreases n,
    {
        assert(base@.subrange(0, n as int).drop_last() =~= base@.subrange(0, n - 1));
        n -= 1;
    }
    assert(trim_slashes(base@.subrange(0, n as int)) == base@.subrange(0, n as int));
    base.substring_char(0, n).to_owned().concat(path)
}

/// The user agent that a client sends when its configuration names none.
pub fn default_user_agent(version: &str) -> (r: String)
    ensures
        r@ == "matrix-rust-sdk "@ + version@,
{
    "matrix-rust-sdk ".to_owned().concat(version)
}

/// Whether two header names are equal, ignoring ASCII case.
pub fn names_match(a: &str, b: &str) -> (r: bool)
    ensures
        r == same_name(a@, b@),
{
    let n = a.unicode_len();
    if n != b.unicode_len() {
        return false;
    }
    let mut i: usize = 0;
    while i < n
        invariant
            n == a@.len(),
            n == b@.len(),
            0 <= i <= n,
            forall|k: int| 0 <= k < i ==> folded(a@[k]) == folded(b@[k]),
        decreases n - i,
    {
        let x = a.get_char(i) as u32;
        let y = b.get_char(i) as u32;
        let fx: u32 = if 65 <= x && x <= 90 { x + 32 } else { x };
        let fy: u32 = if 65 <= y && y <= 90 { y + 32 } else { y };
        if fx != fy {
            return false;
        }
        i += 1;
    }
    true
}

/// The headers without those of this name, in their order.
pub fn drop_header(headers: &Vec<(String, String)>, name: &str) -> (r: Vec<(String, String)>)
    ensures
        headers_view(r@) == without_name(headers_view(headers@), name@),
{
    let ghost hv = headers_view(headers@);
    let mut out: Vec<(String, String)> = Vec::new();
    let mut i: usize = 0;
    while i < headers.len()
        invariant
            0 <= i <= headers@.len(),
            hv == headers_view(headers@),
            headers_view(out@) == without_name(hv.take(i as int), name@),
        decreases headers@.len() - i,
    {
        assert(hv.take(i as int + 1).drop_last() =~= hv.take(i as int));
        assert(hv.take(i as int + 1).last() == hv[i as int]);
        if !names_match(headers[i].0.as_str(), name) {
            let ghost before = out@;
            out.push((headers[i].0.clone(), headers[i].1.clone()));
            assert(headers_view(out@) =~= headers_view(before).push(hv[i as int]));
        }
        i += 1;
    }
    assert(hv.take(i as int) =~= hv);
    out
}

/// Whether a header with this name is present.
pub fn contains_header(headers: &Vec<(String, String)>, name: &str) -> (r: bool)
    ensures
        r == has_header(headers_view(headers@), name@),
{
    let ghost h = headers_view(headers@);
    let mut i: usize = 0;
    while i < headers.len()
        invariant
            0 <= i <= headers@.len(),
            h == headers_view(headers@),
            forall|k: int| 0 <= k < i ==> !same_name(h[k].0, name@),
        decreases headers@.len() - i,
    {
        if names_match(headers[i].0.as_str(), name) {
            assert(same_name(h[i as int].0, name@));
            return true;
        }
        i += 1;
    }
    false
}

/// Whether `req` is the request that is sent for `request`, with `token`,
/// to the homeserver at `base`, with `content_type` as the default content type.
pub open spec fn is_envelope_of(
    req: HttpRequest,
    request: OutgoingRequest,
    token: Option<String>,
    base: Seq<char>,
    content_type: Option<Seq<char>>,
) -> bool {
    &&& req.method == request.method
    &&& req.uri@ == request_uri(base, request.path@)
    &&& headers_view(req.headers@) == sent_headers(
        headers_view(request.headers@),
        token,
        request.method,
        content_type,
    )
    &&& req.body@ == request.body@
}

/// What the dispatcher makes of a response: a success passes, a failure
/// becomes the error that its status and body stand for.
pub open spec fn response_outcome(r: Result<HttpResponse, Error>, response: HttpResponse) -> bool {
    if is_success(response.status) {
        r == Ok::<HttpResponse, Error>(response)
    } else {
        r is Err && failure_of(r->Err_0, response.status, json_of(response.body@))
    }
}

/// Reads a response: a success passes unchanged, a failure is classified by
/// its status and by what its body holds.
pub fn classify_response(response: HttpResponse) -> (r: Result<HttpResponse, Error>)
    ensures
        response_outcome(r, response),
{
    if 200 <= response.status && response.status < 300 {
        Ok(response)
    } else {
        let parsed = parse_json(response.body.as_slice());
        Err(Error::from_response(response.status, parsed))
    }
}

/// A response type that a request declares: what a success body decodes to.
pub trait IncomingResponse: Sized {
    /// Whether `r` is what decoding `body` may give (`None`: the body is
    /// not of this type).
    spec fn decodes_to(body: Seq<u8>, r: Option<Self>) -> bool;

    /// Decodes a success body.
    fn try_from_body(body: &[u8]) -> (r: Option<Self>)
        ensures
            Self::decodes_to(body@, r),
    ;
}

/// The result for a success with this status and decode outcome.
pub open spec fn decode_outcome<R>(status: u16, decoded: Option<R>) -> Result<R, Error> {
    match decoded {
        Some(v) => Ok(v),
        None => Err(Error::ResponseDecode(status)),
    }
}

/// Turns the outcome of decoding a success body into the result: the
/// decoded value, or `ResponseDecode` where the body is not of the type.
pub fn decode_success<R>(status: u16, decoded: Option<R>) -> (r: Result<R, Error>)
    ensures
        r == decode_outcome(status, decoded),
{
    match decoded {
        Some(v) => Ok(v),
        None => Err(Error::ResponseDecode(status)),
    }
}

/// What the dispatcher makes of a response: a success is decoded into the
/// declared type, a failure becomes the error that its status and body
/// stand for.
pub open spec fn read_outcome<R: IncomingResponse>(r: Result<R, Error>, response: HttpResponse) -> bool {
    if is_success(response.status) {
        exists|d: Option<R>|
            #[trigger] R::decodes_to(response.body@, d) && r == decode_outcome(response.status, d)
    } else {
        r is Err && failure_of(r->Err_0, response.status, json_of(response.body@))
    }
}

/// What the dispatcher returns for the transport's answer: an error of the
/// transport comes back unchanged, a response is read.
pub open spec fn dispatched<R: IncomingResponse>(
    r: Result<R, Error>,
    answer: Result<HttpResponse, Error>,
) -> bool {
    match answer {
        Err(e) => r == Err::<R, Error>(e),
        Ok(response) => read_outcome(r, response),
    }
}

/// Reads a response into the declared type.
pub fn read_response<R: IncomingResponse>(response: HttpResponse) -> (r: Result<R, Error>)
    ensures
        read_outcome(r, response),
{
    let status = response.status;
    match classify_response(response) {
        Ok(resp) => {
            let d = R::try_from_body(resp.body.as_slice());
            decode_success(status, d)
        },
        Err(e) => Err(e),
    }
}

impl IncomingResponse for Json {
    /// Any JSON document.
    open spec fn decodes_to(body: Seq<u8>, r: Option<Json>) -> bool {
        r == json_of(body)
    }

    fn try_from_body(body: &[u8]) -> (r: Option<Json>) {
        parse_json(body)
    }
}

/// The answer to a media upload: where the content now lives.
#[derive(Debug)]
pub struct MediaUploadResponse {
    pub content_uri: String,
}

/// The upload answer that a parsed body holds: an object with a string
/// `content_uri`.
pub open spec fn media_response_of(parsed: Option<Json>) -> Option<MediaUploadResponse> {
    match parsed {
        Some(Json::Object(m)) => match field(m@, "content_uri"@) {
            Some(Json::Str(uri)) => Some(MediaUploadResponse { content_uri: uri }),
            _ => None,
        },
        _ => None,
    }
}

impl IncomingResponse for MediaUploadResponse {
    open spec fn decodes_to(body: Seq<u8>, r: Option<MediaUploadResponse>) -> bool {
        r == media_response_of(json_of(body))
    }

    fn try_from_body(body: &[u8]) -> (r: Option<MediaUploadResponse>) {
        match parse_json(body) {
            Some(Json::Object(m)) => match find_field(&m, "content_uri") {
                Some(i) => match &m[i].1 {
                    Json::Str(uri) => Some(MediaUploadResponse { content_uri: uri.clone() }),
                    _ => None,
                },
                None => None,
            },
            _ => None,
        }
    }
}

/// The bearer credential for an access token.
fn bearer(token: &String) -> (r: String)
    ensures
        r@ == "Bearer "@ + token@,
{
    "Bearer ".to_owned().concat(token.as_str())
}

/// Turns a request into what the transport sends: the homeserver's URI,
/// the session's access token where the request's scheme asks for one,
/// and the content type for a state-changing method.
pub fn prepare_request(
    homeserver: &String,
    request: OutgoingRequest,
    session: &Option<Session>,
    content_type: Option<&str>,
) -> (r: Result<HttpRequest, Error>)
    ensures
        match access_token_for(request.authentication, *session) {
            Err(e) => r == Err::<HttpRequest, Error>(e),
            Ok(token) => r is Ok && is_envelope_of(
                r->Ok_0,
                request,
                token,
                homeserver@,
                opt_view(content_type),
            ),
        },
{
    let token = match resolve_access_token(request.authentication, session) {
        Ok(t) => t,
        Err(e) => return Err(e),
    };
    let ghost base = headers_view(request.headers@);
    let uri = join_uri(homeserver.as_str(), request.path.as_str());
    let has_content_type = contains_header(&request.headers, "content-type");
    let mut headers = match &token {
        Some(_) => drop_header(&request.headers, "authorization"),
        None => request.headers,
    };
    if let Some(t) = &token {
        headers.push(("authorization".to_owned(), bearer(t)));
    }
    let mutating = match request.method {
        Method::Post | Method::Put | Method::Delete => true,
        _ => false,
    };
    if mutating && !has_content_type {
        if let Some(ct) = content_type {
            headers.push(("content-type".to_owned(), ct.to_owned()));
        }
    }
    assert(headers_view(headers@) =~= sent_headers(
        base,
        token,
        request.method,
        opt_view(content_type),
    ));
    Ok(HttpRequest { method: request.method, uri, headers, body: request.body })
}

/// The client side of the homeserver connection.
pub struct HttpClient<S: HttpSend> {
    pub inner: S,
    pub homeserver: String,
}

impl<S: HttpSend> HttpClient<S> {
    /// Prepares a request and hands it to the transport, whose answer comes
    /// back unchanged. A request that cannot be prepared never reaches the
    /// transport.
    pub fn send_request(
        &self,
        request: OutgoingRequest,
        session: &Option<Session>,
        content_type: Option<&str>,
    ) -> (r: Result<HttpResponse, Error>)
        ensures
            match access_token_for(request.authentication, *session) {
                Err(e) => r == Err::<HttpResponse, Error>(e),
                Ok(token) => exists|req: HttpRequest|
                    #[trigger] self.inner.answers(req, r) && is_envelope_of(
                        req,
                        request,
                        token,
                        self.homeserver@,
                        opt_view(content_type),
                    ),
            },
    {
        match prepare_request(&self.homeserver, request, session, content_type) {
            Ok(req) => {
                let ghost sent = req;
                let r = self.inner.send_request(req);
                assert(self.inner.answers(sent, r));
                r
            },
            Err(e) => Err(e),
        }
    }

    /// Sends a request with a JSON content type and reads the response into
    /// the type `R` that the caller declares.
    pub fn send<R: IncomingResponse>(&self, request: OutgoingRequest, session: &Option<Session>) -> (r: Result<
        R,
        Error,
    >)
        ensures
            match access_token_for(request.authentication, *session) {
                Err(e) => r == Err::<R, Error>(e),
                Ok(token) => exists|req: HttpRequest, answer: Result<HttpResponse, Error>|
                    #[trigger] self.inner.answers(req, answer) && is_envelope_of(
                        req,
                        request,
                        token,
                        self.homeserver@,
                        Some("application/json"@),
                    ) && dispatched(r, answer),
            },
    {
        let answer = self.send_request(request, session, Some("application/json"));
        let ghost a = answer;
        let r = match answer {
            Ok(resp) => read_response(resp),
            Err(e) => Err(e),
        };
        assert(dispatched(r, a));
        r
    }

    /// Sends a media upload, whose content type the request sets itself, and
    /// reads where the content now lives.
    pub fn upload(&self, request: OutgoingRequest, session: &Option<Session>) -> (r: Result<
        MediaUploadResponse,
        Error,
    >)
        ensures
            match access_token_for(request.authentication, *session) {
                Err(e) => r == Err::<MediaUploadResponse, Error>(e),
                Ok(token) => exists|req: HttpRequest, answer: Result<HttpResponse, Error>|
                    #[trigger] self.inner.answers(req, answer) && is_envelope_of(
                        req,
                        request,
                        token,
                        self.homeserver@,
                        None,
                    ) && dispatched(r, answer),
            },
    {
        let answer = self.send_request(request, session, None);
        let ghost a = answer;
        let r = match answer {
            Ok(resp) => read_response(resp),
            Err(e) => Err(e),
        };
        assert(dispatched(r, a));
        r
    }
}

/// A request that needs an access token, made while no session is active,
/// fails with `AuthenticationRequired` and is never prepared for sending.
pub proof fn lemma_token_required_without_session(scheme: AuthScheme)
    requires
        scheme is AccessToken,
    ensures
        access_token_for(scheme, None) == Err::<Option<String>, Error>(
            Error::AuthenticationRequired,
        ),
{
}

/// A request without authentication goes ahead whatever the session is, and
/// what is sent for it does not depend on the session.
pub proof fn lemma_anonymous_ignores_session(session: Option<Session>)
    ensures
        access_token_for(AuthScheme::Unauthenticated, session) == Ok::<Option<String>, Error>(
            None,
        ),
        access_token_for(AuthScheme::Unauthenticated, session) == access_token_for(
            AuthScheme::Unauthenticated,
            None,
        ),
{
}

} // verus!
