//! Error conditions, and the reading of a failed response into one of them.
use vstd::prelude::*;

use crate::json::{field, find_field, Json};

verus! {

/// One way of completing interactive authentication: the stages, in order.
#[derive(Debug)]
pub struct AuthFlow {
    pub stages: Vec<String>,
}

/// The server's description of an interactive authentication in progress.
#[derive(Debug)]
pub struct UiaaInfo {
    pub flows: Vec<AuthFlow>,
    pub completed: Vec<String>,
    pub session: Option<String>,
    /// The parameters of the stages, as the server sent them.
    pub params: Option<Json>,
}

/// What a `UiaaInfo` holds, as mathematical values.
pub struct UiaaInfoView {
    pub flows: Seq<Seq<String>>,
    pub completed: Seq<String>,
    pub session: Option<String>,
    pub params: Option<Json>,
}

impl View for UiaaInfo {
    type V = UiaaInfoView;

    open spec fn view(&self) -> UiaaInfoView {
        UiaaInfoView {
            flows: self.flows@.map_values(|f: AuthFlow| f.stages@),
            completed: self.completed@,
            session: self.session,
            params: self.params,
        }
    }
}

/// A well-formed error response of the server.
#[derive(Debug)]
pub struct ServerError {
    pub status: u16,
    pub errcode: String,
    pub message: String,
}

/// Failures of the account store.
#[derive(Debug)]
pub enum CryptoStoreError {
    /// No account has been saved for this user and device.
    AccountNotFound,
    /// The stored pickle could not be read under the store's pickling mode.
    UnpicklingFailed,
    /// The backing database reported a failure.
    Database(String),
}

/// Every failure of the client, each with its own way of recovering.
#[derive(Debug)]
pub enum Error {
    /// The endpoint needs an access token and no session is active.
    AuthenticationRequired,
    /// The endpoint uses an authentication scheme that clients do not issue.
    NotClientRequest,
    /// The transport failed to deliver the request or its response.
    Transport(String),
    /// A request or response body could not be (de)serialized.
    Serialization(String),
    /// A local input/output failure.
    Io(String),
    /// A failed response, with this status, whose body could not be interpreted.
    ResponseDecode(u16),
    /// A well-formed error response of the server.
    MatrixProtocolError(ServerError),
    /// A failure of the account store.
    CryptoStoreError(CryptoStoreError),
    /// A failure of the state store.
    StateStoreError(String),
    /// The server asks for one more stage of interactive authentication.
    UiaaRequired(UiaaInfo),
}

/// The strings of `items`, where every item is a string.
pub open spec fn string_list(items: Seq<Json>) -> Option<Seq<String>> {
    if forall|i: int| 0 <= i < items.len() ==> items[i] is Str {
        Some(items.map_values(|j: Json| j->Str_0))
    } else {
        None
    }
}

/// The stages of one flow object.
pub open spec fn flow_of(j: Json) -> Option<Seq<String>> {
    match j {
        Json::Object(m) => match field(m@, "stages"@) {
            Some(Json::Array(items)) => string_list(items@),
            _ => None,
        },
        _ => None,
    }
}

/// The stages of every flow, where every item is a flow object.
pub open spec fn flow_list(items: Seq<Json>) -> Option<Seq<Seq<String>>> {
    if forall|i: int| 0 <= i < items.len() ==> flow_of(items[i]) is Some {
        Some(items.map_values(|j: Json| flow_of(j)->Some_0))
    } else {
        None
    }
}

/// The interactive authentication challenge that a body describes: an object
/// with a list of flows, optionally the completed stages, a session id and
/// the stages' parameters.
pub open spec fn uiaa_of(j: Json) -> Option<UiaaInfoView> {
    match j {
        Json::Object(m) => {
            let flows = match field(m@, "flows"@) {
                Some(Json::Array(items)) => flow_list(items@),
                _ => None,
            };
            let completed = match field(m@, "completed"@) {
                None => Some(Seq::<String>::empty()),
                Some(Json::Array(items)) => string_list(items@),
                _ => None,
            };
            let session = match field(m@, "session"@) {
                None => Some(None::<String>),
                Some(Json::Null) => Some(None::<String>),
                Some(Json::Str(s)) => Some(Some(s)),
                _ => None,
            };
            if flows is Some && completed is Some && session is Some {
                Some(
                    UiaaInfoView {
                        flows: flows->Some_0,
                        completed: completed->Some_0,
                        session: session->Some_0,
                        params: field(m@, "params"@),
                    },
                )
            } else {
                None
            }
        },
        _ => None,
    }
}

/// The error code and message of a plain error body.
pub open spec fn error_body_of(j: Json) -> Option<(String, String)> {
    match j {
        Json::Object(m) => match (field(m@, "errcode"@), field(m@, "error"@)) {
            (Some(Json::Str(code)), Some(Json::Str(msg))) => Some((code, msg)),
            _ => None,
        },
        _ => None,
    }
}

/// Whether the status is one of success.
pub open spec fn is_success(status: u16) -> bool {
    200 <= status < 300
}

/// Whether `e` is the error that a failed response with this status and
/// parsed body stands for.
pub open spec fn failure_of(e: Error, status: u16, parsed: Option<Json>) -> bool {
    if status == 401 && parsed is Some && uiaa_of(parsed->Some_0) is Some {
        e is UiaaRequired && e->UiaaRequired_0@ == uiaa_of(parsed->Some_0)->Some_0
    } else if parsed is Some && error_body_of(parsed->Some_0) is Some {
        &&& e is MatrixProtocolError
        &&& e->MatrixProtocolError_0.status == status
        &&& e->MatrixProtocolError_0.errcode == error_body_of(parsed->Some_0)->Some_0.0
        &&& e->MatrixProtocolError_0.message == error_body_of(parsed->Some_0)->Some_0.1
    } else {
        e == Error::ResponseDecode(status)
    }
}

fn strings_of(items: &Vec<Json>) -> (r: Option<Vec<String>>)
    ensures
        string_list(items@) == match r {
            Some(v) => Some(v@),
            None => None,
        },
{
    let mut out: Vec<String> = Vec::new();
    let mut i: usize = 0;
    while i < items.len()
        invariant
            0 <= i <= items@.len(),
            forall|k: int| 0 <= k < i ==> items@[k] is Str,
            out@ =~= items@.take(i as int).map_values(|j: Json| j->Str_0),
        decreases items@.len() - i,
    {
        match &items[i] {
            Json::Str(s) => out.push(s.clone()),
            _ => return None,
        }
        assert(items@.take(i as int + 1) =~= items@.take(i as int).push(items@[i as int]));
        i += 1;
    }
    assert(items@.take(i as int) =~= items@);
    Some(out)
}

fn flow_from(j: &Json) -> (r: Option<AuthFlow>)
    ensures
        flow_of(*j) == match r {
            Some(f) => Some(f.stages@),
            None => None,
        },
{
    match j {
        Json::Object(m) => match find_field(m, "stages") {
            Some(i) => match &m[i].1 {
                Json::Array(items) => match strings_of(items) {
                    Some(stages) => Some(AuthFlow { stages }),
                    None => None,
                },
                _ => None,
            },
            None => None,
        },
        _ => None,
    }
}

fn flows_of(items: &Vec<Json>) -> (r: Option<Vec<AuthFlow>>)
    ensures
        flow_list(items@) == match r {
            Some(v) => Some(v@.map_values(|f: AuthFlow| f.stages@)),
            None => None,
        },
{
    let mut out: Vec<AuthFlow> = Vec::new();
    let mut i: usize = 0;
    while i < items.len()
        invariant
            0 <= i <= items@.len(),
            out@.len() == i,
            forall|k: int|
                0 <= k < i ==> flow_of(#[trigger] items@[k]) == Some(out@[k].stages@),
        decreases items@.len() - i,
    {
        match flow_from(&items[i]) {
            Some(f) => out.push(f),
            None => return None,
        }
        i += 1;
    }
    assert(out@.map_values(|f: AuthFlow| f.stages@) =~= items@.map_values(
        |j: Json| flow_of(j)->Some_0,
    ));
    Some(out)
}

fn uiaa_from(j: &Json) -> (r: Option<UiaaInfo>)
    ensures
        (uiaa_of(*j) is Some) == (r is Some),
        r matches Some(info) ==> (info@ == (UiaaInfoView { params: None, ..uiaa_of(*j)->Some_0 })),
{
    let m = match j {
        Json::Object(m) => m,
        _ => return None,
    };
    let flows = match find_field(m, "flows") {
        Some(i) => match &m[i].1 {
            Json::Array(items) => flows_of(items),
            _ => None,
        },
        None => None,
    };
    let completed = match find_field(m, "completed") {
        Some(i) => match &m[i].1 {
            Json::Array(items) => strings_of(items),
            _ => None,
        },
        None => Some(Vec::new()),
    };
    let session = match find_field(m, "session") {
        Some(i) => match &m[i].1 {
            Json::Null => Some(None),
            Json::Str(s) => Some(Some(s.clone())),
            _ => None,
        },
        None => Some(None),
    };
    match (flows, completed, session) {
        (Some(flows), Some(completed), Some(session)) => {
            let info = UiaaInfo { flows, completed, session, params: None };
            assert(info@.completed =~= uiaa_of(*j)->Some_0.completed);
            Some(info)
        },
        _ => None,
    }
}

/// The value of the first member named `key` of an object, moved out of it.
fn take_field(j: Json, key: &str) -> (r: Option<Json>)
    ensures
        r == match j {
            Json::Object(m) => field(m@, key@),
            _ => None,
        },
{
    match j {
        Json::Object(mut m) => match find_field(&m, key) {
            Some(i) => Some(m.remove(i).1),
            None => None,
        },
        _ => None,
    }
}

fn error_body_from(j: &Json) -> (r: Option<(String, String)>)
    ensures
        r == error_body_of(*j),
{
    let m = match j {
        Json::Object(m) => m,
        _ => return None,
    };
    let code = match find_field(m, "errcode") {
        Some(i) => match &m[i].1 {
            Json::Str(s) => s.clone(),
            _ => return None,
        },
        None => return None,
    };
    match find_field(m, "error") {
        Some(i) => match &m[i].1 {
            Json::Str(s) => Some((code, s.clone())),
            _ => None,
        },
        None => None,
    }
}

impl Error {
    /// The error that a failed response stands for, given its status and its
    /// body as parsed JSON (`None` where the body is not JSON): a 401 whose
    /// body is an interactive authentication challenge gives `UiaaRequired`,
    /// a body with an error code and message gives `MatrixProtocolError`,
    /// anything else `ResponseDecode`.
    pub fn from_response(status: u16, parsed: Option<Json>) -> (r: Error)
        ensures
            failure_of(r, status, parsed),
    {
        if let Some(j) = parsed {
            if status == 401 {
                if let Some(info) = uiaa_from(&j) {
                    let params = take_field(j, "params");
                    let info = UiaaInfo { params, ..info };
                    return Error::UiaaRequired(info);
                }
            }
            if let Some((errcode, message)) = error_body_from(&j) {
                return Error::MatrixProtocolError(ServerError { status, errcode, message });
            }
        }
        Error::ResponseDecode(status)
    }

    /// The interactive authentication challenge that this error carries, if
    /// it is one.
    ///
    /// Some requests always fail the first time with a 401 whose body says
    /// how the user can authenticate; the request is then sent again with
    /// additional authentication data.
    pub fn uiaa_response(&self) -> (r: Option<&UiaaInfo>)
        ensures
            match self {
                Error::UiaaRequired(info) => r == Some(info),
                _ => r is None,
            },
    {
        match self {
            Error::UiaaRequired(info) => Some(info),
            _ => None,
        }
    }
}

} // verus!
