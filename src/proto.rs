//! The control protocol's values: errors with their numeric codes, the method
//! names served, and the plain records reported to clients.
use vstd::prelude::*;
use vstd::string::StringExecFns;

use crate::sink::str_eq;

verus! {

/// The request was not valid JSON.
pub const PARSE_ERROR: i32 = -32700;

/// The request was not a valid request object.
pub const INVALID_REQUEST: i32 = -32600;

/// No such method is served.
pub const METHOD_NOT_FOUND: i32 = -32601;

/// The parameters did not fit the method, or named an unknown entity.
pub const INVALID_PARAMS: i32 = -32602;

/// The request could not be served for another reason.
pub const INTERNAL_ERROR: i32 = -32603;

/// An error reported for one request.
pub struct ResponseError {
    pub code: i32,
    pub message: String,
}

/// `prefix` followed by `detail`.
pub(crate) fn prefixed(prefix: &str, detail: &str) -> (r: String)
    ensures
        r@ == prefix@ + detail@,
{
    let mut s = prefix.to_owned();
    s.append(detail);
    s
}

/// The kinds of id a request may name.
#[derive(Clone, Copy, Debug, PartialEq, Eq, Structural)]
pub enum Entity {
    Client,
    Group,
    Stream,
}

/// How an unknown id of each kind is described.
pub open spec fn unknown_text(entity: Entity) -> Seq<char> {
    match entity {
        Entity::Client => "Unknown client: "@,
        Entity::Group => "Unknown group: "@,
        Entity::Stream => "Unknown stream: "@,
    }
}

impl ResponseError {
    /// An error with the given code and message.
    pub fn message(code: i32, message: String) -> (r: ResponseError)
        ensures
            r.code == code,
            r.message == message,
    {
        ResponseError { code, message }
    }

    /// An error with the given code, described by `detail`.
    pub fn error(code: i32, detail: &str) -> (r: ResponseError)
        ensures
            r.code == code,
            r.message@ == detail@,
    {
        ResponseError::message(code, detail.to_owned())
    }

    /// The request text could not be parsed.
    pub fn parse_error(detail: &str) -> (r: ResponseError)
        ensures
            r.code == PARSE_ERROR,
            r.message@ == "Parse error: "@ + detail@,
    {
        ResponseError::message(PARSE_ERROR, prefixed("Parse error: ", detail))
    }

    /// The request was not a valid request object.
    pub fn invalid_request(request: &str) -> (r: ResponseError)
        ensures
            r.code == INVALID_REQUEST,
            r.message@ == "Invalid request: "@ + request@,
    {
        ResponseError::message(INVALID_REQUEST, prefixed("Invalid request: ", request))
    }

    /// No method of that name is served.
    pub fn method_not_found(method: &str) -> (r: ResponseError)
        ensures
            r.code == METHOD_NOT_FOUND,
            r.message@ == "Method not found: "@ + method@,
    {
        ResponseError::message(METHOD_NOT_FOUND, prefixed("Method not found: ", method))
    }

    /// The parameters were not acceptable.
    pub fn invalid_params(message: &str) -> (r: ResponseError)
        ensures
            r.code == INVALID_PARAMS,
            r.message@ == "Invalid parameter: "@ + message@,
    {
        ResponseError::message(INVALID_PARAMS, prefixed("Invalid parameter: ", message))
    }

    /// A request named an id of `entity` that is not known.
    pub fn unknown(entity: Entity, id: &str) -> (r: ResponseError)
        ensures
            r.code == INVALID_PARAMS,
            r.message@ == "Invalid parameter: "@ + unknown_text(entity) + id@,
    {
        let what = match entity {
            Entity::Client => "Unknown client: ",
            Entity::Group => "Unknown group: ",
            Entity::Stream => "Unknown stream: ",
        };
        proof {
            reveal_strlit("Unknown client: ");
            reveal_strlit("Unknown group: ");
            reveal_strlit("Unknown stream: ");
        }
        let text = prefixed(what, id);
        let r = ResponseError::invalid_params(text.as_str());
        proof {
            assert(r.message@ =~= "Invalid parameter: "@ + unknown_text(entity) + id@);
        }
        r
    }

    /// The request failed for another reason, described by `detail`.
    pub fn internal(detail: &str) -> (r: ResponseError)
        ensures
            r.code == INTERNAL_ERROR,
            r.message@ == detail@,
    {
        ResponseError::message(INTERNAL_ERROR, detail.to_owned())
    }
}

/// The methods the control protocol serves.
#[derive(Clone, Copy, Debug, PartialEq, Eq, Structural)]
pub enum Method {
    ClientGetStatus,
    ClientSetVolume,
    GroupGetStatus,
    GroupSetMute,
    GroupSetStream,
    ServerGetRpcVersion,
    ServerGetStatus,
}

/// The wire name of each method.
pub open spec fn method_name(m: Method) -> Seq<char> {
    match m {
        Method::ClientGetStatus => "Client.GetStatus"@,
        Method::ClientSetVolume => "Client.SetVolume"@,
        Method::GroupGetStatus => "Group.GetStatus"@,
        Method::GroupSetMute => "Group.SetMute"@,
        Method::GroupSetStream => "Group.SetStream"@,
        Method::ServerGetRpcVersion => "Server.GetRPCVersion"@,
        Method::ServerGetStatus => "Server.GetStatus"@,
    }
}

/// No two methods share a wire name.
proof fn lemma_method_names_distinct()
    ensures
        forall|a: Method, b: Method| #[trigger] method_name(a) == #[trigger] method_name(b) ==> a == b,
{
    reveal_strlit("Client.GetStatus");
    reveal_strlit("Client.SetVolume");
    reveal_strlit("Group.GetStatus");
    reveal_strlit("Group.SetMute");
    reveal_strlit("Group.SetStream");
    reveal_strlit("Server.GetRPCVersion");
    reveal_strlit("Server.GetStatus");
    assert("Client.GetStatus"@[7] != "Client.SetVolume"@[7]);
    assert("Client.GetStatus"@[0] != "Server.GetStatus"@[0]);
    assert("Client.SetVolume"@[0] != "Server.GetStatus"@[0]);
    assert("Group.GetStatus"@[6] != "Group.SetStream"@[6]);
    assert forall|a: Method, b: Method| #[trigger] method_name(a) == #[trigger] method_name(b) implies a
        == b by {
        if a != b {
            match a {
                Method::ClientGetStatus => {},
                Method::ClientSetVolume => {},
                Method::GroupGetStatus => {},
                Method::GroupSetMute => {},
                Method::GroupSetStream => {},
                Method::ServerGetRpcVersion => {},
                Method::ServerGetStatus => {},
            }
            match b {
                Method::ClientGetStatus => {},
                Method::ClientSetVolume => {},
                Method::GroupGetStatus => {},
                Method::GroupSetMute => {},
                Method::GroupSetStream => {},
                Method::ServerGetRpcVersion => {},
                Method::ServerGetStatus => {},
            }
            assert(method_name(a).len() != method_name(b).len() || exists|i: int|
                0 <= i < method_name(a).len() && method_name(a)[i] != method_name(b)[i]);
        }
    }
}

impl Method {
    /// The method called `name`, or the error that reports an unknown one.
    pub fn from_name(name: &str) -> (r: Result<Method, ResponseError>)
        ensures
            r is Ok ==> method_name(r->Ok_0) == name@,
            forall|m: Method| #[trigger] method_name(m) == name@ ==> r is Ok && r->Ok_0 == m,
            r is Err ==> (forall|m: Method| method_name(m) != name@),
            r is Err ==> r->Err_0.code == METHOD_NOT_FOUND && r->Err_0.message@
                == "Method not found: "@ + name@,
    {
        proof {
            lemma_method_names_distinct();
            reveal_strlit("Client.GetStatus");
            reveal_strlit("Client.SetVolume");
            reveal_strlit("Group.GetStatus");
            reveal_strlit("Group.SetMute");
            reveal_strlit("Group.SetStream");
            reveal_strlit("Server.GetRPCVersion");
            reveal_strlit("Server.GetStatus");
        }
        let r = if str_eq(name, "Client.GetStatus") {
            Ok(Method::ClientGetStatus)
        } else if str_eq(name, "Client.SetVolume") {
            Ok(Method::ClientSetVolume)
        } else if str_eq(name, "Group.GetStatus") {
            Ok(Method::GroupGetStatus)
        } else if str_eq(name, "Group.SetMute") {
            Ok(Method::GroupSetMute)
        } else if str_eq(name, "Group.SetStream") {
            Ok(Method::GroupSetStream)
        } else if str_eq(name, "Server.GetRPCVersion") {
            Ok(Method::ServerGetRpcVersion)
        } else if str_eq(name, "Server.GetStatus") {
            Ok(Method::ServerGetStatus)
        } else {
            proof {
                assert forall|m: Method| method_name(m) != name@ by {
                    match m {
                        Method::ClientGetStatus => {},
                        Method::ClientSetVolume => {},
                        Method::GroupGetStatus => {},
                        Method::GroupSetMute => {},
                        Method::GroupSetStream => {},
                        Method::ServerGetRpcVersion => {},
                        Method::ServerGetStatus => {},
                    }
                }
            }
            Err(ResponseError::method_not_found(name))
        };
        proof {
            if r is Ok {
                assert(method_name(r->Ok_0) == name@);
            }
        }
        r
    }
}

/// Parameters of a method that takes none.
pub struct Empty {}

/// The host a client runs on; nothing is reported of it.
pub struct Host {}

impl Default for Host {
    fn default() -> (r: Host) {
        Host {  }
    }
}

/// Seconds and microseconds since the Unix epoch.
pub struct Timestamp {
    pub sec: u64,
    pub usec: u32,
}

#[verifier::external_type_specification]
#[verifier::external_body]
pub struct ExSystemTime(std::time::SystemTime);

/// Relies on `SystemTime::now`: a reading of the system clock.
#[verifier::external_body]
fn clock_now() -> (r: std::time::SystemTime) {
    std::time::SystemTime::now()
}

/// Relies on `SystemTime::duration_since(UNIX_EPOCH)`: the time elapsed since
/// the epoch, or `None` when `t` is earlier than the epoch.
#[verifier::external_body]
fn since_unix_epoch(t: &std::time::SystemTime) -> (r: Option<core::time::Duration>) {
    match t.duration_since(std::time::UNIX_EPOCH) {
        Ok(d) => Some(d),
        Err(_) => None,
    }
}

pub assume_specification[ core::time::Duration::as_secs ](d: &core::time::Duration) -> u64;

pub assume_specification[ core::time::Duration::subsec_micros ](d: &core::time::Duration) -> (r:
    u32)
    ensures
        r < 1_000_000,
;

impl Timestamp {
    /// The timestamp for a clock reading of seconds and microseconds since the
    /// epoch; `None` when the clock read earlier than the epoch.
    pub fn from_clock(reading: Option<(u64, u32)>) -> (r: Option<Timestamp>)
        ensures
            reading matches Some(t) ==> r matches Some(ts) && ts.sec == t.0 && ts.usec == t.1,
            reading is None ==> r is None,
    {
        match reading {
            Some((sec, usec)) => Some(Timestamp { sec, usec }),
            None => None,
        }
    }

    /// The time now, as `from_clock` makes it of the system clock: `None` when
    /// the clock reads earlier than the epoch.
    pub fn now() -> (r: Option<Timestamp>)
        ensures
            r matches Some(ts) ==> ts.usec < 1_000_000,
    {
        let reading = match since_unix_epoch(&clock_now()) {
            Some(d) => Some((d.as_secs(), d.subsec_micros())),
            None => None,
        };
        Timestamp::from_clock(reading)
    }
}

/// Identity of the server or client software.
pub struct Meta {
    pub name: String,
    pub protocol: u32,
    pub version: String,
}

/// Version of the control protocol served.
pub const PROTOCOL_VERSION: u32 = 2;

impl Default for Meta {
    fn default() -> (r: Meta)
        ensures
            r.name@ == "soundwire"@,
            r.protocol == PROTOCOL_VERSION,
            r.version@ == "0.1.0"@,
    {
        Meta { name: "soundwire".to_owned(), protocol: PROTOCOL_VERSION, version: "0.1.0".to_owned() }
    }
}

/// Parameters and result of a mute change.
pub struct Mute {
    pub mute: bool,
}

/// Parameters of a stream change: the source to route from.
pub struct StreamId {
    pub stream_id: String,
}

/// Whether a source is delivering audio.
#[derive(Clone, Copy, Debug, PartialEq, Eq, Structural)]
pub enum StreamStatus {
    Idle,
    Active,
}

impl From<bool> for StreamStatus {
    fn from(value: bool) -> (r: StreamStatus) {
        if value {
            StreamStatus::Active
        } else {
            StreamStatus::Idle
        }
    }
}

impl vstd::std_specs::convert::FromSpecImpl<bool> for StreamStatus {
    open spec fn obeys_from_spec() -> bool {
        true
    }

    open spec fn from_spec(v: bool) -> StreamStatus {
        if v {
            StreamStatus::Active
        } else {
            StreamStatus::Idle
        }
    }
}

/// Version of the control protocol, as reported to clients.
pub struct Version {
    pub major: u32,
    pub minor: u32,
    pub patch: u32,
}

impl Default for Version {
    fn default() -> (r: Version)
        ensures
            r.major == PROTOCOL_VERSION && r.minor == 0 && r.patch == 0,
    {
        Version { major: PROTOCOL_VERSION, minor: 0, patch: 0 }
    }
}

/// The server part of a status report.
pub struct ServerInner {
    pub host: Host,
    pub meta: Meta,
}

/// What is sent back for one request.
pub enum Reply<T> {
    /// Nothing: the request was a notification, without an id, and succeeded.
    Nothing,
    /// The result, under the request's id.
    Result(String, T),
    /// An error, under the request's id when it had one.
    Error(Option<String>, ResponseError),
}

/// The reply to a request with `id` whose handling came out as `outcome`. A
/// request that could not be read at all has no id.
pub fn reply<T>(id: Option<String>, outcome: Result<T, ResponseError>) -> (r: Reply<T>)
    ensures
        outcome matches Ok(v) ==> (id matches Some(i) ==> r == Reply::Result(i, v)),
        outcome is Ok && id is None ==> r is Nothing,
        outcome matches Err(e) ==> r == Reply::<T>::Error(id, e),
{
    match outcome {
        Ok(v) => match id {
            Some(i) => Reply::Result(i, v),
            None => Reply::Nothing,
        },
        Err(e) => Reply::Error(id, e),
    }
}

} // verus!
