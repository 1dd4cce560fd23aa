//! Wire types for the Core IPC protocol.
//!
//! The protocol is JSON-RPC 2.0 carried as newline-delimited JSON over stdio:
//! one complete JSON object per line, no framing headers.
//!
//! The types here are the protocol's content. Turning a line into an
//! [`Incoming`] and a [`Response`] back into a line is JSON encoding, which the
//! caller does; what each frame means, and what is answered, is decided here
//! and in [`super::server`].

use vstd::prelude::*;

use super::codes;
use crate::doctor::Options;
use crate::error::{Error, error_hint, error_kind, error_message};
use crate::text::{owned, push_str, views};
use crate::version::BuildInfo;
#[allow(unused_imports)]
use vstd::string::*;

verus! {

/// The only JSON-RPC version this protocol uses.
pub const JSONRPC_VERSION: &'static str = "2.0";

/// The names of the methods this build serves.
pub open spec fn method_names() -> Seq<Seq<char>> {
    seq![
        "initialize"@,
        "initialized"@,
        "shutdown"@,
        "exit"@,
        "$/ping"@,
        "core/version"@,
        "core/doctor"@,
        "core/config"@,
    ]
}

/// The names of the notifications the server may send unprompted.
pub open spec fn notification_names() -> Seq<Seq<char>> {
    seq!["core/ready"@, "core/log"@]
}

/// Method names this build serves. Also reported in the handshake's
/// capabilities so a client can feature-detect instead of comparing versions.
pub fn methods() -> (v: Vec<&'static str>)
    ensures
        v@.map_values(|s: &'static str| s@) == method_names(),
{
    let v = vec![
        "initialize",
        "initialized",
        "shutdown",
        "exit",
        "$/ping",
        "core/version",
        "core/doctor",
        "core/config",
    ];
    assert(v@.map_values(|s: &'static str| s@) =~= method_names());
    v
}

/// Notification methods the server may send to the client unprompted.
pub fn server_notifications() -> (v: Vec<&'static str>)
    ensures
        v@.map_values(|s: &'static str| s@) == notification_names(),
{
    let v = vec!["core/ready", "core/log"];
    assert(v@.map_values(|s: &'static str| s@) =~= notification_names());
    v
}

fn owned_all(names: Vec<&'static str>) -> (v: Vec<String>)
    ensures
        views(v@) == names@.map_values(|s: &'static str| s@),
{
    let mut v: Vec<String> = Vec::new();
    let mut i: usize = 0;
    while i < names.len()
        invariant
            i <= names.len(),
            views(v@) == names@.map_values(|s: &'static str| s@).take(i as int),
        decreases names.len() - i,
    {
        let ghost before = v@;
        v.push(owned(names[i]));
        assert(views(v@) =~= views(before).push(names@[i as int]@));
        assert(names@.map_values(|s: &'static str| s@).take(i + 1) =~= names@.map_values(
            |s: &'static str| s@,
        ).take(i as int).push(names@[i as int]@));
        i = i + 1;
    }
    assert(names@.map_values(|s: &'static str| s@).take(names.len() as int) =~= names@.map_values(
        |s: &'static str| s@,
    ));
    v
}

/// A JSON-RPC request identifier.
#[derive(Debug, Clone)]
pub enum Id {
    /// Numeric identifier, which is what most clients use.
    Number(i64),
    /// String identifier, permitted by JSON-RPC 2.0.
    Text(String),
}

/// The abstract form of an [`Id`].
pub enum IdView {
    Number(i64),
    Text(Seq<char>),
}

impl View for Id {
    type V = IdView;

    open spec fn view(&self) -> IdView {
        match self {
            Id::Number(n) => IdView::Number(*n),
            Id::Text(t) => IdView::Text(t@),
        }
    }
}

/// The abstract form of an optional [`Id`].
pub open spec fn id_view(id: Option<Id>) -> Option<IdView> {
    match id {
        Some(i) => Some(i@),
        None => None,
    }
}

/// What the client tells the server about itself in `initialize`.
#[derive(Debug, Clone)]
pub struct InitializeParams {
    /// Client name, e.g. `chiploom-vscode`.
    pub client_name: String,
    /// Client version.
    pub client_version: Option<String>,
    /// Protocol version the client speaks. Refused if this build cannot serve it.
    pub protocol_version: u32,
    /// Workspace folders the client has open.
    pub workspace_roots: Vec<String>,
}

impl Default for InitializeParams {
    /// No client named and, deliberately, protocol version 0: a version no
    /// build serves, so a client that states none is told so rather than
    /// being accepted at whatever this build happens to speak.
    fn default() -> (p: Self)
        ensures
            p.client_name@.len() == 0,
            p.client_version is None,
            p.protocol_version == 0,
            p.workspace_roots@.len() == 0,
    {
        InitializeParams {
            client_name: String::new(),
            client_version: None,
            protocol_version: 0,
            workspace_roots: Vec::new(),
        }
    }
}

/// Parameters for `core/doctor`.
#[derive(Debug, Clone, Copy, PartialEq, Eq, Structural)]
pub struct DoctorParams {
    /// Run checks that need the network.
    pub online: bool,
    /// Prove directories are writable.
    pub write_probe: bool,
}

/// The value a missing `writeProbe` takes.
pub fn default_true() -> (b: bool)
    ensures
        b,
{
    true
}

impl Default for DoctorParams {
    /// Network checks off and the write probe on, matching the command line.
    fn default() -> (p: Self)
        ensures
            !p.online,
            p.write_probe,
    {
        DoctorParams { online: false, write_probe: default_true() }
    }
}

impl From<DoctorParams> for Options {
    fn from(params: DoctorParams) -> (o: Options) {
        Options { online: params.online, write_probe: params.write_probe }
    }
}

impl vstd::std_specs::convert::FromSpecImpl<DoctorParams> for Options {
    open spec fn obeys_from_spec() -> bool {
        true
    }

    open spec fn from_spec(params: DoctorParams) -> Options {
        Options { online: params.online, write_probe: params.write_probe }
    }
}

/// A request's parameters, as decoded by the caller.
///
/// Only `initialize` and `core/doctor` read their parameters, so when a frame
/// carries any, the caller decodes them as both shapes and hands over each
/// outcome; the server consults the one its method needs.
#[derive(Debug)]
pub enum Params {
    /// Absent, or `null`: every parameter takes its default.
    Absent,
    /// Present, with the outcome of decoding them for each method that reads
    /// parameters; a failure carries the decoder's explanation.
    Given {
        initialize: Result<InitializeParams, String>,
        doctor: Result<DoctorParams, String>,
    },
}

/// A frame received from the client.
///
/// `jsonrpc` and `id` are optional at this layer so a malformed frame can be
/// answered with a proper JSON-RPC error rather than a failure that loses the
/// request id.
#[derive(Debug)]
pub struct Incoming {
    /// Must be `"2.0"` when present.
    pub jsonrpc: Option<String>,
    /// Absent for notifications.
    pub id: Option<Id>,
    /// The method being invoked.
    pub method: String,
    /// Method parameters.
    pub params: Params,
}

impl Incoming {
    /// Whether this frame expects no response.
    pub fn is_notification(&self) -> (b: bool)
        ensures
            b == self.id is None,
    {
        self.id.is_none()
    }
}

/// Structured detail attached to an error.
#[derive(Debug, Clone)]
pub enum ErrorData {
    /// The method that does not exist, and every method that does.
    MethodNotFound { method: String, supported: Vec<String> },
    /// What to do about the failure.
    Hint { hint: String },
    /// Both protocol versions, and what to do about the mismatch.
    VersionMismatch { requested: u32, supported: u32, hint: String },
    /// The failure class, and what to do about it when something applies.
    Failure { kind: String, hint: Option<String> },
}

/// The abstract form of [`ErrorData`].
pub enum ErrorDataView {
    MethodNotFound { method: Seq<char>, supported: Seq<Seq<char>> },
    Hint { hint: Seq<char> },
    VersionMismatch { requested: u32, supported: u32, hint: Seq<char> },
    Failure { kind: Seq<char>, hint: Option<Seq<char>> },
}

impl View for ErrorData {
    type V = ErrorDataView;

    open spec fn view(&self) -> ErrorDataView {
        match self {
            ErrorData::MethodNotFound { method, supported } => ErrorDataView::MethodNotFound {
                method: method@,
                supported: views(supported@),
            },
            ErrorData::Hint { hint } => ErrorDataView::Hint { hint: hint@ },
            ErrorData::VersionMismatch { requested, supported, hint } =>
                ErrorDataView::VersionMismatch {
                requested: *requested,
                supported: *supported,
                hint: hint@,
            },
            ErrorData::Failure { kind, hint } => ErrorDataView::Failure {
                kind: kind@,
                hint: hint.deep_view(),
            },
        }
    }
}

/// An error returned in place of a result.
#[derive(Debug, Clone)]
pub struct RpcError {
    /// One of the codes in [`codes`].
    pub code: i32,
    /// A single sentence a client can show a user directly.
    pub message: String,
    /// Structured detail.
    pub data: Option<ErrorData>,
}

/// The abstract form of an [`RpcError`].
pub struct RpcErrorView {
    pub code: i32,
    pub message: Seq<char>,
    pub data: Option<ErrorDataView>,
}

impl View for RpcError {
    type V = RpcErrorView;

    open spec fn view(&self) -> RpcErrorView {
        RpcErrorView {
            code: self.code,
            message: self.message@,
            data: match self.data {
                Some(d) => Some(d@),
                None => None,
            },
        }
    }
}

impl RpcError {
    /// Builds an error with no structured detail.
    pub fn new(code: i32, message: String) -> (e: RpcError)
        ensures
            e@ == (RpcErrorView { code, message: message@, data: None }),
    {
        RpcError { code, message, data: None }
    }

    /// Attaches structured detail.
    pub fn with_data(self, data: ErrorData) -> (e: RpcError)
        ensures
            e@ == (RpcErrorView { data: Some(data@), ..self@ }),
    {
        RpcError { data: Some(data), ..self }
    }

    /// `-32601`, naming the method that does not exist and listing the ones
    /// that do.
    pub fn method_not_found(method: &str) -> (e: RpcError)
        ensures
            e@ == (RpcErrorView {
                code: codes::METHOD_NOT_FOUND,
                message: "unknown method `"@ + method@ + "`"@,
                data: Some(ErrorDataView::MethodNotFound { method: method@, supported: method_names() }),
            }),
    {
        let mut message = owned("unknown method `");
        push_str(&mut message, method);
        push_str(&mut message, "`");
        let supported = owned_all(methods());
        RpcError::new(codes::METHOD_NOT_FOUND, message).with_data(
            ErrorData::MethodNotFound { method: owned(method), supported },
        )
    }

    /// `-32602`, explaining what was wrong with the params.
    pub fn invalid_params(message: String) -> (e: RpcError)
        ensures
            e@ == (RpcErrorView { code: codes::INVALID_PARAMS, message: message@, data: None }),
    {
        RpcError::new(codes::INVALID_PARAMS, message)
    }

    /// A library failure as `-32001`, carrying its message, its class and, when
    /// one applies, its hint.
    pub fn from_error(err: &Error) -> (e: RpcError)
        ensures
            e@ == (RpcErrorView {
                code: codes::REQUEST_FAILED,
                message: error_message(*err),
                data: Some(ErrorDataView::Failure { kind: error_kind(*err), hint: error_hint(*err) }),
            }),
    {
        RpcError::new(codes::REQUEST_FAILED, err.message()).with_data(
            ErrorData::Failure { kind: owned(err.kind()), hint: err.hint() },
        )
    }
}

/// Feature discovery. Clients branch on this, never on the version string.
#[derive(Debug, Clone)]
pub struct Capabilities {
    /// Every method this build serves.
    pub methods: Vec<String>,
    /// Every notification this build may send.
    pub notifications: Vec<String>,
}

impl Default for Capabilities {
    fn default() -> (c: Self)
        ensures
            views(c.methods@) == method_names(),
            views(c.notifications@) == notification_names(),
    {
        Capabilities { methods: owned_all(methods()), notifications: owned_all(server_notifications()) }
    }
}

/// What the server tells the client about itself.
#[derive(Debug, Clone)]
pub struct InitializeResult {
    /// Always `chiploom-core`.
    pub server_name: String,
    /// Release version of the core.
    pub server_version: String,
    /// Protocol version in force for this session.
    pub protocol_version: u32,
    /// What this build can do.
    pub capabilities: Capabilities,
    /// Identifier for this session, so client and server logs can be correlated.
    pub session_id: String,
    /// The server's process id.
    pub pid: u32,
}

/// The abstract form of an [`InitializeResult`].
pub struct InitializeView {
    pub server_name: Seq<char>,
    pub server_version: Seq<char>,
    pub protocol_version: u32,
    pub methods: Seq<Seq<char>>,
    pub notifications: Seq<Seq<char>>,
    pub session_id: Seq<char>,
    pub pid: u32,
}

impl View for InitializeResult {
    type V = InitializeView;

    open spec fn view(&self) -> InitializeView {
        InitializeView {
            server_name: self.server_name@,
            server_version: self.server_version@,
            protocol_version: self.protocol_version,
            methods: views(self.capabilities.methods@),
            notifications: views(self.capabilities.notifications@),
            session_id: self.session_id@,
            pid: self.pid,
        }
    }
}

/// Result of `$/ping`.
#[derive(Debug, Clone, Copy, PartialEq, Eq, Structural)]
pub struct PongResult {
    /// Milliseconds since the server started serving.
    pub uptime_ms: u64,
    /// Whether `initialize` has completed.
    pub initialized: bool,
}

/// What a successful request returns.
///
/// `Config` and `Doctor` name results the caller produces: the loaded
/// configuration it serves, and a diagnostics run with the given options over
/// what it finds on the machine.
#[derive(Debug, Clone)]
pub enum Answer {
    /// `null`.
    Null,
    /// The handshake's result.
    Initialize(InitializeResult),
    /// The liveness probe's result.
    Pong(PongResult),
    /// Build provenance.
    Version(BuildInfo),
    /// The effective configuration, paths, layers and warnings.
    Config,
    /// A diagnostics report, run with these options.
    Doctor(Options),
}

/// The abstract form of an [`Answer`].
pub enum AnswerView {
    Null,
    Initialize(InitializeView),
    Pong(PongResult),
    Version(BuildInfo),
    Config,
    Doctor(Options),
}

impl View for Answer {
    type V = AnswerView;

    open spec fn view(&self) -> AnswerView {
        match self {
            Answer::Null => AnswerView::Null,
            Answer::Initialize(i) => AnswerView::Initialize(i@),
            Answer::Pong(p) => AnswerView::Pong(*p),
            Answer::Version(b) => AnswerView::Version(*b),
            Answer::Config => AnswerView::Config,
            Answer::Doctor(o) => AnswerView::Doctor(*o),
        }
    }
}

/// A response to a request.
#[derive(Debug, Clone)]
pub struct Response {
    /// Always `"2.0"`.
    pub jsonrpc: String,
    /// Echoes the request id; `None` when it could not be read.
    pub id: Option<Id>,
    /// Present on success.
    pub result: Option<Answer>,
    /// Present on failure.
    pub error: Option<RpcError>,
}

/// The abstract form of a [`Response`].
pub struct ResponseView {
    pub jsonrpc: Seq<char>,
    pub id: Option<IdView>,
    pub result: Option<AnswerView>,
    pub error: Option<RpcErrorView>,
}

impl View for Response {
    type V = ResponseView;

    open spec fn view(&self) -> ResponseView {
        ResponseView {
            jsonrpc: self.jsonrpc@,
            id: id_view(self.id),
            result: match self.result {
                Some(a) => Some(a@),
                None => None,
            },
            error: match self.error {
                Some(e) => Some(e@),
                None => None,
            },
        }
    }
}

impl Response {
    /// A successful response.
    pub fn success(id: Option<Id>, result: Answer) -> (r: Response)
        ensures
            r@ == (ResponseView {
                jsonrpc: JSONRPC_VERSION@,
                id: id_view(id),
                result: Some(result@),
                error: None,
            }),
    {
        Response { jsonrpc: owned(JSONRPC_VERSION), id, result: Some(result), error: None }
    }

    /// A failed response.
    pub fn failure(id: Option<Id>, error: RpcError) -> (r: Response)
        ensures
            r@ == (ResponseView {
                jsonrpc: JSONRPC_VERSION@,
                id: id_view(id),
                result: None,
                error: Some(error@),
            }),
    {
        Response { jsonrpc: owned(JSONRPC_VERSION), id, result: None, error: Some(error) }
    }
}

/// The payload of `core/ready`.
#[derive(Debug, Clone)]
pub struct ReadyParams {
    /// The session's identifier.
    pub session_id: String,
    /// The core's release version.
    pub version: String,
}

/// A server-initiated message that expects no reply.
#[derive(Debug, Clone)]
pub struct Notification {
    /// Always `"2.0"`.
    pub jsonrpc: String,
    /// One of the server's notifications.
    pub method: String,
    /// Payload.
    pub params: ReadyParams,
}

/// The abstract form of a [`Notification`].
pub struct NotificationView {
    pub jsonrpc: Seq<char>,
    pub method: Seq<char>,
    pub session_id: Seq<char>,
    pub version: Seq<char>,
}

impl View for Notification {
    type V = NotificationView;

    open spec fn view(&self) -> NotificationView {
        NotificationView {
            jsonrpc: self.jsonrpc@,
            method: self.method@,
            session_id: self.params.session_id@,
            version: self.params.version@,
        }
    }
}

impl Notification {
    /// Builds a notification.
    pub fn new(method: &str, params: ReadyParams) -> (n: Notification)
        ensures
            n@ == (NotificationView {
                jsonrpc: JSONRPC_VERSION@,
                method: method@,
                session_id: params.session_id@,
                version: params.version@,
            }),
    {
        Notification { jsonrpc: owned(JSONRPC_VERSION), method: owned(method), params }
    }
}

} // verus!
