//! The Core IPC server: the decisions of a session, one frame at a time.
//!
//! The caller runs the read-dispatch-write loop: it reads a line, skips it when
//! [`super::is_blank`], decodes it into an [`Incoming`] (or the decoder's
//! complaint), hands it to [`Server::serve`], and performs the [`Step`] that
//! comes back -- writing a frame, producing a configuration or diagnostics
//! result the answer names, or ending the session.

use vstd::prelude::*;

use super::codes;
use super::protocol::{
    Answer, AnswerView, Capabilities, DoctorParams, ErrorData, ErrorDataView, Id, IdView, Incoming,
    InitializeParams,
    InitializeResult, InitializeView, JSONRPC_VERSION, Notification, NotificationView, Params,
    PongResult, ReadyParams, Response, ResponseView, RpcError, RpcErrorView, id_view, method_names,
    notification_names,
};
use crate::config::Loaded;
use crate::config::loader::LoadedView;
use crate::doctor::Options;
use crate::error::ProtocolError;
use crate::text::{decimal, hex, hex_string, is_lower_hex, lemma_hex_digits, owned, push_str, str_eq};
use crate::version::{BuildInfo, PROTOCOL_VERSION, VERSION};
#[allow(unused_imports)]
use vstd::string::*;

verus! {

/// Session lifecycle.
#[derive(Debug, Clone, Copy, PartialEq, Eq, Structural)]
pub enum State {
    /// Only `initialize`, `exit` and `$/ping` are served.
    Uninitialized,
    /// Every method is served.
    Ready,
    /// `shutdown` was received; the client is expected to send `exit` next.
    ShuttingDown,
}

/// Why a session ended.
#[derive(Debug, Clone, Copy, PartialEq, Eq, Structural)]
pub enum Outcome {
    /// The client sent `exit` after `shutdown`, as the protocol prescribes.
    CleanExit,
    /// The client sent `exit` without `shutdown` first. Served, but it usually
    /// means the client crashed or was killed.
    AbruptExit,
    /// The transport reached end of input. Normal when a client is terminated.
    TransportClosed,
}

impl Outcome {
    /// Whether the session ended the way the protocol prescribes.
    pub fn is_clean(self) -> (b: bool)
        ensures
            b == (self == Outcome::CleanExit),
    {
        match self {
            Outcome::CleanExit => true,
            _ => false,
        }
    }
}

/// What the caller does after one frame.
#[derive(Debug)]
pub enum Step {
    /// Write this response.
    Reply(Response),
    /// Write this notification.
    Ready(Notification),
    /// Write nothing.
    Silent,
    /// Run the diagnostics with these options and write nothing: a
    /// `core/doctor` notification still does its work, it only goes unanswered.
    Diagnose(Options),
    /// End the session.
    Exit(Outcome),
}

/// The abstract form of a [`Step`].
pub enum StepView {
    Reply(ResponseView),
    Ready(NotificationView),
    Silent,
    Diagnose(Options),
    Exit(Outcome),
}

impl View for Step {
    type V = StepView;

    open spec fn view(&self) -> StepView {
        match self {
            Step::Reply(r) => StepView::Reply(r@),
            Step::Ready(n) => StepView::Ready(n@),
            Step::Silent => StepView::Silent,
            Step::Diagnose(o) => StepView::Diagnose(*o),
            Step::Exit(o) => StepView::Exit(*o),
        }
    }
}

/// A Core IPC session.
#[derive(Debug)]
pub struct Server {
    loaded: Loaded,
    build: BuildInfo,
    state: State,
    session_id: String,
    pid: u32,
}

/// The abstract form of a [`Server`].
pub struct ServerView {
    pub state: State,
    pub session_id: Seq<char>,
    pub pid: u32,
    pub loaded: LoadedView,
    pub build: BuildInfo,
}

impl View for Server {
    type V = ServerView;

    closed spec fn view(&self) -> ServerView {
        ServerView {
            state: self.state,
            session_id: self.session_id@,
            pid: self.pid,
            loaded: self.loaded@,
            build: self.build,
        }
    }
}

/// The refusal of a request that arrived before the handshake.
pub open spec fn not_initialized(method: Seq<char>) -> RpcErrorView {
    RpcErrorView {
        code: codes::SERVER_NOT_INITIALIZED,
        message: "received `"@ + method + "` before the session was initialized"@,
        data: Some(ErrorDataView::Hint { hint: "Send `initialize` before any other request."@ }),
    }
}

/// The refusal of a protocol version this build does not speak.
pub open spec fn version_refusal(requested: u32) -> RpcErrorView {
    RpcErrorView {
        code: codes::UNSUPPORTED_PROTOCOL_VERSION,
        message: "protocol version "@ + decimal(requested as nat)
            + " is not supported (this build speaks version "@ + decimal(PROTOCOL_VERSION as nat)
            + ")"@,
        data: Some(
            ErrorDataView::VersionMismatch {
                requested,
                supported: PROTOCOL_VERSION,
                hint: "Update the Chip Loom extension and the chiploom binary together."@,
            },
        ),
    }
}

/// The refusal of parameters that could not be decoded.
pub open spec fn params_refusal(m: Seq<char>) -> RpcErrorView {
    RpcErrorView { code: codes::INVALID_PARAMS, message: "invalid params: "@ + m, data: None }
}

/// The refusal of an unknown method.
pub open spec fn unknown_method(method: Seq<char>) -> RpcErrorView {
    RpcErrorView {
        code: codes::METHOD_NOT_FOUND,
        message: "unknown method `"@ + method + "`"@,
        data: Some(ErrorDataView::MethodNotFound { method, supported: method_names() }),
    }
}

/// The handshake's result for session `s`.
pub open spec fn handshake(s: ServerView) -> InitializeView {
    InitializeView {
        server_name: "chiploom-core"@,
        server_version: VERSION@,
        protocol_version: PROTOCOL_VERSION,
        methods: method_names(),
        notifications: notification_names(),
        session_id: s.session_id,
        pid: s.pid,
    }
}

/// The protocol version `initialize` states: 0 when there are no params.
pub open spec fn stated_version(params: Params) -> Result<u32, Seq<char>> {
    match params {
        Params::Absent => Ok(0u32),
        Params::Given { initialize, .. } => match initialize {
            Ok(p) => Ok(p.protocol_version),
            Err(m) => Err(m@),
        },
    }
}

/// The options `core/doctor` asks for: the defaults when there are no params.
pub open spec fn doctor_options(params: Params) -> Result<Options, Seq<char>> {
    match params {
        Params::Absent => Ok(Options { online: false, write_probe: true }),
        Params::Given { doctor, .. } => match doctor {
            Ok(d) => Ok(Options { online: d.online, write_probe: d.write_probe }),
            Err(m) => Err(m@),
        },
    }
}

/// What `initialize` does: refused once the session is past the handshake,
/// for undecodable params, and for any version but this build's; otherwise
/// the session becomes ready and learns the server's capabilities.
pub open spec fn initialize_outcome(s: ServerView, params: Params) -> (State, Result<AnswerView, RpcErrorView>) {
    if s.state != State::Uninitialized {
        (
            s.state,
            Err(
                RpcErrorView {
                    code: codes::INVALID_REQUEST,
                    message: "the session is already initialized"@,
                    data: None,
                },
            ),
        )
    } else {
        match stated_version(params) {
            Err(m) => (s.state, Err(params_refusal(m))),
            Ok(v) => if v != PROTOCOL_VERSION {
                (s.state, Err(version_refusal(v)))
            } else {
                (State::Ready, Ok(AnswerView::Initialize(handshake(s))))
            },
        }
    }
}

/// What a method call does to the session and what it answers.
pub open spec fn call_outcome(s: ServerView, method: Seq<char>, params: Params, uptime_ms: u64) -> (
    State,
    Result<AnswerView, RpcErrorView>,
) {
    if s.state == State::Uninitialized && method != "initialize"@ && method != "$/ping"@ {
        (s.state, Err(not_initialized(method)))
    } else if method == "initialize"@ {
        initialize_outcome(s, params)
    } else if method == "shutdown"@ {
        (State::ShuttingDown, Ok(AnswerView::Null))
    } else if method == "$/ping"@ {
        (
            s.state,
            Ok(
                AnswerView::Pong(
                    PongResult { uptime_ms, initialized: s.state != State::Uninitialized },
                ),
            ),
        )
    } else if method == "core/version"@ {
        (s.state, Ok(AnswerView::Version(s.build)))
    } else if method == "core/config"@ {
        (s.state, Ok(AnswerView::Config))
    } else if method == "core/doctor"@ {
        match doctor_options(params) {
            Ok(o) => (s.state, Ok(AnswerView::Doctor(o))),
            Err(m) => (s.state, Err(params_refusal(m))),
        }
    } else {
        (s.state, Err(unknown_method(method)))
    }
}

/// A response view.
pub open spec fn reply(id: Option<IdView>, result: Result<AnswerView, RpcErrorView>) -> StepView {
    match result {
        Ok(a) => StepView::Reply(ResponseView { jsonrpc: JSONRPC_VERSION@, id, result: Some(a), error: None }),
        Err(e) => StepView::Reply(ResponseView { jsonrpc: JSONRPC_VERSION@, id, result: None, error: Some(e) }),
    }
}

/// What one frame does: the session's next state and the step to take.
///
/// An undecodable frame is answered with a parse error and no id. A frame
/// naming another JSON-RPC version is refused. `exit` ends the session,
/// cleanly only after `shutdown`; `initialized` is answered with `core/ready`;
/// every other method is called, and its outcome answered unless the frame is
/// a notification, which is answered by nothing: a `core/doctor` notification
/// still has its diagnostics run.
pub open spec fn frame_outcome(s: ServerView, frame: Result<Incoming, String>, uptime_ms: u64) -> (
    State,
    StepView,
) {
    match frame {
        Err(m) => (
            s.state,
            reply(
                None,
                Err(RpcErrorView { code: codes::PARSE_ERROR, message: "malformed JSON frame: "@ + m@, data: None }),
            ),
        ),
        Ok(inc) => if inc.jsonrpc is Some && inc.jsonrpc->0@ != JSONRPC_VERSION@ {
            (
                s.state,
                if inc.id is None {
                    StepView::Silent
                } else {
                    reply(
                        id_view(inc.id),
                        Err(
                            RpcErrorView {
                                code: codes::INVALID_REQUEST,
                                message: "unsupported jsonrpc version `"@ + inc.jsonrpc->0@
                                    + "`, expected `2.0`"@,
                                data: None,
                            },
                        ),
                    )
                },
            )
        } else if inc.method@ == "exit"@ {
            (
                s.state,
                StepView::Exit(
                    if s.state == State::ShuttingDown {
                        Outcome::CleanExit
                    } else {
                        Outcome::AbruptExit
                    },
                ),
            )
        } else if inc.method@ == "initialized"@ {
            (
                s.state,
                StepView::Ready(
                    NotificationView {
                        jsonrpc: JSONRPC_VERSION@,
                        method: "core/ready"@,
                        session_id: s.session_id,
                        version: VERSION@,
                    },
                ),
            )
        } else {
            let (next, result) = call_outcome(s, inc.method@, inc.params, uptime_ms);
            (
                next,
                if inc.id is None {
                    match result {
                        Ok(AnswerView::Doctor(o)) => StepView::Diagnose(o),
                        _ => StepView::Silent,
                    }
                } else {
                    reply(id_view(inc.id), result)
                },
            )
        },
    }
}

impl Server {
    /// Creates a server that answers questions about `loaded` for a binary of
    /// provenance `build`, in the process `pid`, with a session identifier made
    /// of the pid and a clock reading in nanoseconds, both in hexadecimal.
    pub fn new(loaded: Loaded, build: BuildInfo, pid: u32, clock_nanos: u128) -> (s: Server)
        ensures
            s@ == (ServerView {
                state: State::Uninitialized,
                session_id: hex(pid as nat) + "-"@ + hex(clock_nanos as nat),
                pid,
                loaded: loaded@,
                build,
            }),
    {
        let mut session_id = hex_string(pid as u128);
        push_str(&mut session_id, "-");
        let n = hex_string(clock_nanos);
        push_str(&mut session_id, n.as_str());
        Server { loaded, build, state: State::Uninitialized, session_id, pid }
    }

    /// This session's identifier, also reported in `initialize`.
    pub fn session_id(&self) -> (s: &str)
        ensures
            s@ == self@.session_id,
    {
        self.session_id.as_str()
    }

    /// The configuration this session answers questions about.
    pub fn loaded(&self) -> (l: &Loaded)
        ensures
            l@ == self@.loaded,
    {
        &self.loaded
    }

    /// Handles the next event of the transport: `None` when it reached end of
    /// input, which ends the session without an error, else the next frame.
    pub fn serve(&mut self, event: Option<Result<Incoming, String>>, uptime_ms: u64) -> (r: Step)
        ensures
            event is None ==> final(self)@ == old(self)@ && r@ == StepView::Exit(
                Outcome::TransportClosed,
            ),
            event matches Some(frame) ==> final(self)@ == (ServerView {
                state: frame_outcome(old(self)@, frame, uptime_ms).0,
                ..old(self)@
            }) && r@ == frame_outcome(old(self)@, frame, uptime_ms).1,
    {
        match event {
            None => Step::Exit(Outcome::TransportClosed),
            Some(frame) => self.handle_line(frame, uptime_ms),
        }
    }

    /// Handles one decoded frame.
    pub fn handle_line(&mut self, frame: Result<Incoming, String>, uptime_ms: u64) -> (r: Step)
        ensures
            final(self)@ == (ServerView {
                state: frame_outcome(old(self)@, frame, uptime_ms).0,
                ..old(self)@
            }),
            r@ == frame_outcome(old(self)@, frame, uptime_ms).1,
    {
        let ghost f = frame;
        let incoming = match frame {
            Ok(incoming) => incoming,
            Err(m) => {
                // No id is recoverable from an undecodable frame, so the response
                // carries none, exactly as JSON-RPC 2.0 requires.
                let mut message = owned("malformed JSON frame: ");
                push_str(&mut message, m.as_str());
                return Step::Reply(Response::failure(None, RpcError::new(codes::PARSE_ERROR, message)));
            },
        };
        let Incoming { jsonrpc, id, method, params } = incoming;
        if let Some(version) = &jsonrpc {
            if !str_eq(version.as_str(), JSONRPC_VERSION) {
                let mut message = owned("unsupported jsonrpc version `");
                push_str(&mut message, version.as_str());
                push_str(&mut message, "`, expected `2.0`");
                return Server::reply_error(id, RpcError::new(codes::INVALID_REQUEST, message));
            }
        }
        if str_eq(method.as_str(), "exit") {
            return Step::Exit(
                if self.state == State::ShuttingDown {
                    Outcome::CleanExit
                } else {
                    Outcome::AbruptExit
                },
            );
        }
        if str_eq(method.as_str(), "initialized") {
            // The client confirms it is listening; announce readiness.
            let ready = ReadyParams {
                session_id: owned(self.session_id.as_str()),
                version: owned(VERSION),
            };
            return Step::Ready(Notification::new("core/ready", ready));
        }
        let is_notification = id.is_none();
        let result = self.call(method.as_str(), params, uptime_ms);
        if is_notification {
            // Notifications get no response, but the diagnostics they ask for
            // are still run.
            return match result {
                Ok(Answer::Doctor(options)) => Step::Diagnose(options),
                _ => Step::Silent,
            };
        }
        match result {
            Ok(value) => Step::Reply(Response::success(id, value)),
            Err(error) => Step::Reply(Response::failure(id, error)),
        }
    }

    fn reply_error(id: Option<Id>, error: RpcError) -> (r: Step)
        ensures
            id is None ==> r@ == StepView::Silent,
            id is Some ==> r@ == reply(id_view(id), Err(error@)),
    {
        if id.is_none() {
            Step::Silent
        } else {
            Step::Reply(Response::failure(id, error))
        }
    }

    /// Dispatches one method call.
    fn call(&mut self, method: &str, params: Params, uptime_ms: u64) -> (r: Result<Answer, RpcError>)
        ensures
            final(self)@ == (ServerView {
                state: call_outcome(old(self)@, method@, params, uptime_ms).0,
                ..old(self)@
            }),
            match call_outcome(old(self)@, method@, params, uptime_ms).1 {
                Ok(a) => r matches Ok(v) && v@ == a,
                Err(e) => r matches Err(v) && v@ == e,
            },
    {
        // Three methods are served before the handshake: `initialize` itself,
        // `exit` (handled by the caller) and `$/ping`, which a client uses to
        // tell a hung server from a slow one.
        if self.state == State::Uninitialized && !str_eq(method, "initialize") && !str_eq(method, "$/ping") {
            let err = ProtocolError::NotInitialized { method: owned(method) };
            return Err(
                RpcError::new(codes::SERVER_NOT_INITIALIZED, err.message()).with_data(
                    ErrorData::Hint { hint: owned("Send `initialize` before any other request.") },
                ),
            );
        }
        if str_eq(method, "initialize") {
            self.initialize(params)
        } else if str_eq(method, "shutdown") {
            self.state = State::ShuttingDown;
            Ok(Answer::Null)
        } else if str_eq(method, "$/ping") {
            Ok(Answer::Pong(PongResult { uptime_ms, initialized: self.state != State::Uninitialized }))
        } else if str_eq(method, "core/version") {
            Ok(Answer::Version(self.build))
        } else if str_eq(method, "core/config") {
            Ok(Answer::Config)
        } else if str_eq(method, "core/doctor") {
            match params {
                Params::Absent => {
                    let d = super::protocol::DoctorParams::default();
                    Ok(Answer::Doctor(Options::from(d)))
                },
                Params::Given { doctor, .. } => match doctor {
                    Ok(d) => Ok(Answer::Doctor(Options::from(d))),
                    Err(m) => Err(RpcError::invalid_params(Server::params_message(m.as_str()))),
                },
            }
        } else {
            Err(RpcError::method_not_found(method))
        }
    }

    fn params_message(m: &str) -> (r: String)
        ensures
            r@ == "invalid params: "@ + m@,
    {
        let mut r = owned("invalid params: ");
        push_str(&mut r, m);
        r
    }

    fn initialize(&mut self, params: Params) -> (r: Result<Answer, RpcError>)
        ensures
            final(self)@ == (ServerView { state: initialize_outcome(old(self)@, params).0, ..old(self)@ }),
            match initialize_outcome(old(self)@, params).1 {
                Ok(a) => r matches Ok(v) && v@ == a,
                Err(e) => r matches Err(v) && v@ == e,
            },
    {
        if self.state != State::Uninitialized {
            return Err(RpcError::new(codes::INVALID_REQUEST, ProtocolError::AlreadyInitialized.message()));
        }
        let requested = match params {
            Params::Absent => super::protocol::InitializeParams::default().protocol_version,
            Params::Given { initialize, .. } => match initialize {
                Ok(p) => p.protocol_version,
                Err(m) => {
                    return Err(RpcError::invalid_params(Server::params_message(m.as_str())));
                },
            },
        };
        if requested != PROTOCOL_VERSION {
            let err = ProtocolError::VersionMismatch { requested, supported: PROTOCOL_VERSION };
            return Err(
                RpcError::new(codes::UNSUPPORTED_PROTOCOL_VERSION, err.message()).with_data(
                    ErrorData::VersionMismatch {
                        requested,
                        supported: PROTOCOL_VERSION,
                        hint: owned("Update the Chip Loom extension and the chiploom binary together."),
                    },
                ),
            );
        }
        self.state = State::Ready;
        Ok(
            Answer::Initialize(
                InitializeResult {
                    server_name: owned("chiploom-core"),
                    server_version: owned(VERSION),
                    protocol_version: PROTOCOL_VERSION,
                    capabilities: Capabilities::default(),
                    session_id: owned(self.session_id.as_str()),
                    pid: self.pid,
                },
            ),
        )
    }
}

/// Whether `frame` is a well-formed call of `method` under JSON-RPC 2.0.
pub open spec fn calls(frame: Result<Incoming, String>, method: Seq<char>) -> bool {
    &&& frame is Ok
    &&& frame->Ok_0.method@ == method
    &&& (frame->Ok_0.jsonrpc is None || frame->Ok_0.jsonrpc->0@ == JSONRPC_VERSION@)
}

/// A failed request never ends the session: only `exit`, or the transport
/// closing, does.
pub proof fn only_exit_ends_the_session(s: ServerView, frame: Result<Incoming, String>, uptime_ms: u64)
    ensures
        frame_outcome(s, frame, uptime_ms).1 is Exit ==> calls(frame, "exit"@),
{
}

/// A notification is never answered with a response; the only work one can
/// ask of the caller is running the diagnostics, and only as `core/doctor`.
pub proof fn notifications_are_never_answered(s: ServerView, frame: Result<Incoming, String>, uptime_ms: u64)
    requires
        frame is Ok,
        frame->Ok_0.id is None,
    ensures
        !(frame_outcome(s, frame, uptime_ms).1 is Reply),
        frame_outcome(s, frame, uptime_ms).1 is Diagnose ==> calls(frame, "core/doctor"@),
{
}

/// Before the handshake only `initialize`, `$/ping`, `initialized` and
/// `exit` are served: any other request is refused with `-32002` and a hint,
/// and the session stays where it was.
pub proof fn requests_wait_for_the_handshake(s: ServerView, frame: Result<Incoming, String>, uptime_ms: u64)
    requires
        s.state == State::Uninitialized,
        frame is Ok,
        frame->Ok_0.jsonrpc is None || frame->Ok_0.jsonrpc->0@ == JSONRPC_VERSION@,
        frame->Ok_0.id is Some,
        frame->Ok_0.method@ != "initialize"@,
        frame->Ok_0.method@ != "$/ping"@,
        frame->Ok_0.method@ != "initialized"@,
        frame->Ok_0.method@ != "exit"@,
    ensures
        frame_outcome(s, frame, uptime_ms) == (
            State::Uninitialized,
            reply(id_view(frame->Ok_0.id), Err(not_initialized(frame->Ok_0.method@))),
        ),
{
}

/// The session only moves forward: once initialized it never returns to the
/// uninitialized state, once shutting down it stays so, and it becomes ready
/// only from the handshake.
pub proof fn the_lifecycle_only_moves_forward(s: ServerView, frame: Result<Incoming, String>, uptime_ms: u64)
    ensures
        s.state != State::Uninitialized ==> frame_outcome(s, frame, uptime_ms).0 != State::Uninitialized,
        s.state == State::ShuttingDown ==> frame_outcome(s, frame, uptime_ms).0 == State::ShuttingDown,
        s.state == State::Uninitialized && frame_outcome(s, frame, uptime_ms).0 == State::Ready
            ==> calls(frame, "initialize"@),
{
}

/// `exit` is clean exactly when it follows `shutdown`.
pub proof fn exit_is_clean_only_after_shutdown(s: ServerView, frame: Result<Incoming, String>, uptime_ms: u64)
    requires
        calls(frame, "exit"@),
    ensures
        frame_outcome(s, frame, uptime_ms).1 == StepView::Exit(
            if s.state == State::ShuttingDown {
                Outcome::CleanExit
            } else {
                Outcome::AbruptExit
            },
        ),
{
}

/// Once the session is initialized, `core/doctor` answers with exactly the
/// options the client asked for -- network checks when it asked for them, the
/// write probe when it asked for it -- and, without params, with the defaults:
/// no network, write probe on. It never changes the session's state.
pub proof fn doctor_runs_with_the_options_the_client_asked_for(
    s: ServerView,
    initialize: Result<InitializeParams, String>,
    d: DoctorParams,
    uptime_ms: u64,
)
    requires
        s.state != State::Uninitialized,
    ensures
        call_outcome(s, "core/doctor"@, Params::Given { initialize, doctor: Ok(d) }, uptime_ms) == (
            s.state,
            Ok::<AnswerView, RpcErrorView>(
                AnswerView::Doctor(Options { online: d.online, write_probe: d.write_probe }),
            ),
        ),
        call_outcome(s, "core/doctor"@, Params::Absent, uptime_ms) == (
            s.state,
            Ok::<AnswerView, RpcErrorView>(AnswerView::Doctor(Options { online: false, write_probe: true })),
        ),
{
    reveal_strlit("core/doctor");
    reveal_strlit("initialize");
    reveal_strlit("shutdown");
    reveal_strlit("$/ping");
    reveal_strlit("core/version");
    reveal_strlit("core/config");
    assert("core/doctor"@.len() == 11 && "initialize"@.len() == 10 && "shutdown"@.len() == 8
        && "$/ping"@.len() == 6);
    assert("core/doctor"@[5] == 'd' && "core/version"@[5] == 'v' && "core/config"@[5] == 'c');
}

/// `$/ping` is answered in every state with the uptime given and whether the
/// handshake has happened; once initialized, `core/version` answers with this
/// binary's provenance, `core/config` with the configuration, and `shutdown`
/// moves the session to shutting down.
pub proof fn the_simple_methods_answer_what_they_are_asked(s: ServerView, params: Params, uptime_ms: u64)
    ensures
        call_outcome(s, "$/ping"@, params, uptime_ms) == (
            s.state,
            Ok::<AnswerView, RpcErrorView>(
                AnswerView::Pong(
                    PongResult { uptime_ms, initialized: s.state != State::Uninitialized },
                ),
            ),
        ),
        s.state != State::Uninitialized ==> call_outcome(s, "core/version"@, params, uptime_ms) == (
            s.state,
            Ok::<AnswerView, RpcErrorView>(AnswerView::Version(s.build)),
        ),
        s.state != State::Uninitialized ==> call_outcome(s, "core/config"@, params, uptime_ms) == (
            s.state,
            Ok::<AnswerView, RpcErrorView>(AnswerView::Config),
        ),
        s.state != State::Uninitialized ==> call_outcome(s, "shutdown"@, params, uptime_ms) == (
            State::ShuttingDown,
            Ok::<AnswerView, RpcErrorView>(AnswerView::Null),
        ),
{
    reveal_strlit("core/doctor");
    reveal_strlit("initialize");
    reveal_strlit("shutdown");
    reveal_strlit("$/ping");
    reveal_strlit("core/version");
    reveal_strlit("core/config");
    assert("core/doctor"@.len() == 11 && "initialize"@.len() == 10 && "shutdown"@.len() == 8
        && "$/ping"@.len() == 6 && "core/version"@.len() == 12 && "core/config"@.len() == 11);
    assert("core/doctor"@[5] == 'd' && "core/version"@[5] == 'v' && "core/config"@[5] == 'c');
}

/// Every response the session writes is a JSON-RPC 2.0 response carrying
/// exactly one of a result and an error; it echoes the request's id, and has
/// none only when the frame could not be decoded.
pub proof fn every_reply_has_exactly_one_of_result_and_error(
    s: ServerView,
    frame: Result<Incoming, String>,
    uptime_ms: u64,
)
    ensures
        frame_outcome(s, frame, uptime_ms).1 matches StepView::Reply(r) ==> {
            &&& r.jsonrpc == JSONRPC_VERSION@
            &&& (r.result is Some) != (r.error is Some)
            &&& r.id == match frame {
                Ok(inc) => id_view(inc.id),
                Err(_) => None,
            }
        },
{
}

/// A session identifier is two runs of lower-case hexadecimal digits -- the
/// process id, then the clock reading -- around a single dash; it is what the
/// handshake and `core/ready` report, and no frame changes it.
pub proof fn session_ids_are_lowercase_hex_around_one_dash(
    s: ServerView,
    pid: u32,
    clock_nanos: u128,
    frame: Result<Incoming, String>,
    uptime_ms: u64,
)
    requires
        s.session_id == hex(pid as nat) + "-"@ + hex(clock_nanos as nat),
    ensures
        ({
            let id = s.session_id;
            let k = hex(pid as nat).len() as int;
            &&& 0 < k && k + 1 < id.len()
            &&& id[k] == '-'
            &&& forall|i: int| 0 <= i < id.len() && i != k ==> is_lower_hex(#[trigger] id[i])
        }),
        handshake(s).session_id == s.session_id,
        frame_outcome(s, frame, uptime_ms).1 matches StepView::Ready(n) ==> n.session_id == s.session_id,
{
    reveal_strlit("-");
    let a = hex(pid as nat);
    let b = hex(clock_nanos as nat);
    lemma_hex_digits(pid as nat);
    lemma_hex_digits(clock_nanos as nat);
    let id = s.session_id;
    assert(id[a.len() as int] == '-');
    assert forall|i: int| 0 <= i < id.len() && i != a.len() implies is_lower_hex(#[trigger] id[i]) by {
        if i < a.len() {
            assert(id[i] == a[i]);
        } else {
            assert(id[i] == b[i - a.len() - 1]);
        }
    }
}

/// A session that handshakes at this build's protocol version, shuts down and
/// exits ends cleanly, whatever the ids and the uptime.
pub proof fn a_full_session_ends_cleanly(
    s: ServerView,
    init: Result<Incoming, String>,
    shutdown: Result<Incoming, String>,
    exit: Result<Incoming, String>,
    uptime_ms: u64,
)
    requires
        s.state == State::Uninitialized,
        calls(init, "initialize"@),
        stated_version(init->Ok_0.params) == Ok::<u32, Seq<char>>(PROTOCOL_VERSION),
        calls(shutdown, "shutdown"@),
        calls(exit, "exit"@),
    ensures
        ({
            let s1 = ServerView { state: frame_outcome(s, init, uptime_ms).0, ..s };
            let s2 = ServerView { state: frame_outcome(s1, shutdown, uptime_ms).0, ..s1 };
            &&& s1.state == State::Ready
            &&& s2.state == State::ShuttingDown
            &&& frame_outcome(s2, exit, uptime_ms).1 == StepView::Exit(Outcome::CleanExit)
        }),
{
    reveal_strlit("initialize");
    reveal_strlit("initialized");
    reveal_strlit("exit");
    reveal_strlit("shutdown");
    reveal_strlit("$/ping");
}

/// A handshake at another protocol version is refused with `-32000`, naming
/// both versions, and leaves the session where it was.
pub proof fn a_version_mismatch_is_refused_with_both_versions(s: ServerView, frame: Result<Incoming, String>, uptime_ms: u64)
    requires
        s.state == State::Uninitialized,
        calls(frame, "initialize"@),
        frame->Ok_0.id is Some,
        stated_version(frame->Ok_0.params) matches Ok(v) && v != PROTOCOL_VERSION,
    ensures
        frame_outcome(s, frame, uptime_ms) == (
            State::Uninitialized,
            reply(
                id_view(frame->Ok_0.id),
                Err(version_refusal(stated_version(frame->Ok_0.params)->Ok_0)),
            ),
        ),
        version_refusal(stated_version(frame->Ok_0.params)->Ok_0).data == Some(
            ErrorDataView::VersionMismatch {
                requested: stated_version(frame->Ok_0.params)->Ok_0,
                supported: PROTOCOL_VERSION,
                hint: "Update the Chip Loom extension and the chiploom binary together."@,
            },
        ),
{
    reveal_strlit("initialize");
    reveal_strlit("initialized");
    reveal_strlit("exit");
    reveal_strlit("$/ping");
}

} // verus!
