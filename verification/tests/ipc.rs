use chiploom_core::config::{Loaded, Loader};
use chiploom_core::doctor::{run, Findings, HostFacts, StorageFinding};
use chiploom_core::ipc::protocol::{methods, server_notifications, ErrorData};
use chiploom_core::ipc::{
    codes, is_blank, Answer, Capabilities, DoctorParams, Id, Incoming, InitializeParams, Outcome,
    Params, Response, RpcError, Server, Step,
};
use chiploom_core::paths::Paths;
use chiploom_core::{Error, PROTOCOL_VERSION, VERSION};

fn loaded() -> Loaded {
    let paths = Paths::new(chiploom_core::paths::PathStyle::Posix, "/tmp/i/config".to_owned(), "/tmp/i/data".to_owned(), "/tmp/i/cache".to_owned());
    Loader::new("/tmp/i".to_owned(), paths).load(None, None).expect("load config")
}

fn server() -> Server {
    Server::new(loaded(), chiploom_core::build_info("unknown", false, "unknown", "unknown", "release", "unknown", "unknown"), 0x1b97, 0x18d6f7cae062f9e6)
}

fn frame(id: Option<i64>, method: &str, params: Params) -> Result<Incoming, String> {
    Ok(Incoming { jsonrpc: Some("2.0".to_owned()), id: id.map(Id::Number), method: method.to_owned(), params })
}

fn init_params(version: u32) -> Params {
    Params::Given {
        initialize: Ok(InitializeParams {
            client_name: "test-client".to_owned(),
            client_version: Some("0.0.0".to_owned()),
            protocol_version: version,
            workspace_roots: Vec::new(),
        }),
        doctor: Err("missing field `online`".to_owned()),
    }
}

fn reply(step: Step) -> Response {
    match step {
        Step::Reply(response) => response,
        other => panic!("expected a reply, got {other:?}"),
    }
}

fn error_code(step: Step) -> i32 {
    reply(step).error.expect("an error").code
}

#[test]
fn capabilities_list_every_served_method() {
    let capabilities = Capabilities::default();
    assert!(capabilities.methods.iter().any(|method| method == "core/doctor"));
    assert!(capabilities.notifications.iter().any(|name| name == "core/ready"));
    assert_eq!(capabilities.methods.len(), methods().len());
    assert_eq!(server_notifications(), vec!["core/ready", "core/log"]);
}

#[test]
fn a_full_session_handshakes_and_exits_cleanly() {
    let mut s = server();
    assert_eq!(s.session_id(), "1b97-18d6f7cae062f9e6");
    let init = reply(s.serve(Some(frame(Some(1), "initialize", init_params(PROTOCOL_VERSION))), 5));
    assert!(matches!(init.id, Some(Id::Number(1))));
    match init.result {
        Some(Answer::Initialize(result)) => {
            assert_eq!(result.server_name, "chiploom-core");
            assert_eq!(result.protocol_version, PROTOCOL_VERSION);
            assert_eq!(result.session_id, "1b97-18d6f7cae062f9e6");
            assert_eq!(result.pid, 0x1b97);
            assert!(result.capabilities.methods.iter().any(|m| m == "core/doctor"));
        }
        other => panic!("unexpected {other:?}"),
    }
    match s.serve(Some(frame(None, "initialized", Params::Absent)), 6) {
        Step::Ready(notification) => {
            assert_eq!(notification.method, "core/ready");
            assert_eq!(notification.params.session_id, "1b97-18d6f7cae062f9e6");
            assert_eq!(notification.params.version, VERSION);
        }
        other => panic!("unexpected {other:?}"),
    }
    let version = reply(s.serve(Some(frame(Some(2), "core/version", Params::Absent)), 7));
    match version.result {
        Some(Answer::Version(info)) => assert_eq!(info.version, VERSION),
        other => panic!("unexpected {other:?}"),
    }
    let shutdown = reply(s.serve(Some(frame(Some(3), "shutdown", Params::Absent)), 8));
    assert!(matches!(shutdown.result, Some(Answer::Null)));
    assert!(shutdown.error.is_none());
    match s.serve(Some(frame(None, "exit", Params::Absent)), 9) {
        Step::Exit(outcome) => {
            assert_eq!(outcome, Outcome::CleanExit);
            assert!(outcome.is_clean());
        }
        other => panic!("unexpected {other:?}"),
    }
}

#[test]
fn requests_before_initialize_are_refused_with_a_hint() {
    let mut s = server();
    let response = reply(s.serve(Some(frame(Some(1), "core/version", Params::Absent)), 0));
    let error = response.error.expect("error");
    assert_eq!(error.code, codes::SERVER_NOT_INITIALIZED);
    assert!(matches!(error.data, Some(ErrorData::Hint { .. })));
}

#[test]
fn ping_is_served_before_the_handshake() {
    let mut s = server();
    let response = reply(s.serve(Some(frame(Some(1), "$/ping", Params::Absent)), 42));
    assert!(response.error.is_none());
    match response.result {
        Some(Answer::Pong(pong)) => {
            assert!(!pong.initialized);
            assert_eq!(pong.uptime_ms, 42);
        }
        other => panic!("unexpected {other:?}"),
    }
}

#[test]
fn a_protocol_version_mismatch_is_refused_with_both_versions() {
    let mut s = server();
    let error = reply(s.serve(Some(frame(Some(1), "initialize", init_params(99))), 0)).error.expect("error");
    assert_eq!(error.code, codes::UNSUPPORTED_PROTOCOL_VERSION);
    match error.data {
        Some(ErrorData::VersionMismatch { requested, supported, .. }) => {
            assert_eq!(requested, 99);
            assert_eq!(supported, PROTOCOL_VERSION);
        }
        other => panic!("unexpected {other:?}"),
    }
    assert_eq!(error.message, "protocol version 99 is not supported (this build speaks version 1)");
}

#[test]
fn a_client_that_omits_the_protocol_version_is_told_which_field_is_missing() {
    let mut s = server();
    let params = Params::Given {
        initialize: Err("missing field `protocolVersion`".to_owned()),
        doctor: Ok(DoctorParams::default()),
    };
    let error = reply(s.serve(Some(frame(Some(1), "initialize", params)), 0)).error.expect("error");
    assert_eq!(error.code, codes::INVALID_PARAMS);
    assert!(error.message.contains("protocolVersion"), "{}", error.message);
}

#[test]
fn initialize_with_no_params_at_all_is_a_version_mismatch() {
    let mut s = server();
    assert_eq!(error_code(s.serve(Some(frame(Some(1), "initialize", Params::Absent)), 0)), codes::UNSUPPORTED_PROTOCOL_VERSION);
}

#[test]
fn initializing_twice_is_refused() {
    let mut s = server();
    let first = reply(s.serve(Some(frame(Some(1), "initialize", init_params(PROTOCOL_VERSION))), 0));
    assert!(matches!(first.result, Some(Answer::Initialize(_))));
    assert_eq!(error_code(s.serve(Some(frame(Some(2), "initialize", init_params(PROTOCOL_VERSION))), 0)), codes::INVALID_REQUEST);
}

#[test]
fn a_malformed_frame_is_answered_and_the_session_survives() {
    let mut s = server();
    let response = reply(s.serve(Some(Err("expected value at line 1 column 3".to_owned())), 0));
    assert_eq!(response.error.as_ref().expect("error").code, codes::PARSE_ERROR);
    assert!(response.id.is_none(), "an unreadable frame has no id to echo");
    let next = reply(s.serve(Some(frame(Some(1), "initialize", init_params(PROTOCOL_VERSION))), 0));
    assert!(matches!(next.result, Some(Answer::Initialize(_))));
    assert!(matches!(s.serve(Some(frame(None, "exit", Params::Absent)), 0), Step::Exit(Outcome::AbruptExit)));
}

#[test]
fn an_unknown_method_lists_the_known_ones() {
    let mut s = server();
    reply(s.serve(Some(frame(Some(1), "initialize", init_params(PROTOCOL_VERSION))), 0));
    let error = reply(s.serve(Some(frame(Some(2), "core/teleport", Params::Absent)), 0)).error.expect("error");
    assert_eq!(error.code, codes::METHOD_NOT_FOUND);
    match error.data {
        Some(ErrorData::MethodNotFound { method, supported }) => {
            assert_eq!(method, "core/teleport");
            assert_eq!(supported.len(), methods().len());
        }
        other => panic!("unexpected {other:?}"),
    }
}

#[test]
fn a_wrong_jsonrpc_version_is_refused() {
    let mut s = server();
    let incoming = Incoming { jsonrpc: Some("1.0".to_owned()), id: Some(Id::Number(1)), method: "$/ping".to_owned(), params: Params::Absent };
    assert_eq!(error_code(s.serve(Some(Ok(incoming)), 0)), codes::INVALID_REQUEST);
    let quiet = Incoming { jsonrpc: Some("1.0".to_owned()), id: None, method: "$/ping".to_owned(), params: Params::Absent };
    assert!(matches!(s.serve(Some(Ok(quiet)), 0), Step::Silent));
}

#[test]
fn doctor_params_default_to_the_cli_behaviour() {
    let params = DoctorParams::default();
    assert!(!params.online, "network checks must be opt-in");
    assert!(params.write_probe, "the write probe must stay on by default");
    let mut s = server();
    reply(s.serve(Some(frame(Some(1), "initialize", init_params(PROTOCOL_VERSION))), 0));
    match reply(s.serve(Some(frame(Some(2), "core/doctor", Params::Absent)), 0)).result {
        Some(Answer::Doctor(options)) => {
            assert!(!options.online);
            assert!(options.write_probe);
        }
        other => panic!("unexpected {other:?}"),
    }
}

#[test]
fn doctor_over_ipc_returns_the_same_report_shape_as_the_cli() {
    let mut s = server();
    reply(s.serve(Some(frame(Some(1), "initialize", init_params(PROTOCOL_VERSION))), 0));
    let params = Params::Given {
        initialize: Err("missing field `clientName`".to_owned()),
        doctor: Ok(DoctorParams { online: false, write_probe: true }),
    };
    let options = match reply(s.serve(Some(frame(Some(2), "core/doctor", params)), 0)).result {
        Some(Answer::Doctor(options)) => options,
        other => panic!("unexpected {other:?}"),
    };
    // The same run the `doctor` command makes, on what a clean machine shows.
    let findings = Findings {
        build: chiploom_core::build_info("unknown", false, "unknown", "unknown", "release", "unknown", "unknown"),
        host: HostFacts {
            os_name: Some("Debian GNU/Linux".to_owned()),
            os_version: Some("12".to_owned()),
            kernel: Some("6.1.0".to_owned()),
            os: "linux".to_owned(),
            arch: "x86_64".to_owned(),
            parallelism: 8,
            total_memory: 16 * 1024 * 1024 * 1024,
        },
        config_dir: StorageFinding::Probed(Ok(())),
        data_dir: StorageFinding::Probed(Ok(())),
        cache_dir: StorageFinding::Probed(Ok(())),
        git: Some("/usr/bin/git".to_owned()),
        launchers: vec![None, None, None],
        reachability: Vec::new(),
        duration_ms: 4,
    };
    let report = run(s.loaded(), options, findings);
    assert!(report.checks.len() >= 10);
    assert_eq!(report.build.version, VERSION);
    assert_eq!(report.duration_ms, 4);
}

#[test]
fn invalid_params_are_reported_as_invalid_params() {
    let mut s = server();
    reply(s.serve(Some(frame(Some(1), "initialize", init_params(PROTOCOL_VERSION))), 0));
    let params = Params::Given {
        initialize: Err("missing field `clientName`".to_owned()),
        doctor: Err("invalid type: string \"yes please\", expected a boolean".to_owned()),
    };
    assert_eq!(error_code(s.serve(Some(frame(Some(2), "core/doctor", params)), 0)), codes::INVALID_PARAMS);
}

#[test]
fn config_over_ipc_reports_effective_values_and_provenance() {
    let mut s = server();
    reply(s.serve(Some(frame(Some(1), "initialize", init_params(PROTOCOL_VERSION))), 0));
    assert!(matches!(reply(s.serve(Some(frame(Some(2), "core/config", Params::Absent)), 0)).result, Some(Answer::Config)));
    assert!(s.loaded().sources.len() >= 5);
}

#[test]
fn a_closed_transport_ends_the_session_without_an_error() {
    let mut s = server();
    reply(s.serve(Some(frame(Some(1), "initialize", init_params(PROTOCOL_VERSION))), 0));
    assert!(matches!(s.serve(None, 0), Step::Exit(Outcome::TransportClosed)));
}

#[test]
fn blank_lines_between_frames_are_ignored() {
    assert!(is_blank(""));
    assert!(is_blank("  \t\r"));
    assert!(!is_blank(" {} "));
}

#[test]
fn a_doctor_notification_runs_the_diagnostics_without_answering() {
    let mut s = server();
    reply(s.serve(Some(frame(Some(1), "initialize", init_params(PROTOCOL_VERSION))), 0));
    match s.serve(Some(frame(None, "core/doctor", Params::Absent)), 0) {
        Step::Diagnose(options) => {
            assert!(!options.online);
            assert!(options.write_probe);
        }
        other => panic!("unexpected {other:?}"),
    }
    // Other notifications ask for nothing.
    assert!(matches!(s.serve(Some(frame(None, "core/version", Params::Absent)), 0), Step::Silent));
}

#[test]
fn a_failing_notification_produces_no_frame() {
    let mut s = server();
    reply(s.serve(Some(frame(Some(1), "initialize", init_params(PROTOCOL_VERSION))), 0));
    assert!(matches!(s.serve(Some(frame(None, "core/nope", Params::Absent)), 0), Step::Silent));
}

#[test]
fn core_errors_become_request_failed_with_a_kind() {
    let err = Error::Environment("no USB backend".to_owned());
    let rpc = RpcError::from_error(&err);
    assert_eq!(rpc.code, codes::REQUEST_FAILED);
    match rpc.data.expect("data") {
        ErrorData::Failure { kind, hint } => {
            assert_eq!(kind, "environment");
            assert!(hint.is_some(), "environment errors carry a hint");
        }
        other => panic!("unexpected {other:?}"),
    }
}

#[test]
fn a_notification_has_no_id() {
    let incoming = Incoming { jsonrpc: Some("2.0".to_owned()), id: None, method: "exit".to_owned(), params: Params::Absent };
    assert!(incoming.is_notification());
    let request = Incoming { jsonrpc: None, id: Some(Id::Text("abc".to_owned())), method: "$/ping".to_owned(), params: Params::Absent };
    assert!(!request.is_notification());
}

#[test]
fn a_successful_response_omits_the_error_field() {
    let response = Response::success(Some(Id::Number(1)), Answer::Null);
    assert!(response.result.is_some());
    assert!(response.error.is_none());
    assert_eq!(response.jsonrpc, "2.0");
}

#[test]
fn a_failed_response_omits_the_result_field() {
    let response = Response::failure(Some(Id::Number(1)), RpcError::method_not_found("core/nope"));
    assert!(response.result.is_none());
    let error = response.error.expect("error");
    assert_eq!(error.message, "unknown method `core/nope`");
    // The error must tell the client what it could have called instead.
    match error.data {
        Some(ErrorData::MethodNotFound { supported, .. }) => {
            assert!(supported.iter().any(|m| m == "core/version"));
        }
        other => panic!("unexpected {other:?}"),
    }
}

#[test]
fn only_exit_or_a_closed_transport_ends_a_session() {
    let mut s = server();
    for method in ["core/teleport", "shutdown", "initialize", "$/ping"] {
        assert!(!matches!(s.serve(Some(frame(Some(1), method, Params::Absent)), 0), Step::Exit(_)));
    }
    assert!(!matches!(s.serve(Some(Err("bad".to_owned())), 0), Step::Exit(_)));
    assert!(matches!(s.serve(Some(frame(Some(2), "exit", Params::Absent)), 0), Step::Exit(Outcome::AbruptExit)));
}

#[test]
fn shutdown_before_the_handshake_is_refused_and_exit_stays_abrupt() {
    let mut s = server();
    assert_eq!(error_code(s.serve(Some(frame(Some(1), "shutdown", Params::Absent)), 0)), codes::SERVER_NOT_INITIALIZED);
    assert!(matches!(s.serve(Some(frame(None, "exit", Params::Absent)), 0), Step::Exit(Outcome::AbruptExit)));
}

#[test]
fn ping_reports_the_handshake_once_done() {
    let mut s = server();
    reply(s.serve(Some(frame(Some(1), "initialize", init_params(PROTOCOL_VERSION))), 0));
    match reply(s.serve(Some(frame(Some(2), "$/ping", Params::Absent)), 7)).result {
        Some(Answer::Pong(pong)) => assert!(pong.initialized),
        other => panic!("unexpected {other:?}"),
    }
}
