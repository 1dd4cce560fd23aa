use chiploom_core::cli::{serve_exit_code, serve_transport};
use chiploom_core::ipc::Outcome;
use chiploom_core::cli::{doctor_exit_code, ColorChoice, GlobalArgs, OutputFormat};
use chiploom_core::config::{LogFormat, LogLevel};
use chiploom_core::doctor::{Check, Report, Status};
use chiploom_core::{build_info, ExitCode};

fn args(verbose: u8, quiet: u8) -> GlobalArgs {
    GlobalArgs {
        config: None,
        no_global_config: false,
        directory: None,
        verbose,
        quiet,
        log_format: None,
        log_file: None,
        format: OutputFormat::Text,
        color: ColorChoice::Auto,
        offline: false,
    }
}

#[test]
fn verbosity_flags_move_the_resolved_level() {
    assert_eq!(args(2, 0).adjust_level(LogLevel::Info), LogLevel::Trace);
    assert_eq!(args(0, 1).adjust_level(LogLevel::Info), LogLevel::Warn);
    assert_eq!(args(0, 0).adjust_level(LogLevel::Debug), LogLevel::Debug);
}

#[test]
fn offline_and_log_settings_reach_the_config_patch() {
    let mut global = args(0, 0);
    global.offline = true;
    global.log_format = Some(LogFormat::Json);
    global.log_file = Some("run.log".to_owned());
    let patch = global.to_patch();
    assert_eq!(patch.network.offline, Some(true));
    assert_eq!(patch.log.format, Some(LogFormat::Json));
    assert_eq!(patch.log.file.as_deref(), Some("run.log"));
    assert_eq!(patch.log.level, None);
    assert!(!args(0, 0).to_patch().has_values());
}

#[test]
fn json_is_chosen_by_the_format_flag() {
    let mut global = args(0, 0);
    assert!(!global.wants_json());
    global.format = OutputFormat::Json;
    assert!(global.wants_json());
}

fn report(statuses: &[Status]) -> Report {
    Report {
        build: build_info("unknown", false, "unknown", "unknown", "release", "unknown", "unknown"),
        checks: statuses
            .iter()
            .map(|status| Check { id: "x", title: "X", status: *status, detail: "d".to_owned(), hint: None })
            .collect(),
        duration_ms: 1,
    }
}

#[test]
fn doctor_strict_turns_warnings_into_a_failure() {
    let warned = report(&[Status::Pass, Status::Warn]);
    assert_eq!(doctor_exit_code(&warned, false), ExitCode::Success);
    assert_eq!(doctor_exit_code(&warned, true), ExitCode::DiagnosticsFailed);
    let failed = report(&[Status::Error, Status::Warn]);
    assert_eq!(doctor_exit_code(&failed, false), ExitCode::DiagnosticsFailed);
    let clean = report(&[Status::Pass, Status::Skipped]);
    assert_eq!(doctor_exit_code(&clean, true), ExitCode::Success);
    assert_eq!(clean.status(), Status::Pass);
    assert_eq!(report(&[]).status(), Status::Pass);
    assert_eq!(report(&[Status::Skipped]).status(), Status::Skipped);
}

#[test]
fn serve_needs_the_stdio_transport_and_succeeds_on_any_outcome() {
    assert!(serve_transport(true).is_ok());
    let err = serve_transport(false).expect_err("no transport");
    assert_eq!(err.exit_code(), ExitCode::Unsupported);
    assert!(err.message().contains("--stdio"), "{}", err.message());
    for outcome in [Outcome::CleanExit, Outcome::AbruptExit, Outcome::TransportClosed] {
        assert_eq!(serve_exit_code(outcome), ExitCode::Success);
    }
}
