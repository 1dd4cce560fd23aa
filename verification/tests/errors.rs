use chiploom_core::error::IoErrorKind;
use chiploom_core::{ConfigError, Error, ExitCode, IoFailure, ProtocolError};

#[test]
fn exit_codes_are_stable() {
    assert_eq!(ExitCode::Success.as_u8(), 0);
    assert_eq!(ExitCode::Failure.as_u8(), 1);
    assert_eq!(ExitCode::Usage.as_u8(), 2);
    assert_eq!(ExitCode::Config.as_u8(), 3);
    assert_eq!(ExitCode::Io.as_u8(), 4);
    assert_eq!(ExitCode::Protocol.as_u8(), 5);
    assert_eq!(ExitCode::Environment.as_u8(), 6);
    assert_eq!(ExitCode::DiagnosticsFailed.as_u8(), 7);
    assert_eq!(ExitCode::Unsupported.as_u8(), 8);
}

#[test]
fn config_errors_map_to_the_config_exit_code() {
    let err = Error::from(ConfigError::NotFound { path: "/nope/chiploom.toml".to_owned() });
    assert_eq!(err.exit_code(), ExitCode::Config);
    assert_eq!(err.kind(), "config");
    assert!(err.hint().is_some());
}

#[test]
fn io_errors_name_the_path_and_the_operation() {
    let err = Error::io(
        "create directory",
        "/root/forbidden",
        IoFailure { kind: IoErrorKind::PermissionDenied, message: "permission denied".to_owned() },
    );
    let rendered = err.message();
    assert!(rendered.contains("create directory"), "{rendered}");
    assert!(rendered.contains("/root/forbidden"), "{rendered}");
    assert_eq!(err.exit_code(), ExitCode::Io);
    assert!(err.hint().is_some());
}

#[test]
fn messages_match_the_documented_sentences() {
    assert_eq!(
        Error::from(ConfigError::NotFound { path: "a.toml".to_owned() }).message(),
        "configuration file `a.toml` does not exist"
    );
    assert_eq!(
        Error::from(ProtocolError::VersionMismatch { requested: 9999, supported: 1 }).message(),
        "protocol version 9999 is not supported (this build speaks version 1)"
    );
    assert_eq!(Error::Unsupported("usb".to_owned()).message(), "usb is not supported on this platform or build");
    assert_eq!(Error::Internal("x".to_owned()).message(), "internal error: x");
    assert_eq!(Error::Environment("no home".to_owned()).message(), "no home");
}

#[test]
fn every_error_class_has_its_own_code_and_kind() {
    let cases = [
        (Error::from(ConfigError::NotFound { path: "a".to_owned() }), ExitCode::Config, "config"),
        (
            Error::io("read", "p", IoFailure { kind: IoErrorKind::Other, message: "x".to_owned() }),
            ExitCode::Io,
            "io",
        ),
        (Error::from(ProtocolError::AlreadyInitialized), ExitCode::Protocol, "protocol"),
        (Error::Environment("e".to_owned()), ExitCode::Environment, "environment"),
        (Error::Unsupported("u".to_owned()), ExitCode::Unsupported, "unsupported"),
        (Error::Internal("i".to_owned()), ExitCode::Failure, "internal"),
    ];
    for (err, code, kind) in cases {
        assert_eq!(err.exit_code(), code);
        assert_eq!(err.kind(), kind);
    }
}

#[test]
fn only_permission_failures_get_an_io_hint() {
    let other = Error::io("read", "/p", IoFailure { kind: IoErrorKind::NotFound, message: "gone".to_owned() });
    assert!(other.hint().is_none());
    assert_eq!(other.cause().as_deref(), Some("gone"));
    let denied = Error::io("read", "/p", IoFailure { kind: IoErrorKind::PermissionDenied, message: "no".to_owned() });
    assert_eq!(
        denied.hint().as_deref(),
        Some("Check the permissions on `/p`, or point Chip Loom elsewhere with `paths.data_dir` in chiploom.toml.")
    );
}
