//! The single error type every Chip Loom layer reports through, and the process
//! exit codes it maps to.
//!
//! The library never prints and never exits. It returns [`Error`]; a front end
//! decides how to render it and which [`ExitCode`] to hand back to the shell.

use vstd::prelude::*;

use crate::text::{decimal, owned, push_decimal, push_str};

verus! {

/// Process exit codes, stable across releases because scripts and CI depend on
/// them.
#[derive(Debug, Clone, Copy, PartialEq, Eq, Structural)]
pub enum ExitCode {
    /// Everything the command was asked to do succeeded.
    Success,
    /// A general, unclassified failure.
    Failure,
    /// The command line itself was wrong.
    Usage,
    /// A configuration file or variable was missing, unreadable or invalid.
    Config,
    /// A filesystem operation failed.
    Io,
    /// The IPC peer violated the protocol.
    Protocol,
    /// The host environment cannot support the request.
    Environment,
    /// `chiploom doctor` completed but reported at least one error.
    DiagnosticsFailed,
    /// The request is understood but not supported on this build or platform.
    Unsupported,
}

impl ExitCode {
    /// The documented numeric value of each code.
    pub open spec fn value(self) -> u8 {
        match self {
            ExitCode::Success => 0,
            ExitCode::Failure => 1,
            ExitCode::Usage => 2,
            ExitCode::Config => 3,
            ExitCode::Io => 4,
            ExitCode::Protocol => 5,
            ExitCode::Environment => 6,
            ExitCode::DiagnosticsFailed => 7,
            ExitCode::Unsupported => 8,
        }
    }

    /// The raw value handed to the operating system.
    pub fn as_u8(self) -> (r: u8)
        ensures
            r == self.value(),
    {
        match self {
            ExitCode::Success => 0,
            ExitCode::Failure => 1,
            ExitCode::Usage => 2,
            ExitCode::Config => 3,
            ExitCode::Io => 4,
            ExitCode::Protocol => 5,
            ExitCode::Environment => 6,
            ExitCode::DiagnosticsFailed => 7,
            ExitCode::Unsupported => 8,
        }
    }
}

/// Distinct exit codes have distinct numeric values, so a script can tell every
/// failure class apart by the number alone.
pub proof fn exit_code_values_are_distinct(a: ExitCode, b: ExitCode)
    ensures
        a.value() == b.value() <==> a == b,
{
}

/// The classes of operating-system failure the library distinguishes.
#[derive(Debug, Clone, Copy, PartialEq, Eq, Structural)]
pub enum IoErrorKind {
    /// The entity does not exist.
    NotFound,
    /// The operation lacked the necessary privileges.
    PermissionDenied,
    /// The entity already exists.
    AlreadyExists,
    /// Any other failure.
    Other,
}

/// An operating-system failure: its class and its description.
#[derive(Debug, Clone)]
pub struct IoFailure {
    /// The failure class.
    pub kind: IoErrorKind,
    /// The operating system's description of the failure.
    pub message: String,
}

/// Failures specific to loading and validating configuration.
#[derive(Debug, Clone)]
pub enum ConfigError {
    /// The file exists but is not valid TOML, or a value has the wrong type.
    Invalid {
        /// The offending file.
        path: String,
        /// The explanation, including the key where available.
        message: String,
    },
    /// A file named explicitly by the user does not exist.
    NotFound {
        /// The path that was requested.
        path: String,
    },
    /// A configuration file exists but could not be read as text.
    Unreadable {
        /// The file.
        path: String,
        /// The underlying operating-system failure.
        source: IoFailure,
    },
    /// A value parsed but is not usable.
    InvalidValue {
        /// Dotted configuration key, e.g. `log.level`.
        key: String,
        /// Why the value was rejected, including the accepted values.
        message: String,
    },
    /// An environment variable override could not be parsed.
    InvalidEnv {
        /// The variable name, e.g. `CHIPLOOM_LOG_LEVEL`.
        name: String,
        /// Why the value was rejected.
        message: String,
    },
}

/// Violations of the Core IPC protocol.
#[derive(Debug, Clone)]
pub enum ProtocolError {
    /// A frame was not valid JSON, or not a valid JSON-RPC object.
    Malformed(String),
    /// The peer's protocol version cannot be served by this build.
    VersionMismatch {
        /// What the client asked for.
        requested: u32,
        /// What this build implements.
        supported: u32,
    },
    /// A request arrived before `initialize` completed.
    NotInitialized {
        /// The method that arrived too early.
        method: String,
    },
    /// `initialize` was sent more than once on one session.
    AlreadyInitialized,
    /// The transport closed or failed underneath the session.
    Transport(String),
}

/// Every failure the library can report.
#[derive(Debug, Clone)]
pub enum Error {
    /// A configuration layer could not be loaded or made sense of.
    Config(ConfigError),
    /// A filesystem operation failed, with the path that caused it.
    Io {
        /// What was being attempted, phrased as a noun.
        operation: String,
        /// The path involved.
        path: String,
        /// The underlying operating-system failure.
        source: IoFailure,
    },
    /// The IPC peer sent something that is not valid for the protocol.
    Protocol(ProtocolError),
    /// The host environment is missing something Chip Loom needs.
    Environment(String),
    /// Understood, but not available here.
    Unsupported(String),
    /// An internal invariant broke. Always a bug in Chip Loom.
    Internal(String),
}

/// The sentence describing a configuration failure.
pub open spec fn config_message(e: ConfigError) -> Seq<char> {
    match e {
        ConfigError::Invalid { path, message } => "`"@ + path@
            + "` is not valid Chip Loom configuration: "@ + message@,
        ConfigError::NotFound { path } => "configuration file `"@ + path@ + "` does not exist"@,
        ConfigError::Unreadable { path, source } => "configuration file `"@ + path@
            + "` could not be read: "@ + source.message@,
        ConfigError::InvalidValue { key, message } => "`"@ + key@ + "` is invalid: "@ + message@,
        ConfigError::InvalidEnv { name, message } => "environment variable `"@ + name@
            + "` is invalid: "@ + message@,
    }
}

/// The remediation every configuration failure carries.
pub open spec fn config_hint(e: ConfigError) -> Seq<char> {
    match e {
        ConfigError::Invalid { path, .. } => "Fix `"@ + path@
            + "`, then run `chiploom config check` to confirm Chip Loom reads it."@,
        ConfigError::NotFound { .. } => "Run `chiploom config path` to see where Chip Loom looks."@,
        ConfigError::Unreadable { path, .. } => "Make `"@ + path@
            + "` a readable UTF-8 text file, or name another with `--config`."@,
        _ => "Run `chiploom config show --format json` to inspect effective values."@,
    }
}

/// The sentence describing a protocol violation.
pub open spec fn protocol_message(e: ProtocolError) -> Seq<char> {
    match e {
        ProtocolError::Malformed(s) => "malformed message: "@ + s@,
        ProtocolError::VersionMismatch { requested, supported } => "protocol version "@ + decimal(
            requested as nat,
        ) + " is not supported (this build speaks version "@ + decimal(supported as nat) + ")"@,
        ProtocolError::NotInitialized { method } => "received `"@ + method@
            + "` before the session was initialized"@,
        ProtocolError::AlreadyInitialized => "the session is already initialized"@,
        ProtocolError::Transport(s) => "transport failure: "@ + s@,
    }
}

/// The sentence describing any failure.
pub open spec fn error_message(e: Error) -> Seq<char> {
    match e {
        Error::Config(c) => config_message(c),
        Error::Io { operation, path, .. } => operation@ + " failed for `"@ + path@ + "`"@,
        Error::Protocol(p) => protocol_message(p),
        Error::Environment(s) => s@,
        Error::Unsupported(s) => s@ + " is not supported on this platform or build"@,
        Error::Internal(s) => "internal error: "@ + s@,
    }
}

/// The exit code each failure class maps to.
pub open spec fn error_exit_code(e: Error) -> ExitCode {
    match e {
        Error::Config(_) => ExitCode::Config,
        Error::Io { .. } => ExitCode::Io,
        Error::Protocol(_) => ExitCode::Protocol,
        Error::Environment(_) => ExitCode::Environment,
        Error::Unsupported(_) => ExitCode::Unsupported,
        Error::Internal(_) => ExitCode::Failure,
    }
}

/// The stable identifier of each failure class.
pub open spec fn error_kind(e: Error) -> Seq<char> {
    match e {
        Error::Config(_) => "config"@,
        Error::Io { .. } => "io"@,
        Error::Protocol(_) => "protocol"@,
        Error::Environment(_) => "environment"@,
        Error::Unsupported(_) => "unsupported"@,
        Error::Internal(_) => "internal"@,
    }
}

/// The remediation hint for a failure, when one applies.
pub open spec fn error_hint(e: Error) -> Option<Seq<char>> {
    match e {
        Error::Config(c) => Some(config_hint(c)),
        Error::Io { path, source, .. } => if source.kind == IoErrorKind::PermissionDenied {
            Some(
                "Check the permissions on `"@ + path@
                    + "`, or point Chip Loom elsewhere with `paths.data_dir` in chiploom.toml."@,
            )
        } else {
            None
        },
        Error::Environment(_) => Some("Run `chiploom doctor` for a full report on this machine."@),
        Error::Internal(_) => Some(
            "This is a bug in Chip Loom. Please report it with the output of `chiploom doctor --format json`."@,
        ),
        _ => None,
    }
}

impl ConfigError {
    /// The sentence describing this failure.
    pub fn message(&self) -> (m: String)
        ensures
            m@ == config_message(*self),
    {
        match self {
            ConfigError::Invalid { path, message } => {
                let mut m = owned("`");
                push_str(&mut m, path.as_str());
                push_str(&mut m, "` is not valid Chip Loom configuration: ");
                push_str(&mut m, message.as_str());
                m
            },
            ConfigError::NotFound { path } => {
                let mut m = owned("configuration file `");
                push_str(&mut m, path.as_str());
                push_str(&mut m, "` does not exist");
                m
            },
            ConfigError::Unreadable { path, source } => {
                let mut m = owned("configuration file `");
                push_str(&mut m, path.as_str());
                push_str(&mut m, "` could not be read: ");
                push_str(&mut m, source.message.as_str());
                m
            },
            ConfigError::InvalidValue { key, message } => {
                let mut m = owned("`");
                push_str(&mut m, key.as_str());
                push_str(&mut m, "` is invalid: ");
                push_str(&mut m, message.as_str());
                m
            },
            ConfigError::InvalidEnv { name, message } => {
                let mut m = owned("environment variable `");
                push_str(&mut m, name.as_str());
                push_str(&mut m, "` is invalid: ");
                push_str(&mut m, message.as_str());
                m
            },
        }
    }

    /// Every configuration failure has an actionable next step.
    pub fn hint(&self) -> (h: String)
        ensures
            h@ == config_hint(*self),
    {
        match self {
            ConfigError::Invalid { path, .. } => {
                let mut h = owned("Fix `");
                push_str(&mut h, path.as_str());
                push_str(&mut h, "`, then run `chiploom config check` to confirm Chip Loom reads it.");
                h
            },
            ConfigError::NotFound { .. } => owned(
                "Run `chiploom config path` to see where Chip Loom looks.",
            ),
            ConfigError::Unreadable { path, .. } => {
                let mut h = owned("Make `");
                push_str(&mut h, path.as_str());
                push_str(&mut h, "` a readable UTF-8 text file, or name another with `--config`.");
                h
            },
            _ => owned("Run `chiploom config show --format json` to inspect effective values."),
        }
    }
}

impl ProtocolError {
    /// The sentence describing this violation.
    pub fn message(&self) -> (m: String)
        ensures
            m@ == protocol_message(*self),
    {
        match self {
            ProtocolError::Malformed(s) => {
                let mut m = owned("malformed message: ");
                push_str(&mut m, s.as_str());
                m
            },
            ProtocolError::VersionMismatch { requested, supported } => {
                let mut m = owned("protocol version ");
                push_decimal(&mut m, *requested as u64);
                push_str(&mut m, " is not supported (this build speaks version ");
                push_decimal(&mut m, *supported as u64);
                push_str(&mut m, ")");
                m
            },
            ProtocolError::NotInitialized { method } => {
                let mut m = owned("received `");
                push_str(&mut m, method.as_str());
                push_str(&mut m, "` before the session was initialized");
                m
            },
            ProtocolError::AlreadyInitialized => owned("the session is already initialized"),
            ProtocolError::Transport(s) => {
                let mut m = owned("transport failure: ");
                push_str(&mut m, s.as_str());
                m
            },
        }
    }
}

impl Error {
    /// Attaches the path and operation to an operating-system failure, because a
    /// bare "permission denied" is never actionable.
    pub fn io(operation: &str, path: &str, source: IoFailure) -> (e: Error)
        ensures
            e matches Error::Io { operation: o, path: p, source: s } && o@ == operation@ && p@
                == path@ && s == source,
    {
        Error::Io { operation: owned(operation), path: owned(path), source }
    }

    /// The sentence describing this failure.
    pub fn message(&self) -> (m: String)
        ensures
            m@ == error_message(*self),
    {
        match self {
            Error::Config(c) => c.message(),
            Error::Io { operation, path, .. } => {
                let mut m = owned(operation.as_str());
                push_str(&mut m, " failed for `");
                push_str(&mut m, path.as_str());
                push_str(&mut m, "`");
                m
            },
            Error::Protocol(p) => p.message(),
            Error::Environment(s) => owned(s.as_str()),
            Error::Unsupported(s) => {
                let mut m = owned(s.as_str());
                push_str(&mut m, " is not supported on this platform or build");
                m
            },
            Error::Internal(s) => {
                let mut m = owned("internal error: ");
                push_str(&mut m, s.as_str());
                m
            },
        }
    }

    /// The description of the underlying operating-system failure, for a
    /// filesystem error.
    pub fn cause(&self) -> (c: Option<String>)
        ensures
            match *self {
                Error::Io { source, .. } => c matches Some(m) && m@ == source.message@,
                _ => c is None,
            },
    {
        match self {
            Error::Io { source, .. } => Some(owned(source.message.as_str())),
            _ => None,
        }
    }

    /// The exit code a front end should terminate with for this error.
    pub fn exit_code(&self) -> (c: ExitCode)
        ensures
            c == error_exit_code(*self),
    {
        match self {
            Error::Config(_) => ExitCode::Config,
            Error::Io { .. } => ExitCode::Io,
            Error::Protocol(_) => ExitCode::Protocol,
            Error::Environment(_) => ExitCode::Environment,
            Error::Unsupported(_) => ExitCode::Unsupported,
            Error::Internal(_) => ExitCode::Failure,
        }
    }

    /// A short, machine-stable identifier, so tooling can branch on the kind
    /// without parsing prose.
    pub fn kind(&self) -> (k: &'static str)
        ensures
            k@ == error_kind(*self),
    {
        match self {
            Error::Config(_) => "config",
            Error::Io { .. } => "io",
            Error::Protocol(_) => "protocol",
            Error::Environment(_) => "environment",
            Error::Unsupported(_) => "unsupported",
            Error::Internal(_) => "internal",
        }
    }

    /// A remediation hint shown under the error message when one applies.
    pub fn hint(&self) -> (h: Option<String>)
        ensures
            match error_hint(*self) {
                Some(t) => h matches Some(s) && s@ == t,
                None => h is None,
            },
    {
        match self {
            Error::Config(c) => Some(c.hint()),
            Error::Io { path, source, .. } => {
                if source.kind == IoErrorKind::PermissionDenied {
                    let mut h = owned("Check the permissions on `");
                    push_str(&mut h, path.as_str());
                    push_str(
                        &mut h,
                        "`, or point Chip Loom elsewhere with `paths.data_dir` in chiploom.toml.",
                    );
                    Some(h)
                } else {
                    None
                }
            },
            Error::Environment(_) => Some(
                owned("Run `chiploom doctor` for a full report on this machine."),
            ),
            Error::Internal(_) => Some(
                owned(
                    "This is a bug in Chip Loom. Please report it with the output of `chiploom doctor --format json`.",
                ),
            ),
            _ => None,
        }
    }
}

impl From<ConfigError> for Error {
    fn from(e: ConfigError) -> (r: Error) {
        Error::Config(e)
    }
}

impl vstd::std_specs::convert::FromSpecImpl<ConfigError> for Error {
    open spec fn obeys_from_spec() -> bool {
        true
    }

    open spec fn from_spec(e: ConfigError) -> Error {
        Error::Config(e)
    }
}

impl From<ProtocolError> for Error {
    fn from(e: ProtocolError) -> (r: Error) {
        Error::Protocol(e)
    }
}

impl vstd::std_specs::convert::FromSpecImpl<ProtocolError> for Error {
    open spec fn obeys_from_spec() -> bool {
        true
    }

    open spec fn from_spec(e: ProtocolError) -> Error {
        Error::Protocol(e)
    }
}

/// Every configuration failure maps to the configuration exit code and comes
/// with a hint.
pub proof fn config_errors_exit_with_the_config_code(c: ConfigError)
    ensures
        error_exit_code(Error::Config(c)) == ExitCode::Config,
        error_hint(Error::Config(c)) is Some,
{
}

/// Each failure class exits with its documented number: 3 for configuration,
/// 4 for the filesystem, 5 for the protocol, 6 for the host environment, 8
/// for what is unsupported, and 1 for an internal error; no failure exits 0.
pub proof fn each_failure_class_exits_with_its_documented_code(e: Error)
    ensures
        e is Config ==> error_exit_code(e).value() == 3,
        e is Io ==> error_exit_code(e).value() == 4,
        e is Protocol ==> error_exit_code(e).value() == 5,
        e is Environment ==> error_exit_code(e).value() == 6,
        e is Unsupported ==> error_exit_code(e).value() == 8,
        e is Internal ==> error_exit_code(e).value() == 1,
        error_exit_code(e).value() != 0,
{
}

/// A permission failure always suggests a way out.
pub proof fn permission_failures_carry_a_hint(operation: String, path: String, source: IoFailure)
    requires
        source.kind == IoErrorKind::PermissionDenied,
    ensures
        error_hint(Error::Io { operation, path, source }) is Some,
        error_exit_code(Error::Io { operation, path, source }) == ExitCode::Io,
{
}

} // verus!
