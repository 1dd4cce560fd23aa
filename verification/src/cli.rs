//! What the command line's global options mean.
//!
//! Parsing the command line is the front end's job; the decisions its options
//! drive -- which configuration layer they make, how they move the log level,
//! how results are printed, how `doctor` exits -- are made here.

use vstd::prelude::*;

use crate::config::model::LogLevel;
use crate::config::patch::{PatchView, empty_patch};
use crate::config::{ConfigPatch, LogFormat};
use crate::doctor::{Report, Status, any_with};
use crate::error::{Error, ExitCode};
use crate::ipc::Outcome;
use crate::text::owned;
#[allow(unused_imports)]
use vstd::string::*;

verus! {

/// How command results are printed.
#[derive(Debug, Clone, Copy, PartialEq, Eq, Structural)]
pub enum OutputFormat {
    /// Aligned, human-readable text. The default.
    Text,
    /// A single JSON document, for scripts and CI.
    Json,
}

/// When to emit ANSI colour.
#[derive(Debug, Clone, Copy, PartialEq, Eq, Structural)]
pub enum ColorChoice {
    /// Colour when stdout is a terminal and `NO_COLOR` is unset.
    Auto,
    /// Always colour.
    Always,
    /// Never colour.
    Never,
}

/// Options accepted before or after any subcommand.
#[derive(Debug, Clone)]
pub struct GlobalArgs {
    /// Use this configuration file instead of searching for one.
    pub config: Option<String>,
    /// Ignore the user-global configuration file.
    pub no_global_config: bool,
    /// Run as if Chip Loom had been started in this directory.
    pub directory: Option<String>,
    /// How many times `-v` was given.
    pub verbose: u8,
    /// How many times `-q` was given.
    pub quiet: u8,
    /// How diagnostics are rendered on stderr.
    pub log_format: Option<LogFormat>,
    /// Also append every diagnostic to this file, as JSON.
    pub log_file: Option<String>,
    /// How command results are printed on stdout.
    pub format: OutputFormat,
    /// When to colour output.
    pub color: ColorChoice,
    /// Forbid all network access for this run.
    pub offline: bool,
}

/// The layer a set of global options makes: the log format and file when
/// given, and offline when asked for; nothing else, since verbosity applies to
/// the resolved level rather than forming a layer.
pub open spec fn flags_patch(g: GlobalArgs) -> PatchView {
    PatchView {
        format: g.log_format,
        file: g.log_file.deep_view(),
        offline: if g.offline {
            Some(true)
        } else {
            None
        },
        ..empty_patch()
    }
}

/// The level `-v` or `-q` moves `level` to: `n` steps more verbose, or less,
/// stopping at either end.
pub open spec fn adjusted(verbose: u8, quiet: u8, level: LogLevel) -> LogLevel {
    if verbose > 0 {
        LogLevel::at_rank(vstd::math::min(level.rank() + verbose, 4))
    } else if quiet > 0 {
        LogLevel::at_rank(vstd::math::max(level.rank() - quiet, 0))
    } else {
        level
    }
}

impl GlobalArgs {
    /// Builds the highest-precedence configuration layer from these options.
    pub fn to_patch(&self) -> (p: ConfigPatch)
        ensures
            p@ == flags_patch(*self),
    {
        let mut patch = ConfigPatch::new();
        if let Some(format) = self.log_format {
            patch.log.format = Some(format);
        }
        if let Some(file) = &self.log_file {
            patch.log.file = Some(crate::text::copy(file));
        }
        if self.offline {
            patch.network.offline = Some(true);
        }
        patch
    }

    /// Applies `-v`/`-q` to an already-resolved level.
    pub fn adjust_level(&self, level: LogLevel) -> (l: LogLevel)
        ensures
            l == adjusted(self.verbose, self.quiet, level),
    {
        if self.verbose > 0 {
            level.more_verbose(self.verbose)
        } else if self.quiet > 0 {
            level.less_verbose(self.quiet)
        } else {
            level
        }
    }

    /// Whether results should be emitted as JSON.
    pub fn wants_json(&self) -> (b: bool)
        ensures
            b == (self.format == OutputFormat::Json),
    {
        self.format == OutputFormat::Json
    }
}

/// How `doctor` exits: failures always fail it; with `--strict`, warnings do
/// too.
pub open spec fn doctor_exit(report: Report, strict: bool) -> ExitCode {
    if any_with(report.checks@, Status::Error) || (strict && any_with(report.checks@, Status::Warn)) {
        ExitCode::DiagnosticsFailed
    } else {
        ExitCode::Success
    }
}

/// The exit code of a `doctor` run.
///
/// Warnings fail the command only when the user asked for that, so CI on a
/// machine without `git` or VS Code is not permanently red.
pub fn doctor_exit_code(report: &Report, strict: bool) -> (c: ExitCode)
    ensures
        c == doctor_exit(*report, strict),
{
    if strict && report.has_warnings() && !report.has_errors() {
        return ExitCode::DiagnosticsFailed;
    }
    report.exit_code()
}

/// `--strict` changes the verdict for warnings only: without warnings, or
/// with failures, a strict run exits exactly as a lenient one.
pub proof fn strict_only_changes_warnings(report: Report)
    ensures
        !any_with(report.checks@, Status::Warn) ==> doctor_exit(report, true) == doctor_exit(report, false),
        any_with(report.checks@, Status::Error) ==> doctor_exit(report, true) == ExitCode::DiagnosticsFailed
            && doctor_exit(report, false) == ExitCode::DiagnosticsFailed,
        any_with(report.checks@, Status::Warn) && !any_with(report.checks@, Status::Error)
            ==> doctor_exit(report, true) == ExitCode::DiagnosticsFailed && doctor_exit(report, false)
            == ExitCode::Success,
{
}

/// Whether `serve` can start: it needs a transport, and `--stdio` is the only
/// one; without it the command is refused as unsupported.
pub fn serve_transport(stdio: bool) -> (r: Result<(), Error>)
    ensures
        stdio <==> r is Ok,
        !stdio ==> (r matches Err(Error::Unsupported(m))
            && m@ == "`chiploom serve` needs a transport; pass `--stdio`"@),
{
    if stdio {
        Ok(())
    } else {
        Err(Error::Unsupported(owned("`chiploom serve` needs a transport; pass `--stdio`")))
    }
}

/// How `serve` exits once its session is over: successfully, whether or not
/// the client said goodbye, since an editor that is killed ends its session
/// abruptly as a matter of course. Only a failing transport, reported as an
/// error before this point, makes the command fail.
pub fn serve_exit_code(outcome: Outcome) -> (c: ExitCode)
    ensures
        c == ExitCode::Success,
{
    match outcome {
        Outcome::CleanExit => ExitCode::Success,
        // The session worked; the client only did not say goodbye.
        Outcome::AbruptExit | Outcome::TransportClosed => ExitCode::Success,
    }
}

} // verus!
