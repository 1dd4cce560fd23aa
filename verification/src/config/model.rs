//! The effective configuration Chip Loom runs with, after every layer has been
//! merged.
//!
//! These types are always fully populated: there is no "unset" state to check
//! at the point of use. The optional, partially-specified form lives in
//! [`super::patch`].

use vstd::prelude::*;

use crate::error::ConfigError;
use crate::text::{chars_are, lower, lower_chars, owned, push_chars, push_str, trim, trimmed};
#[allow(unused_imports)]
use vstd::string::*;

verus! {

/// The fully resolved configuration for one invocation.
#[derive(Debug, Clone, PartialEq, Eq)]
pub struct Config {
    /// Project identity.
    pub project: Project,
    /// Storage location overrides.
    pub paths: PathOverrides,
    /// Diagnostics output.
    pub log: Log,
    /// How Chip Loom is allowed to reach the network.
    pub network: Network,
}

/// Project identity, read from the project's `chiploom.toml`.
#[derive(Debug, Clone, PartialEq, Eq)]
pub struct Project {
    /// Human-readable project name. Defaults to the project directory name.
    pub name: Option<String>,
}

/// Overrides for the platform storage locations.
#[derive(Debug, Clone, PartialEq, Eq)]
pub struct PathOverrides {
    /// Replaces the platform data directory (toolchains, target packs).
    pub data_dir: Option<String>,
    /// Replaces the platform cache directory (downloads, build cache, logs).
    pub cache_dir: Option<String>,
}

/// Diagnostics output settings.
#[derive(Debug, Clone, PartialEq, Eq)]
pub struct Log {
    /// Minimum severity that reaches the output.
    pub level: LogLevel,
    /// How records are rendered.
    pub format: LogFormat,
    /// Optional file that receives a copy of every record, always as JSON.
    pub file: Option<String>,
    /// Whether human-readable output carries timestamps.
    pub timestamps: bool,
}

/// Network policy.
#[derive(Debug, Clone, PartialEq, Eq)]
pub struct Network {
    /// When true, Chip Loom must never open a network connection.
    pub offline: bool,
    /// Per-request timeout, in whole seconds; the key used in `chiploom.toml`.
    pub timeout_secs: u64,
    /// How many times a failed request is retried before giving up.
    pub retries: u32,
}

/// Severity levels, ordered from least to most verbose.
#[derive(Debug, Clone, Copy, PartialEq, Eq, Structural, PartialOrd, Ord, Hash)]
pub enum LogLevel {
    /// Only failures.
    Error,
    /// Failures and things that need attention.
    Warn,
    /// Normal progress reporting. The default.
    Info,
    /// Detail useful when diagnosing a problem.
    Debug,
    /// Everything, including per-message protocol traffic.
    Trace,
}

/// How log records are rendered to the terminal.
#[derive(Debug, Clone, Copy, PartialEq, Eq, Structural, Hash)]
pub enum LogFormat {
    /// One line per record. The default.
    Compact,
    /// Multi-line, with fields expanded.
    Pretty,
    /// One JSON object per line, for machines and log shippers.
    Json,
}

/// The abstract form of a resolved configuration.
pub struct ConfigView {
    pub name: Option<Seq<char>>,
    pub data_dir: Option<Seq<char>>,
    pub cache_dir: Option<Seq<char>>,
    pub level: LogLevel,
    pub format: LogFormat,
    pub file: Option<Seq<char>>,
    pub timestamps: bool,
    pub offline: bool,
    pub timeout_secs: u64,
    pub retries: u32,
}

impl View for Config {
    type V = ConfigView;

    open spec fn view(&self) -> ConfigView {
        ConfigView {
            name: self.project.name.deep_view(),
            data_dir: self.paths.data_dir.deep_view(),
            cache_dir: self.paths.cache_dir.deep_view(),
            level: self.log.level,
            format: self.log.format,
            file: self.log.file.deep_view(),
            timestamps: self.log.timestamps,
            offline: self.network.offline,
            timeout_secs: self.network.timeout_secs,
            retries: self.network.retries,
        }
    }
}

/// The documented defaults: no project name, no overrides, `info` level,
/// `compact` format, no log file, no timestamps, online, a 30 second timeout
/// and 3 retries.
pub open spec fn default_view() -> ConfigView {
    ConfigView {
        name: None,
        data_dir: None,
        cache_dir: None,
        level: LogLevel::Info,
        format: LogFormat::Compact,
        file: None,
        timestamps: false,
        offline: false,
        timeout_secs: 30,
        retries: 3,
    }
}

impl Default for Log {
    fn default() -> (l: Self)
        ensures
            l.level == LogLevel::Info,
            l.format == LogFormat::Compact,
            l.file is None,
            !l.timestamps,
    {
        Log { level: LogLevel::Info, format: LogFormat::Compact, file: None, timestamps: false }
    }
}

impl Default for Network {
    fn default() -> (n: Self)
        ensures
            !n.offline,
            n.timeout_secs == 30,
            n.retries == 3,
    {
        Network { offline: false, timeout_secs: 30, retries: 3 }
    }
}

impl Default for Project {
    fn default() -> (p: Self)
        ensures
            p.name is None,
    {
        Project { name: None }
    }
}

impl Default for PathOverrides {
    fn default() -> (p: Self)
        ensures
            p.data_dir is None,
            p.cache_dir is None,
    {
        PathOverrides { data_dir: None, cache_dir: None }
    }
}

impl Default for Config {
    fn default() -> (c: Self)
        ensures
            c@ == default_view(),
    {
        Config {
            project: Project::default(),
            paths: PathOverrides::default(),
            log: Log::default(),
            network: Network::default(),
        }
    }
}

impl LogLevel {
    /// Position in the verbosity order: `error` is 0, `trace` is 4.
    pub open spec fn rank(self) -> int {
        match self {
            LogLevel::Error => 0,
            LogLevel::Warn => 1,
            LogLevel::Info => 2,
            LogLevel::Debug => 3,
            LogLevel::Trace => 4,
        }
    }

    /// The level at a given position of the verbosity order.
    pub open spec fn at_rank(r: int) -> LogLevel {
        if r <= 0 {
            LogLevel::Error
        } else if r == 1 {
            LogLevel::Warn
        } else if r == 2 {
            LogLevel::Info
        } else if r == 3 {
            LogLevel::Debug
        } else {
            LogLevel::Trace
        }
    }

    /// The spelling `tracing` filters understand.
    pub open spec fn name(self) -> Seq<char> {
        match self {
            LogLevel::Error => "error"@,
            LogLevel::Warn => "warn"@,
            LogLevel::Info => "info"@,
            LogLevel::Debug => "debug"@,
            LogLevel::Trace => "trace"@,
        }
    }

    /// The value understood by `tracing`'s filter syntax.
    pub fn as_filter_str(self) -> (s: &'static str)
        ensures
            s@ == self.name(),
    {
        match self {
            LogLevel::Error => "error",
            LogLevel::Warn => "warn",
            LogLevel::Info => "info",
            LogLevel::Debug => "debug",
            LogLevel::Trace => "trace",
        }
    }

    /// Raises verbosity by `steps`, saturating at [`LogLevel::Trace`]. This is
    /// how repeated `-v` flags are applied.
    pub fn more_verbose(self, steps: u8) -> (l: LogLevel)
        ensures
            l == LogLevel::at_rank(vstd::math::min(self.rank() + steps, 4)),
    {
        let mut level = self;
        let mut remaining = steps;
        while remaining > 0
            invariant
                remaining <= steps,
                LogLevel::at_rank(vstd::math::min(level.rank() + remaining, 4))
                    == LogLevel::at_rank(vstd::math::min(self.rank() + steps, 4)),
            decreases remaining,
        {
            level = match level {
                LogLevel::Error => LogLevel::Warn,
                LogLevel::Warn => LogLevel::Info,
                LogLevel::Info => LogLevel::Debug,
                LogLevel::Debug | LogLevel::Trace => LogLevel::Trace,
            };
            remaining = remaining - 1;
        }
        level
    }

    /// Lowers verbosity by `steps`, saturating at [`LogLevel::Error`]. This is
    /// how repeated `-q` flags are applied.
    pub fn less_verbose(self, steps: u8) -> (l: LogLevel)
        ensures
            l == LogLevel::at_rank(vstd::math::max(self.rank() - steps, 0)),
    {
        let mut level = self;
        let mut remaining = steps;
        while remaining > 0
            invariant
                remaining <= steps,
                LogLevel::at_rank(vstd::math::max(level.rank() - remaining, 0))
                    == LogLevel::at_rank(vstd::math::max(self.rank() - steps, 0)),
            decreases remaining,
        {
            level = match level {
                LogLevel::Trace => LogLevel::Debug,
                LogLevel::Debug => LogLevel::Info,
                LogLevel::Info => LogLevel::Warn,
                LogLevel::Warn | LogLevel::Error => LogLevel::Error,
            };
            remaining = remaining - 1;
        }
        level
    }

    /// Every accepted spelling, for error messages and shell completion.
    pub fn variants() -> (v: Vec<&'static str>)
        ensures
            v@.len() == 5,
            v@[0]@ == "error"@,
            v@[1]@ == "warn"@,
            v@[2]@ == "info"@,
            v@[3]@ == "debug"@,
            v@[4]@ == "trace"@,
    {
        vec!["error", "warn", "info", "debug", "trace"]
    }

    /// Parses a level leniently: surrounding whitespace and case are ignored,
    /// and `warning` is accepted for `warn`.
    pub fn parse(value: &str) -> (r: Result<LogLevel, ConfigError>)
        ensures
            r is Ok <==> level_from(value@) is Ok,
            r matches Ok(l) ==> level_from(value@) == Ok::<LogLevel, ()>(l),
            r matches Err(e) ==> e matches ConfigError::InvalidValue { key, message } && key@
                == "log.level"@ && message@ == "`"@ + lower(trim(value@))
                + "` is not a log level; expected one of error, warn, info, debug, trace"@,
    {
        let cleaned = lower_chars(&trimmed(value));
        if chars_are(&cleaned, "error") {
            Ok(LogLevel::Error)
        } else if chars_are(&cleaned, "warn") || chars_are(&cleaned, "warning") {
            Ok(LogLevel::Warn)
        } else if chars_are(&cleaned, "info") {
            Ok(LogLevel::Info)
        } else if chars_are(&cleaned, "debug") {
            Ok(LogLevel::Debug)
        } else if chars_are(&cleaned, "trace") {
            Ok(LogLevel::Trace)
        } else {
            let mut message = owned("`");
            push_chars(&mut message, &cleaned, 0, cleaned.len());
            push_str(
                &mut message,
                "` is not a log level; expected one of error, warn, info, debug, trace",
            );
            assert(cleaned@.subrange(0, cleaned@.len() as int) =~= cleaned@);
            Err(ConfigError::InvalidValue { key: owned("log.level"), message })
        }
    }
}

/// What a level spelling means: trimmed and lowered, one of the five names or
/// `warning`.
pub open spec fn level_from(value: Seq<char>) -> Result<LogLevel, ()> {
    let v = lower(trim(value));
    if v == "error"@ {
        Ok(LogLevel::Error)
    } else if v == "warn"@ || v == "warning"@ {
        Ok(LogLevel::Warn)
    } else if v == "info"@ {
        Ok(LogLevel::Info)
    } else if v == "debug"@ {
        Ok(LogLevel::Debug)
    } else if v == "trace"@ {
        Ok(LogLevel::Trace)
    } else {
        Err(())
    }
}

/// What a format spelling means: trimmed and lowered, one of the three names
/// or `full` for `pretty`.
pub open spec fn format_from(value: Seq<char>) -> Result<LogFormat, ()> {
    let v = lower(trim(value));
    if v == "compact"@ {
        Ok(LogFormat::Compact)
    } else if v == "pretty"@ || v == "full"@ {
        Ok(LogFormat::Pretty)
    } else if v == "json"@ {
        Ok(LogFormat::Json)
    } else {
        Err(())
    }
}

impl LogFormat {
    /// The canonical spelling.
    pub open spec fn name(self) -> Seq<char> {
        match self {
            LogFormat::Compact => "compact"@,
            LogFormat::Pretty => "pretty"@,
            LogFormat::Json => "json"@,
        }
    }

    /// The canonical spelling, as displayed.
    pub fn as_str(self) -> (s: &'static str)
        ensures
            s@ == self.name(),
    {
        match self {
            LogFormat::Compact => "compact",
            LogFormat::Pretty => "pretty",
            LogFormat::Json => "json",
        }
    }

    /// Every accepted spelling.
    pub fn variants() -> (v: Vec<&'static str>)
        ensures
            v@.len() == 3,
            v@[0]@ == "compact"@,
            v@[1]@ == "pretty"@,
            v@[2]@ == "json"@,
    {
        vec!["compact", "pretty", "json"]
    }

    /// Parses a format leniently: surrounding whitespace and case are ignored,
    /// and `full` is accepted for `pretty`.
    pub fn parse(value: &str) -> (r: Result<LogFormat, ConfigError>)
        ensures
            r is Ok <==> format_from(value@) is Ok,
            r matches Ok(f) ==> format_from(value@) == Ok::<LogFormat, ()>(f),
            r matches Err(e) ==> e matches ConfigError::InvalidValue { key, message } && key@
                == "log.format"@ && message@ == "`"@ + lower(trim(value@))
                + "` is not a log format; expected one of compact, pretty, json"@,
    {
        let cleaned = lower_chars(&trimmed(value));
        if chars_are(&cleaned, "compact") {
            Ok(LogFormat::Compact)
        } else if chars_are(&cleaned, "pretty") || chars_are(&cleaned, "full") {
            Ok(LogFormat::Pretty)
        } else if chars_are(&cleaned, "json") {
            Ok(LogFormat::Json)
        } else {
            let mut message = owned("`");
            push_chars(&mut message, &cleaned, 0, cleaned.len());
            push_str(&mut message, "` is not a log format; expected one of compact, pretty, json");
            assert(cleaned@.subrange(0, cleaned@.len() as int) =~= cleaned@);
            Err(ConfigError::InvalidValue { key: owned("log.format"), message })
        }
    }
}

/// Raising and lowering verbosity never leaves the five levels, and a level
/// raised by `n` steps then lowered by the same `n` comes back to where it was
/// unless the raise hit `trace`.
pub proof fn verbosity_round_trips(level: LogLevel, n: u8)
    requires
        level.rank() + n <= 4,
    ensures
        LogLevel::at_rank(
            vstd::math::max(LogLevel::at_rank(vstd::math::min(level.rank() + n, 4)).rank() - n, 0),
        ) == level,
{
}

/// Repeated `-v` saturates at `trace` and repeated `-q` at `error`: no number
/// of flags wraps around.
pub proof fn verbosity_saturates(level: LogLevel, n: u8)
    ensures
        n as int >= 4 ==> LogLevel::at_rank(vstd::math::min(level.rank() + n, 4))
            == LogLevel::Trace,
        n as int >= 4 ==> LogLevel::at_rank(vstd::math::max(level.rank() - n, 0))
            == LogLevel::Error,
        n == 0 ==> LogLevel::at_rank(vstd::math::min(level.rank() + n, 4)) == level,
{
}

/// Every canonical level name parses back to that level, and every canonical
/// format name to that format.
pub proof fn names_parse_back(level: LogLevel, format: LogFormat)
    ensures
        level_from(level.name()) == Ok::<LogLevel, ()>(level),
        format_from(format.name()) == Ok::<LogFormat, ()>(format),
{
    reveal_strlit("error");
    reveal_strlit("warn");
    reveal_strlit("warning");
    reveal_strlit("info");
    reveal_strlit("debug");
    reveal_strlit("trace");
    reveal_strlit("compact");
    reveal_strlit("pretty");
    reveal_strlit("full");
    reveal_strlit("json");
    let n = level.name();
    crate::text::lemma_trim_noop(n);
    crate::text::lemma_lower_noop(n);
    let f = format.name();
    crate::text::lemma_trim_noop(f);
    crate::text::lemma_lower_noop(f);
}

/// The name a level is written with -- the one `as_filter_str` gives --
/// parses back to that level, and so does the same name in any letter case
/// with any surrounding whitespace: `ERROR` and ` Debug ` are `error` and
/// `debug`.
pub proof fn level_names_parse_back_in_any_case(level: LogLevel, spelling: Seq<char>)
    requires
        lower(trim(spelling)) == level.name(),
    ensures
        level_from(spelling) == Ok::<LogLevel, ()>(level),
{
    reveal_strlit("error");
    reveal_strlit("warn");
    reveal_strlit("warning");
    reveal_strlit("info");
    reveal_strlit("debug");
    reveal_strlit("trace");
    // The names differ in their first letter.
    let v = lower(trim(spelling));
    assert("error"@[0] == 'e' && "warn"@[0] == 'w' && "warning"@[0] == 'w' && "info"@[0] == 'i'
        && "debug"@[0] == 'd' && "trace"@[0] == 't');
    assert(v[0] == level.name()[0]);
}

impl std::str::FromStr for LogLevel {
    type Err = ConfigError;

    /// The same as [`LogLevel::parse`].
    fn from_str(value: &str) -> Result<LogLevel, ConfigError> {
        LogLevel::parse(value)
    }
}

impl std::str::FromStr for LogFormat {
    type Err = ConfigError;

    /// The same as [`LogFormat::parse`].
    fn from_str(value: &str) -> Result<LogFormat, ConfigError> {
        LogFormat::parse(value)
    }
}

} // verus!
