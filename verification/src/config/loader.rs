//! Layered configuration loading.
//!
//! Precedence, lowest to highest:
//!
//! 1. built-in defaults
//! 2. the user-global `config.toml` (or one file named explicitly)
//! 3. the project's `chiploom.toml`, found by walking up from the working
//!    directory
//! 4. `CHIPLOOM_*` environment variables
//! 5. command-line flags
//!
//! Loading never silently discards information: every layer that was consulted
//! is reported in [`Loaded::sources`] along with whether it existed, and keys
//! that no layer understood are reported in [`Loaded::warnings`].
//!
//! The loader does no I/O of its own. It says which file it wants
//! ([`Loader::user_file`]) and where project discovery starts
//! ([`Loader::project_search_start`]); the caller reads those and hands the
//! outcome to [`Loader::load`], which is then a pure function of its inputs.

use vstd::prelude::*;

use super::document::toml_document;
use super::model::{Config, ConfigView, LogFormat, LogLevel, level_from, format_from};
use super::patch::{
    ConfigPatch, PatchView, apply_document, empty_patch, has_values, merged, resolved,
    sorted_unknown, strs,
};
use crate::error::{ConfigError, Error, IoFailure};
use crate::paths::{PathStyle, Paths, PathsView, join, join_path, PROJECT_FILE};
use crate::text::{
    all_digits, chars_of, copy, digit_value, digits_value, is_digit, lower, lower_chars, owned,
    push_chars, push_str, same, trim, trim_bounds, trimmed,
};
#[allow(unused_imports)]
use vstd::string::*;

verus! {

/// Prefix for every Chip Loom environment variable.
pub const ENV_PREFIX: &'static str = "CHIPLOOM_";

/// Points Chip Loom at a specific configuration file, replacing discovery.
pub const ENV_CONFIG_FILE: &'static str = "CHIPLOOM_CONFIG";

/// Relocates the directory the user-global `config.toml` is read from.
///
/// Environment-only, because it decides which file to read and so cannot itself
/// come from a file.
pub const ENV_CONFIG_DIR: &'static str = "CHIPLOOM_CONFIG_DIR";

/// Relocates the data directory. Equivalent to `paths.data_dir`.
pub const ENV_DATA_DIR: &'static str = "CHIPLOOM_DATA_DIR";

/// Relocates the cache directory. Equivalent to `paths.cache_dir`.
pub const ENV_CACHE_DIR: &'static str = "CHIPLOOM_CACHE_DIR";

/// Which layer a value came from.
#[derive(Debug, Clone, Copy, PartialEq, Eq, Structural)]
pub enum SourceKind {
    /// Compiled-in defaults. Always present.
    Defaults,
    /// The user-global `config.toml`.
    GlobalFile,
    /// The project's `chiploom.toml`.
    ProjectFile,
    /// A file named explicitly with `--config` or `CHIPLOOM_CONFIG`.
    ExplicitFile,
    /// `CHIPLOOM_*` environment variables.
    Environment,
    /// Command-line flags.
    CommandLine,
}

/// Whether a layer contributed anything.
#[derive(Debug, Clone, Copy, PartialEq, Eq, Structural)]
pub enum SourceStatus {
    /// The layer existed and its values were merged.
    Applied,
    /// The layer was looked for and is not there. Not an error.
    Missing,
    /// The layer was deliberately not consulted.
    Skipped,
    /// The layer exists but contributed no values.
    Empty,
}

/// One consulted configuration layer.
#[derive(Debug, Clone)]
pub struct Source {
    /// Which layer this is.
    pub kind: SourceKind,
    /// The file it came from, for file-backed layers.
    pub path: Option<String>,
    /// Whether it contributed.
    pub status: SourceStatus,
}

/// The abstract form of a [`Source`].
pub struct SourceView {
    pub kind: SourceKind,
    pub path: Option<Seq<char>>,
    pub status: SourceStatus,
}

impl View for Source {
    type V = SourceView;

    open spec fn view(&self) -> SourceView {
        SourceView { kind: self.kind, path: self.path.deep_view(), status: self.status }
    }
}

/// Something worth telling the user that did not stop the load.
#[derive(Debug, Clone)]
pub struct Warning {
    /// Stable identifier, e.g. `config.unknown_key`.
    pub code: &'static str,
    /// Human-readable explanation.
    pub message: String,
}

/// The result of a successful load.
#[derive(Debug, Clone)]
pub struct Loaded {
    /// The effective configuration.
    pub config: Config,
    /// Resolved storage locations, with configuration overrides applied.
    pub paths: Paths,
    /// Every layer that was consulted, in precedence order.
    pub sources: Vec<Source>,
    /// Non-fatal problems found while loading.
    pub warnings: Vec<Warning>,
}

/// The abstract form of [`Loaded`]: the warnings by their messages.
pub struct LoadedView {
    pub config: ConfigView,
    pub paths: PathsView,
    pub sources: Seq<SourceView>,
    pub warnings: Seq<Seq<char>>,
}

/// The messages of a run of warnings.
pub open spec fn messages(ws: Seq<Warning>) -> Seq<Seq<char>> {
    ws.map_values(|w: Warning| w.message@)
}

/// Whether every warning of a run reports an unknown key.
pub open spec fn all_unknown_keys(ws: Seq<Warning>) -> bool {
    forall|i: int| 0 <= i < ws.len() ==> (#[trigger] ws[i]).code@ == "config.unknown_key"@
}

impl View for Loaded {
    type V = LoadedView;

    open spec fn view(&self) -> LoadedView {
        LoadedView {
            config: self.config@,
            paths: self.paths@,
            sources: self.sources@.map_values(|s: Source| s@),
            warnings: messages(self.warnings@),
        }
    }
}

/// Builds a [`Loaded`] from the layers that apply to one invocation.
///
/// The environment is captured explicitly rather than read from the process at
/// the point of use, so loading is a pure function of its inputs.
#[derive(Debug, Clone)]
pub struct Loader {
    cwd: String,
    base_paths: Paths,
    explicit_file: Option<String>,
    skip_global: bool,
    skip_project: bool,
    env: Vec<(String, String)>,
    overrides: ConfigPatch,
}

/// The abstract form of a [`Loader`].
pub struct LoaderView {
    pub cwd: Seq<char>,
    pub base: PathsView,
    pub explicit: Option<Seq<char>>,
    pub skip_global: bool,
    pub skip_project: bool,
    pub env: Seq<(Seq<char>, Seq<char>)>,
    pub overrides: PatchView,
}

/// The names and values of captured environment variables.
pub open spec fn env_view(env: Seq<(String, String)>) -> Seq<(Seq<char>, Seq<char>)> {
    env.map_values(|e: (String, String)| (e.0@, e.1@))
}

impl View for Loader {
    type V = LoaderView;

    closed spec fn view(&self) -> LoaderView {
        LoaderView {
            cwd: self.cwd@,
            base: self.base_paths@,
            explicit: self.explicit_file.deep_view(),
            skip_global: self.skip_global,
            skip_project: self.skip_project,
            env: env_view(self.env@),
            overrides: self.overrides@,
        }
    }
}

/// The value of variable `name`; where it was captured more than once, the
/// last capture counts.
pub open spec fn env_value(env: Seq<(Seq<char>, Seq<char>)>, name: Seq<char>) -> Option<Seq<char>>
    decreases env.len(),
{
    if env.len() == 0 {
        None
    } else if env.last().0 == name {
        Some(env.last().1)
    } else {
        env_value(env.drop_last(), name)
    }
}

/// Why a load stopped.
pub enum Failure {
    /// A file named explicitly does not exist.
    NotFound(Seq<char>),
    /// A file could not be read.
    Unreadable(Seq<char>, IoFailure),
    /// A file is not TOML, or a known key has the wrong type.
    Invalid(Seq<char>, Seq<char>),
    /// An environment variable could not be parsed.
    InvalidEnv(Seq<char>, Seq<char>),
    /// A value parsed but is not usable.
    InvalidValue(Seq<char>, Seq<char>),
}

/// Whether `e` is the error that reports `f`.
pub open spec fn reports(e: Error, f: Failure) -> bool {
    match f {
        Failure::NotFound(p) => e matches Error::Config(ConfigError::NotFound { path }) && path@
            == p,
        Failure::Unreadable(p, s) => e matches Error::Config(ConfigError::Unreadable { path, source })
            && path@ == p && source == s,
        Failure::Invalid(p, m) => e matches Error::Config(ConfigError::Invalid { path, message })
            && path@ == p && message@ == m,
        Failure::InvalidEnv(n, m) => e matches Error::Config(
            ConfigError::InvalidEnv { name, message },
        ) && name@ == n && message@ == m,
        Failure::InvalidValue(k, m) => e matches Error::Config(
            ConfigError::InvalidValue { key, message },
        ) && key@ == k && message@ == m,
    }
}

/// What one consulted layer contributes: its values, how it is reported, and
/// the warnings it raises.
pub struct Layer {
    pub patch: PatchView,
    pub source: SourceView,
    pub warnings: Seq<Seq<char>>,
}

/// A layer that contributes nothing.
pub open spec fn silent_layer(kind: SourceKind, path: Option<Seq<char>>, status: SourceStatus) -> Layer {
    Layer {
        patch: empty_patch(),
        source: SourceView { kind, path, status },
        warnings: Seq::empty(),
    }
}

/// The warning for an unknown key `key` set in the file at `path`.
pub open spec fn unknown_warning(path: Seq<char>, key: Seq<char>) -> Seq<char> {
    "`"@ + path + "` sets `"@ + key + "`, which this version of Chip Loom does not use"@
}

/// A file layer is empty when its text is only whitespace.
pub open spec fn text_status(text: Seq<char>) -> SourceStatus {
    if trim(text).len() == 0 {
        SourceStatus::Empty
    } else {
        SourceStatus::Applied
    }
}

/// What the file at `path` contributes, given the outcome of reading it.
pub open spec fn file_layer(kind: SourceKind, path: Seq<char>, read: Result<String, IoFailure>) -> Result<
    Layer,
    Failure,
> {
    match read {
        Err(e) => Err(Failure::Unreadable(path, e)),
        Ok(text) => match toml_document(text@) {
            Err(m) => Err(Failure::Invalid(path, trim(m))),
            Ok(d) => match apply_document(d) {
                Err(m) => Err(Failure::Invalid(path, m)),
                Ok(p) => Ok(
                    Layer {
                        patch: p,
                        source: SourceView { kind, path: Some(path), status: text_status(text@) },
                        warnings: sorted_unknown(p).map_values(
                            |k: Seq<char>| unknown_warning(path, k),
                        ),
                    },
                ),
            },
        },
    }
}

/// The directory the user-global file is read from: `CHIPLOOM_CONFIG_DIR`
/// when set, else the base location.
pub open spec fn config_dir_of(l: LoaderView) -> Seq<char> {
    match env_value(l.env, ENV_CONFIG_DIR@) {
        Some(d) => d,
        None => l.base.config_dir,
    }
}

/// The user-global configuration file.
pub open spec fn global_file_of(l: LoaderView) -> Seq<char> {
    join(l.base.style, config_dir_of(l), "config.toml"@)
}

/// The file named explicitly: the flag, else `CHIPLOOM_CONFIG`.
pub open spec fn explicit_file_of(l: LoaderView) -> Option<Seq<char>> {
    match l.explicit {
        Some(f) => Some(f),
        None => env_value(l.env, ENV_CONFIG_FILE@),
    }
}

/// What the user-level layer contributes. `user` is the outcome of looking
/// at the file [`Loader::user_file`] names: `None` when it is not a file.
pub open spec fn user_layer(l: LoaderView, user: Option<Result<String, IoFailure>>) -> Result<
    Layer,
    Failure,
> {
    match explicit_file_of(l) {
        Some(f) => match user {
            None => Err(Failure::NotFound(f)),
            Some(read) => file_layer(SourceKind::ExplicitFile, f, read),
        },
        None => {
            let g = global_file_of(l);
            if l.skip_global {
                Ok(silent_layer(SourceKind::GlobalFile, Some(g), SourceStatus::Skipped))
            } else {
                match user {
                    None => Ok(silent_layer(SourceKind::GlobalFile, Some(g), SourceStatus::Missing)),
                    Some(read) => file_layer(SourceKind::GlobalFile, g, read),
                }
            }
        },
    }
}

/// Whether project discovery runs: not when it is skipped, and not when a
/// file is named explicitly, since that file replaces discovery too.
pub open spec fn discovers_project(l: LoaderView) -> bool {
    !l.skip_project && explicit_file_of(l) is None
}

/// The project root in force: none when discovery does not run.
pub open spec fn project_root_of(l: LoaderView, project: Option<(String, Result<String, IoFailure>)>) -> Option<
    Seq<char>,
> {
    if !discovers_project(l) {
        None
    } else {
        match project {
            Some(p) => Some(p.0@),
            None => None,
        }
    }
}

/// What the project layer contributes. `project` is the discovered root with
/// the outcome of reading its `chiploom.toml`, or `None` when no project was
/// found. When discovery does not run the layer is reported as skipped.
pub open spec fn project_layer(l: LoaderView, project: Option<(String, Result<String, IoFailure>)>) -> Result<
    Layer,
    Failure,
> {
    if !discovers_project(l) {
        Ok(silent_layer(SourceKind::ProjectFile, None, SourceStatus::Skipped))
    } else {
        match project {
            None => Ok(silent_layer(SourceKind::ProjectFile, None, SourceStatus::Missing)),
            Some(p) => file_layer(SourceKind::ProjectFile, join(l.base.style, p.0@, PROJECT_FILE@), p.1),
        }
    }
}

/// What a boolean spelling means: after trimming and lowering, `1`, `true`,
/// `yes`, `on` are true and `0`, `false`, `no`, `off` and the empty string are
/// false.
pub open spec fn bool_from(raw: Seq<char>) -> Option<bool> {
    let v = lower(trim(raw));
    if v == "1"@ || v == "true"@ || v == "yes"@ || v == "on"@ {
        Some(true)
    } else if v == "0"@ || v == "false"@ || v == "no"@ || v == "off"@ || v.len() == 0 {
        Some(false)
    } else {
        None
    }
}

/// The digits of a trimmed number, without one leading `+`.
pub open spec fn unsigned_digits(raw: Seq<char>) -> Seq<char> {
    let t = trim(raw);
    if t.len() > 0 && t[0] == '+' {
        t.drop_first()
    } else {
        t
    }
}

/// What a number spelling means: surrounding whitespace ignored, an optional
/// `+`, then at least one decimal digit, with a value no larger than `max`.
pub open spec fn number_from(raw: Seq<char>, max: nat) -> Option<nat> {
    let d = unsigned_digits(raw);
    if d.len() > 0 && all_digits(d) && digits_value(d) <= max {
        Some(digits_value(d))
    } else {
        None
    }
}

/// The explanation for a variable that is not a boolean.
pub open spec fn bool_message(raw: Seq<char>) -> Seq<char> {
    "`"@ + lower(trim(raw)) + "` is not a boolean; expected one of 1, 0, true, false"@
}

/// The explanation for a variable that is not a count.
pub open spec fn number_message(raw: Seq<char>) -> Seq<char> {
    "`"@ + raw + "` is not a non-negative whole number"@
}

/// `CHIPLOOM_LOG_LEVEL`, when set.
pub open spec fn env_level(env: Seq<(Seq<char>, Seq<char>)>) -> Result<Option<LogLevel>, Failure> {
    match env_value(env, "CHIPLOOM_LOG_LEVEL"@) {
        None => Ok(None),
        Some(raw) => match level_from(raw) {
            Ok(l) => Ok(Some(l)),
            Err(_) => Err(
                Failure::InvalidEnv(
                    "CHIPLOOM_LOG_LEVEL"@,
                    "`"@ + "log.level"@ + "` is invalid: "@ + ("`"@ + lower(trim(raw))
                        + "` is not a log level; expected one of error, warn, info, debug, trace"@),
                ),
            ),
        },
    }
}

/// `CHIPLOOM_LOG_FORMAT`, when set.
pub open spec fn env_format(env: Seq<(Seq<char>, Seq<char>)>) -> Result<Option<LogFormat>, Failure> {
    match env_value(env, "CHIPLOOM_LOG_FORMAT"@) {
        None => Ok(None),
        Some(raw) => match format_from(raw) {
            Ok(f) => Ok(Some(f)),
            Err(_) => Err(
                Failure::InvalidEnv(
                    "CHIPLOOM_LOG_FORMAT"@,
                    "`"@ + "log.format"@ + "` is invalid: "@ + ("`"@ + lower(trim(raw))
                        + "` is not a log format; expected one of compact, pretty, json"@),
                ),
            ),
        },
    }
}

/// `CHIPLOOM_OFFLINE`, when set.
pub open spec fn env_offline(env: Seq<(Seq<char>, Seq<char>)>) -> Result<Option<bool>, Failure> {
    match env_value(env, "CHIPLOOM_OFFLINE"@) {
        None => Ok(None),
        Some(raw) => match bool_from(raw) {
            Some(b) => Ok(Some(b)),
            None => Err(Failure::InvalidEnv("CHIPLOOM_OFFLINE"@, bool_message(raw))),
        },
    }
}

/// A numeric variable `name` no larger than `max`, when set.
pub open spec fn env_number(env: Seq<(Seq<char>, Seq<char>)>, name: Seq<char>, max: nat) -> Result<
    Option<nat>,
    Failure,
> {
    match env_value(env, name) {
        None => Ok(None),
        Some(raw) => match number_from(raw, max) {
            Some(n) => Ok(Some(n)),
            None => Err(Failure::InvalidEnv(name, number_message(raw))),
        },
    }
}

/// The layer the `CHIPLOOM_*` variables describe. Variables are checked in the
/// order level, format, offline, timeout, retries; the first that cannot be
/// parsed stops the load.
pub open spec fn env_patch(env: Seq<(Seq<char>, Seq<char>)>) -> Result<PatchView, Failure> {
    match env_level(env) {
        Err(f) => Err(f),
        Ok(level) => match env_format(env) {
            Err(f) => Err(f),
            Ok(format) => match env_offline(env) {
                Err(f) => Err(f),
                Ok(offline) => match env_number(env, "CHIPLOOM_NETWORK_TIMEOUT"@, u64::MAX as nat) {
                    Err(f) => Err(f),
                    Ok(timeout) => match env_number(
                        env,
                        "CHIPLOOM_NETWORK_RETRIES"@,
                        u32::MAX as nat,
                    ) {
                        Err(f) => Err(f),
                        Ok(retries) => Ok(
                            PatchView {
                                level,
                                format,
                                file: env_value(env, "CHIPLOOM_LOG_FILE"@),
                                data_dir: env_value(env, ENV_DATA_DIR@),
                                cache_dir: env_value(env, ENV_CACHE_DIR@),
                                offline,
                                timeout_secs: match timeout {
                                    Some(t) => Some(t as u64),
                                    None => None,
                                },
                                retries: match retries {
                                    Some(r) => Some(r as u32),
                                    None => None,
                                },
                                ..empty_patch()
                            },
                        ),
                    },
                },
            },
        },
    }
}

/// How a layer built in memory is reported: applied when it sets anything.
pub open spec fn memory_status(p: PatchView) -> SourceStatus {
    if has_values(p) {
        SourceStatus::Applied
    } else {
        SourceStatus::Empty
    }
}

/// A path override made absolute against `anchor`, by the rules of `style`.
pub open spec fn anchored(style: PathStyle, anchor: Seq<char>, dir: Option<Seq<char>>, base: Seq<char>) -> Seq<char> {
    match dir {
        Some(d) => join(style, anchor, d),
        None => base,
    }
}

/// The whole outcome of a load: every layer merged in precedence order and
/// resolved, the paths with overrides applied, every consulted source, and
/// every warning.
pub open spec fn load_outcome(
    l: LoaderView,
    user: Option<Result<String, IoFailure>>,
    project: Option<(String, Result<String, IoFailure>)>,
) -> Result<LoadedView, Failure> {
    match user_layer(l, user) {
        Err(f) => Err(f),
        Ok(u) => match project_layer(l, project) {
            Err(f) => Err(f),
            Ok(p) => match env_patch(l.env) {
                Err(f) => Err(f),
                Ok(e) => {
                    let all = merged(merged(merged(merged(empty_patch(), u.patch), p.patch), e), l.overrides);
                    match resolved(all) {
                        Err(()) => Err(
                            Failure::InvalidValue(
                                "network.timeout_secs"@,
                                "a timeout of 0 seconds would fail every request before it starts; use a positive number of seconds"@,
                            ),
                        ),
                        Ok(c) => {
                            let root = project_root_of(l, project);
                            let anchor = match root {
                                Some(r) => r,
                                None => l.cwd,
                            };
                            Ok(
                                LoadedView {
                                    config: c,
                                    paths: PathsView {
                                        style: l.base.style,
                                        config_dir: config_dir_of(l),
                                        data_dir: anchored(l.base.style, anchor, c.data_dir, l.base.data_dir),
                                        cache_dir: anchored(l.base.style, anchor, c.cache_dir, l.base.cache_dir),
                                        project_root: root,
                                    },
                                    sources: seq![
                                        SourceView { kind: SourceKind::Defaults, path: None, status: SourceStatus::Applied },
                                        u.source,
                                        p.source,
                                        SourceView { kind: SourceKind::Environment, path: None, status: memory_status(e) },
                                        SourceView { kind: SourceKind::CommandLine, path: None, status: memory_status(l.overrides) },
                                    ],
                                    warnings: u.warnings + p.warnings,
                                },
                            )
                        },
                    }
                },
            },
        },
    }
}

/// The views of a run of sources.
pub open spec fn source_views(s: Seq<Source>) -> Seq<SourceView> {
    s.map_values(|x: Source| x@)
}

fn env_get<'a>(env: &'a Vec<(String, String)>, name: &str) -> (r: Option<&'a String>)
    ensures
        match env_value(env_view(env@), name@) {
            None => r is None,
            Some(v) => r matches Some(s) && s@ == v,
        },
{
    let ghost full = env_view(env@);
    let mut i = env.len();
    assert(env_view(env@.take(i as int)) =~= full);
    while i > 0
        invariant
            i <= env.len(),
            full == env_view(env@),
            env_value(full, name@) == env_value(env_view(env@.take(i as int)), name@),
        decreases i,
    {
        let ghost part = env_view(env@.take(i as int));
        assert(part.last() == (env@[i - 1].0@, env@[i - 1].1@));
        if same(&env[i - 1].0, name) {
            return Some(&env[i - 1].1);
        }
        assert(part.drop_last() =~= env_view(env@.take(i - 1)));
        i = i - 1;
    }
    None
}

proof fn lemma_digits_prefix(s: Seq<char>, j: int)
    requires
        0 <= j <= s.len(),
    ensures
        digits_value(s.take(j)) <= digits_value(s),
    decreases s.len(),
{
    if j < s.len() {
        assert(s.drop_last().take(j) =~= s.take(j));
        lemma_digits_prefix(s.drop_last(), j);
    } else {
        assert(s.take(j) =~= s);
    }
}

/// Parses a whole number no larger than `max`, as the standard library's
/// unsigned parsing does after trimming: an optional `+`, then decimal digits.
pub fn parse_count(raw: &str, max: u64) -> (r: Option<u64>)
    ensures
        match number_from(raw@, max as nat) {
            Some(n) => r == Some(n as u64),
            None => r is None,
        },
{
    let t = trimmed(raw);
    let start: usize = if t.len() > 0 && t[0] == '+' { 1 } else { 0 };
    let ghost d = unsigned_digits(raw@);
    assert(d =~= t@.subrange(start as int, t@.len() as int));
    let mut value: u128 = 0;
    let mut ok = t.len() > start;
    let mut i = start;
    while ok && i < t.len()
        invariant
            start <= i <= t.len(),
            d == t@.subrange(start as int, t@.len() as int),
            d == unsigned_digits(raw@),
            ok ==> d.len() > 0 && all_digits(d.take(i - start)) && value == digits_value(
                d.take(i - start),
            ) && value <= max,
            !ok ==> number_from(raw@, max as nat) is None,
        decreases t.len() - i,
    {
        let c = t[i];
        assert(d[i - start] == c);
        assert(d.take(i - start + 1).drop_last() =~= d.take(i - start));
        if '0' <= c && c <= '9' {
            let next = value * 10 + ((c as u32) - 48) as u128;
            assert(all_digits(d.take(i - start + 1)));
            assert(next == digits_value(d.take(i - start + 1)));
            if next > max as u128 {
                proof {
                    lemma_digits_prefix(d, i - start + 1);
                }
                assert(digits_value(d) > max);
                ok = false;
            } else {
                value = next;
            }
        } else {
            assert(!is_digit(d[i - start]));
            assert(!all_digits(d));
            ok = false;
        }
        i = i + 1;
    }
    if ok {
        assert(d.take(d.len() as int) =~= d);
        Some(value as u64)
    } else {
        None
    }
}

/// Parses a count set in variable `name`, failing with an explanation.
fn parse_number(name: &str, raw: &str, max: u64) -> (r: Result<u64, ConfigError>)
    ensures
        match number_from(raw@, max as nat) {
            Some(n) => r == Ok::<u64, ConfigError>(n as u64),
            None => r matches Err(ConfigError::InvalidEnv { name: n, message }) && n@ == name@
                && message@ == number_message(raw@),
        },
{
    match parse_count(raw, max) {
        Some(n) => Ok(n),
        None => {
            let mut message = owned("`");
            push_str(&mut message, raw);
            push_str(&mut message, "` is not a non-negative whole number");
            Err(ConfigError::InvalidEnv { name: owned(name), message })
        },
    }
}

/// Parses a boolean spelling, as [`bool_from`] describes.
fn parse_bool(name: &str, raw: &str) -> (r: Result<bool, ConfigError>)
    ensures
        match bool_from(raw@) {
            Some(b) => r == Ok::<bool, ConfigError>(b),
            None => r matches Err(ConfigError::InvalidEnv { name: n, message }) && n@ == name@
                && message@ == bool_message(raw@),
        },
{
    let cleaned = lower_chars(&trimmed(raw));
    if crate::text::chars_are(&cleaned, "1") || crate::text::chars_are(&cleaned, "true")
        || crate::text::chars_are(&cleaned, "yes") || crate::text::chars_are(&cleaned, "on") {
        Ok(true)
    } else if crate::text::chars_are(&cleaned, "0") || crate::text::chars_are(&cleaned, "false")
        || crate::text::chars_are(&cleaned, "no") || crate::text::chars_are(&cleaned, "off")
        || cleaned.len() == 0 {
        Ok(false)
    } else {
        let mut message = owned("`");
        push_chars(&mut message, &cleaned, 0, cleaned.len());
        push_str(&mut message, "` is not a boolean; expected one of 1, 0, true, false");
        assert(cleaned@.subrange(0, cleaned@.len() as int) =~= cleaned@);
        Err(ConfigError::InvalidEnv { name: owned(name), message })
    }
}

/// Turns the `CHIPLOOM_*` variables into a patch.
///
/// Fails when a variable is set but cannot be parsed, because silently ignoring
/// `CHIPLOOM_OFFLINE=yse` would be worse than stopping.
fn patch_from_env(env: &Vec<(String, String)>) -> (r: Result<ConfigPatch, ConfigError>)
    ensures
        match env_patch(env_view(env@)) {
            Ok(p) => r matches Ok(q) && q@ == p,
            Err(f) => r matches Err(e) && reports(Error::Config(e), f),
        },
{
    let mut patch = ConfigPatch::new();
    if let Some(raw) = env_get(env, "CHIPLOOM_LOG_LEVEL") {
        match LogLevel::parse(raw.as_str()) {
            Ok(level) => {
                patch.log.level = Some(level);
            },
            Err(e) => {
                return Err(
                    ConfigError::InvalidEnv { name: owned("CHIPLOOM_LOG_LEVEL"), message: e.message() },
                );
            },
        }
    }
    if let Some(raw) = env_get(env, "CHIPLOOM_LOG_FORMAT") {
        match LogFormat::parse(raw.as_str()) {
            Ok(format) => {
                patch.log.format = Some(format);
            },
            Err(e) => {
                return Err(
                    ConfigError::InvalidEnv { name: owned("CHIPLOOM_LOG_FORMAT"), message: e.message() },
                );
            },
        }
    }
    if let Some(raw) = env_get(env, "CHIPLOOM_LOG_FILE") {
        patch.log.file = Some(copy(raw));
    }
    if let Some(raw) = env_get(env, ENV_DATA_DIR) {
        patch.paths.data_dir = Some(copy(raw));
    }
    if let Some(raw) = env_get(env, ENV_CACHE_DIR) {
        patch.paths.cache_dir = Some(copy(raw));
    }
    if let Some(raw) = env_get(env, "CHIPLOOM_OFFLINE") {
        match parse_bool("CHIPLOOM_OFFLINE", raw.as_str()) {
            Ok(b) => {
                patch.network.offline = Some(b);
            },
            Err(e) => {
                return Err(e);
            },
        }
    }
    if let Some(raw) = env_get(env, "CHIPLOOM_NETWORK_TIMEOUT") {
        match parse_number("CHIPLOOM_NETWORK_TIMEOUT", raw.as_str(), u64::MAX) {
            Ok(n) => {
                patch.network.timeout_secs = Some(n);
            },
            Err(e) => {
                return Err(e);
            },
        }
    }
    if let Some(raw) = env_get(env, "CHIPLOOM_NETWORK_RETRIES") {
        match parse_number("CHIPLOOM_NETWORK_RETRIES", raw.as_str(), 0xffff_ffff) {
            Ok(n) => {
                patch.network.retries = Some(n as u32);
            },
            Err(e) => {
                return Err(e);
            },
        }
    }
    proof {
        let e = env_patch(env_view(env@));
        assert(e is Ok ==> patch@ == e->Ok_0);
    }
    Ok(patch)
}

/// Reads one file layer: parses `read`, records a warning for each unknown key
/// and the layer's source, and hands back its patch.
fn read_patch(
    kind: SourceKind,
    path: &str,
    read: Result<String, IoFailure>,
    sources: &mut Vec<Source>,
    warnings: &mut Vec<Warning>,
) -> (r: Result<ConfigPatch, Error>)
    requires
        all_unknown_keys(old(warnings)@),
    ensures
        match file_layer(kind, path@, read) {
            Ok(layer) => r matches Ok(p) && p@ == layer.patch && source_views(final(sources)@)
                == source_views(old(sources)@).push(layer.source) && messages(final(warnings)@)
                == messages(old(warnings)@) + layer.warnings && all_unknown_keys(final(warnings)@),
            Err(f) => r matches Err(e) && reports(e, f),
        },
{
    let text = match read {
        Ok(t) => t,
        Err(e) => {
            return Err(Error::Config(ConfigError::Unreadable { path: owned(path), source: e }));
        },
    };
    let layer = match ConfigPatch::from_toml(text.as_str(), path) {
        Ok(l) => l,
        Err(e) => {
            return Err(Error::Config(e));
        },
    };
    let keys = layer.unknown_keys();
    let ghost ks = strs(keys@);
    let ghost before = messages(warnings@);
    let mut i: usize = 0;
    while i < keys.len()
        invariant
            i <= keys.len(),
            ks == strs(keys@),
            messages(warnings@) == before + ks.take(i as int).map_values(
                |k: Seq<char>| unknown_warning(path@, k),
            ),
            all_unknown_keys(warnings@),
        decreases keys.len() - i,
    {
        let mut message = owned("`");
        push_str(&mut message, path);
        push_str(&mut message, "` sets `");
        push_str(&mut message, keys[i].as_str());
        push_str(&mut message, "`, which this version of Chip Loom does not use");
        let ghost old_ws = warnings@;
        warnings.push(Warning { code: "config.unknown_key", message });
        proof {
            assert(ks[i as int] == keys@[i as int]@);
            assert(messages(warnings@) =~= messages(old_ws).push(message@));
            assert(ks.take(i + 1).map_values(|k: Seq<char>| unknown_warning(path@, k)) =~= ks.take(
                i as int,
            ).map_values(|k: Seq<char>| unknown_warning(path@, k)).push(unknown_warning(path@, ks[i as int])));
            assert(message@ =~= unknown_warning(path@, ks[i as int]));
            assert(all_unknown_keys(warnings@)) by {
                assert forall|j: int| 0 <= j < warnings@.len() implies (#[trigger] warnings@[j]).code@
                    == "config.unknown_key"@ by {
                    if j < old_ws.len() {
                        assert(warnings@[j] == old_ws[j]);
                    }
                }
            }
        }
        i = i + 1;
    }
    assert(ks.take(ks.len() as int) =~= ks);
    let status = if trimmed(text.as_str()).len() == 0 {
        SourceStatus::Empty
    } else {
        SourceStatus::Applied
    };
    let ghost old_sources = sources@;
    sources.push(Source { kind, path: Some(owned(path)), status });
    assert(source_views(sources@) =~= source_views(old_sources).push(sources@.last()@));
    Ok(layer)
}

impl Loader {
    /// Creates a loader with an explicit working directory and base paths.
    pub fn new(cwd: String, base_paths: Paths) -> (l: Loader)
        ensures
            l@ == (LoaderView {
                cwd: cwd@,
                base: base_paths@,
                explicit: None,
                skip_global: false,
                skip_project: false,
                env: Seq::empty(),
                overrides: empty_patch(),
            }),
    {
        let env: Vec<(String, String)> = Vec::new();
        let l = Loader {
            cwd,
            base_paths,
            explicit_file: None,
            skip_global: false,
            skip_project: false,
            env,
            overrides: ConfigPatch::new(),
        };
        assert(env_view(l.env@) =~= Seq::<(Seq<char>, Seq<char>)>::empty());
        l
    }

    /// Replaces discovery with one specific file, as `--config` does.
    pub fn with_explicit_file(self, file: Option<String>) -> (l: Loader)
        ensures
            l@ == (LoaderView { explicit: file.deep_view(), ..self@ }),
    {
        Loader { explicit_file: file, ..self }
    }

    /// Skips the user-global file, as `--no-global-config` does.
    pub fn skip_global(self, skip: bool) -> (l: Loader)
        ensures
            l@ == (LoaderView { skip_global: skip, ..self@ }),
    {
        Loader { skip_global: skip, ..self }
    }

    /// Skips project discovery entirely.
    pub fn skip_project(self, skip: bool) -> (l: Loader)
        ensures
            l@ == (LoaderView { skip_project: skip, ..self@ }),
    {
        Loader { skip_project: skip, ..self }
    }

    /// Supplies the `CHIPLOOM_*` variables to consider, as name and value.
    pub fn with_env(self, env: Vec<(String, String)>) -> (l: Loader)
        ensures
            l@ == (LoaderView { env: env_view(env@), ..self@ }),
    {
        Loader { env, ..self }
    }

    /// Supplies the highest-precedence layer, built from command-line flags.
    pub fn with_overrides(self, overrides: ConfigPatch) -> (l: Loader)
        ensures
            l@ == (LoaderView { overrides: overrides@, ..self@ }),
    {
        Loader { overrides, ..self }
    }

    fn explicit(&self) -> (r: Option<String>)
        ensures
            r.deep_view() == explicit_file_of(self@),
    {
        match &self.explicit_file {
            Some(f) => Some(copy(f)),
            None => match env_get(&self.env, ENV_CONFIG_FILE) {
                Some(f) => Some(copy(f)),
                None => None,
            },
        }
    }

    fn config_dir(&self) -> (r: Option<String>)
        ensures
            r.deep_view() == env_value(self@.env, ENV_CONFIG_DIR@),
    {
        match env_get(&self.env, ENV_CONFIG_DIR) {
            Some(d) => Some(copy(d)),
            None => None,
        }
    }

    fn global_file(&self) -> (r: String)
        ensures
            r@ == global_file_of(self@),
    {
        match env_get(&self.env, ENV_CONFIG_DIR) {
            Some(d) => join_path(self.base_paths.style(), d.as_str(), "config.toml"),
            None => join_path(self.base_paths.style(), self.base_paths.config_dir(), "config.toml"),
        }
    }

    /// The user-level file the load wants to look at: the file named
    /// explicitly, else the user-global file unless it is skipped.
    pub fn user_file(&self) -> (r: Option<String>)
        ensures
            match explicit_file_of(self@) {
                Some(f) => r matches Some(s) && s@ == f,
                None => if self@.skip_global {
                    r is None
                } else {
                    r matches Some(s) && s@ == global_file_of(self@)
                },
            },
    {
        match self.explicit() {
            Some(f) => Some(f),
            None => if self.skip_global {
                None
            } else {
                Some(self.global_file())
            },
        }
    }

    /// Where project discovery starts walking up from; `None` when discovery
    /// does not run, because it is skipped or a file was named explicitly.
    pub fn project_search_start(&self) -> (r: Option<String>)
        ensures
            !discovers_project(self@) ==> r is None,
            discovers_project(self@) ==> (r matches Some(c) && c@ == self@.cwd),
    {
        if self.skip_project || self.explicit().is_some() {
            None
        } else {
            Some(copy(&self.cwd))
        }
    }

    /// Merges whichever user-level file applies: the one named explicitly, or
    /// the platform-global one.
    fn merge_user_file(
        &self,
        acc: &mut ConfigPatch,
        sources: &mut Vec<Source>,
        warnings: &mut Vec<Warning>,
        user: Option<Result<String, IoFailure>>,
    ) -> (r: Result<(), Error>)
        requires
            all_unknown_keys(old(warnings)@),
        ensures
            match user_layer(self@, user) {
                Ok(u) => r is Ok && final(acc)@ == merged(old(acc)@, u.patch) && source_views(
                    final(sources)@,
                ) == source_views(old(sources)@).push(u.source) && messages(final(warnings)@)
                    == messages(old(warnings)@) + u.warnings && all_unknown_keys(final(warnings)@),
                Err(f) => r matches Err(e) && reports(e, f),
            },
    {
        proof {
            super::patch::merge_with_empty_is_identity(acc@);
            assert(messages(warnings@) + Seq::<Seq<char>>::empty() =~= messages(warnings@));
        }
        if let Some(file) = self.explicit() {
            // Named explicitly, so its absence is a real error: silently ignoring
            // it would run with a configuration the user did not ask for.
            match user {
                None => {
                    return Err(Error::Config(ConfigError::NotFound { path: file }));
                },
                Some(read) => {
                    match read_patch(SourceKind::ExplicitFile, file.as_str(), read, sources, warnings) {
                        Ok(layer) => {
                            acc.merge(layer);
                            return Ok(());
                        },
                        Err(e) => {
                            return Err(e);
                        },
                    }
                },
            }
        }
        let global = self.global_file();
        if self.skip_global {
            let ghost old_sources = sources@;
            sources.push(Source { kind: SourceKind::GlobalFile, path: Some(global), status: SourceStatus::Skipped });
            assert(source_views(sources@) =~= source_views(old_sources).push(sources@.last()@));
            return Ok(());
        }
        match user {
            None => {
                let ghost old_sources = sources@;
                sources.push(Source { kind: SourceKind::GlobalFile, path: Some(global), status: SourceStatus::Missing });
                assert(source_views(sources@) =~= source_views(old_sources).push(sources@.last()@));
                Ok(())
            },
            Some(read) => match read_patch(SourceKind::GlobalFile, global.as_str(), read, sources, warnings) {
                Ok(layer) => {
                    acc.merge(layer);
                    Ok(())
                },
                Err(e) => Err(e),
            },
        }
    }

    /// Merges the discovered project's `chiploom.toml`, and hands back the
    /// project root so relative path overrides can be anchored to it.
    fn merge_project_file(
        &self,
        acc: &mut ConfigPatch,
        sources: &mut Vec<Source>,
        warnings: &mut Vec<Warning>,
        project: Option<(String, Result<String, IoFailure>)>,
    ) -> (r: Result<Option<String>, Error>)
        requires
            all_unknown_keys(old(warnings)@),
        ensures
            match project_layer(self@, project) {
                Ok(p) => r matches Ok(root) && root.deep_view() == project_root_of(self@, project)
                    && final(acc)@ == merged(old(acc)@, p.patch) && source_views(final(sources)@)
                    == source_views(old(sources)@).push(p.source) && messages(final(warnings)@)
                    == messages(old(warnings)@) + p.warnings && all_unknown_keys(final(warnings)@),
                Err(f) => r matches Err(e) && reports(e, f),
            },
    {
        proof {
            super::patch::merge_with_empty_is_identity(acc@);
            assert(messages(warnings@) + Seq::<Seq<char>>::empty() =~= messages(warnings@));
        }
        let ghost old_sources = sources@;
        if self.skip_project || self.explicit().is_some() {
            sources.push(Source { kind: SourceKind::ProjectFile, path: None, status: SourceStatus::Skipped });
            assert(source_views(sources@) =~= source_views(old_sources).push(sources@.last()@));
            return Ok(None);
        }
        match project {
            None => {
                sources.push(Source { kind: SourceKind::ProjectFile, path: None, status: SourceStatus::Missing });
                assert(source_views(sources@) =~= source_views(old_sources).push(sources@.last()@));
                Ok(None)
            },
            Some((root, read)) => {
                let file = join_path(self.base_paths.style(), root.as_str(), PROJECT_FILE);
                match read_patch(SourceKind::ProjectFile, file.as_str(), read, sources, warnings) {
                    Ok(layer) => {
                        acc.merge(layer);
                        Ok(Some(root))
                    },
                    Err(e) => Err(e),
                }
            },
        }
    }

    /// Merges every applicable layer.
    ///
    /// `user` is the outcome of looking at the file [`Loader::user_file`]
    /// names: `None` when it is not a regular file, else the result of reading
    /// it. `project` is the root project discovery found, with the result of
    /// reading its `chiploom.toml`, or `None` when there is no project; it is
    /// not consulted when a file is named explicitly, since that file replaces
    /// discovery (see [`Loader::project_search_start`]).
    ///
    /// Fails when a file that was named explicitly is missing, when any file is
    /// unreadable or invalid, when an environment variable cannot be parsed, or
    /// when a value is out of range.
    pub fn load(
        self,
        user: Option<Result<String, IoFailure>>,
        project: Option<(String, Result<String, IoFailure>)>,
    ) -> (r: Result<Loaded, Error>)
        ensures
            match load_outcome(self@, user, project) {
                Ok(v) => r matches Ok(loaded) && loaded@ == v && all_unknown_keys(
                    loaded.warnings@,
                ),
                Err(f) => r matches Err(e) && reports(e, f),
            },
    {
        let mut sources: Vec<Source> = Vec::new();
        sources.push(Source { kind: SourceKind::Defaults, path: None, status: SourceStatus::Applied });
        assert(source_views(sources@) =~= seq![
            SourceView { kind: SourceKind::Defaults, path: None, status: SourceStatus::Applied },
        ]);
        let mut warnings: Vec<Warning> = Vec::new();
        let mut acc = ConfigPatch::new();
        let ghost lv = self@;
        assert(messages(warnings@) =~= Seq::<Seq<char>>::empty());
        match self.merge_user_file(&mut acc, &mut sources, &mut warnings, user) {
            Ok(()) => {},
            Err(e) => {
                return Err(e);
            },
        }
        let project_root = match self.merge_project_file(&mut acc, &mut sources, &mut warnings, project) {
            Ok(root) => root,
            Err(e) => {
                return Err(e);
            },
        };
        let env_layer = match patch_from_env(&self.env) {
            Ok(p) => p,
            Err(e) => {
                return Err(Error::Config(e));
            },
        };
        let env_status = if env_layer.has_values() {
            SourceStatus::Applied
        } else {
            SourceStatus::Empty
        };
        acc.merge(env_layer);
        let ghost before_env = sources@;
        sources.push(Source { kind: SourceKind::Environment, path: None, status: env_status });
        assert(source_views(sources@) =~= source_views(before_env).push(sources@.last()@));
        let config_dir = self.config_dir();
        let Loader { cwd, base_paths, overrides, .. } = self;
        let style = base_paths.style();
        let cli_status = if overrides.has_values() {
            SourceStatus::Applied
        } else {
            SourceStatus::Empty
        };
        acc.merge(overrides);
        let ghost before_cli = sources@;
        sources.push(Source { kind: SourceKind::CommandLine, path: None, status: cli_status });
        assert(source_views(sources@) =~= source_views(before_cli).push(sources@.last()@));
        let config = match acc.resolve() {
            Ok(c) => c,
            Err(e) => {
                return Err(Error::Config(e));
            },
        };
        // Relative path overrides are resolved against the project root when
        // there is one, so a checked-in `data_dir` means the same thing from any
        // subdirectory.
        let data_dir = match &config.paths.data_dir {
            Some(d) => Some(
                crate::paths::absolutize(
                    style,
                    match &project_root {
                        Some(r) => r.as_str(),
                        None => cwd.as_str(),
                    },
                    d.as_str(),
                ),
            ),
            None => None,
        };
        let cache_dir = match &config.paths.cache_dir {
            Some(d) => Some(
                crate::paths::absolutize(
                    style,
                    match &project_root {
                        Some(r) => r.as_str(),
                        None => cwd.as_str(),
                    },
                    d.as_str(),
                ),
            ),
            None => None,
        };
        let paths = base_paths.with_config_dir(config_dir).with_data_dir(data_dir).with_cache_dir(
            cache_dir,
        ).with_project_root(project_root);
        let loaded = Loaded { config, paths, sources, warnings };
        proof {
            assert(loaded@.sources =~= load_outcome(lv, user, project)->Ok_0.sources);
            assert(loaded@.warnings =~= load_outcome(lv, user, project)->Ok_0.warnings);
        }
        Ok(loaded)
    }
}

/// Every load reports the same five layers in precedence order -- defaults,
/// the user-level file, the project file, the environment, the command line --
/// including the ones that were missing or skipped.
pub proof fn every_layer_is_reported(
    l: LoaderView,
    user: Option<Result<String, IoFailure>>,
    project: Option<(String, Result<String, IoFailure>)>,
)
    requires
        load_outcome(l, user, project) is Ok,
    ensures
        ({
            let s = load_outcome(l, user, project)->Ok_0.sources;
            &&& s.len() == 5
            &&& s[0].kind == SourceKind::Defaults && s[0].status == SourceStatus::Applied
            &&& s[1].kind == (if explicit_file_of(l) is Some {
                SourceKind::ExplicitFile
            } else {
                SourceKind::GlobalFile
            })
            &&& s[2].kind == SourceKind::ProjectFile
            &&& s[3].kind == SourceKind::Environment
            &&& s[4].kind == SourceKind::CommandLine
        }),
{
}

/// For each setting the highest layer that speaks decides: command-line flags
/// override the environment, which overrides the project file, which overrides
/// the user-level file; only when no layer speaks does the default apply.
pub proof fn higher_layers_win(
    l: LoaderView,
    user: Option<Result<String, IoFailure>>,
    project: Option<(String, Result<String, IoFailure>)>,
)
    requires
        load_outcome(l, user, project) is Ok,
    ensures
        ({
            let c = load_outcome(l, user, project)->Ok_0.config;
            let u = user_layer(l, user)->Ok_0.patch;
            let p = project_layer(l, project)->Ok_0.patch;
            let e = env_patch(l.env)->Ok_0;
            &&& l.overrides.level is Some ==> c.level == l.overrides.level->0
            &&& l.overrides.level is None && e.level is Some ==> c.level == e.level->0
            &&& l.overrides.level is None && e.level is None && p.level is Some ==> c.level
                == p.level->0
            &&& l.overrides.level is None && e.level is None && p.level is None && u.level is Some
                ==> c.level == u.level->0
            &&& l.overrides.level is None && e.level is None && p.level is None && u.level is None
                ==> c.level == LogLevel::Info
            &&& l.overrides.retries is Some ==> c.retries == l.overrides.retries->0
            &&& l.overrides.retries is None && e.retries is Some ==> c.retries == e.retries->0
            &&& l.overrides.retries is None && e.retries is None && p.retries is Some ==> c.retries
                == p.retries->0
            &&& l.overrides.retries is None && e.retries is None && p.retries is None
                && u.retries is Some ==> c.retries == u.retries->0
            &&& l.overrides.format is None && e.format is None && p.format is None ==> c.format == (
            match u.format {
                Some(f) => f,
                None => LogFormat::Compact,
            })
            &&& l.overrides.timeout_secs is Some ==> c.timeout_secs == l.overrides.timeout_secs->0
            &&& l.overrides.timeout_secs is None && e.timeout_secs is Some ==> c.timeout_secs == e.timeout_secs->0
            &&& l.overrides.timeout_secs is None && e.timeout_secs is None && p.timeout_secs is Some ==> c.timeout_secs
                == p.timeout_secs->0
            &&& l.overrides.timeout_secs is None && e.timeout_secs is None && p.timeout_secs is None
                && u.timeout_secs is Some ==> c.timeout_secs == u.timeout_secs->0
            &&& l.overrides.timeout_secs is None && e.timeout_secs is None && p.timeout_secs is None
                && u.timeout_secs is None ==> c.timeout_secs == 30
            &&& l.overrides.timestamps is Some ==> c.timestamps == l.overrides.timestamps->0
            &&& l.overrides.timestamps is None && e.timestamps is Some ==> c.timestamps == e.timestamps->0
            &&& l.overrides.timestamps is None && e.timestamps is None && p.timestamps is Some ==> c.timestamps
                == p.timestamps->0
            &&& l.overrides.timestamps is None && e.timestamps is None && p.timestamps is None
                && u.timestamps is Some ==> c.timestamps == u.timestamps->0
            &&& l.overrides.timestamps is None && e.timestamps is None && p.timestamps is None
                && u.timestamps is None ==> c.timestamps == false
        }),
{
}

/// A file named explicitly, by flag or by `CHIPLOOM_CONFIG`, replaces both the
/// user-global file and project discovery, and must exist: no global file is
/// consulted, the project layer is reported as skipped, no project root is in
/// force, and whatever discovery would have found makes no difference.
pub proof fn an_explicit_file_replaces_the_global_file_and_discovery(
    l: LoaderView,
    user: Option<Result<String, IoFailure>>,
    project: Option<(String, Result<String, IoFailure>)>,
)
    requires
        explicit_file_of(l) is Some,
    ensures
        user is None ==> load_outcome(l, user, project) == Err::<LoadedView, Failure>(
            Failure::NotFound(explicit_file_of(l)->0),
        ),
        load_outcome(l, user, project) == load_outcome(l, user, None),
        load_outcome(l, user, project) is Ok ==> ({
            let v = load_outcome(l, user, project)->Ok_0;
            &&& forall|i: int| 0 <= i < v.sources.len() ==> (#[trigger] v.sources[i]).kind
                != SourceKind::GlobalFile
            &&& v.sources[2] == (SourceView {
                kind: SourceKind::ProjectFile,
                path: None,
                status: SourceStatus::Skipped,
            })
            &&& v.paths.project_root is None
        }),
{
}

/// `CHIPLOOM_CONFIG` acts exactly like `--config`: with no flag given, naming a
/// file in the variable loads the same as naming it with the flag.
pub proof fn the_config_variable_acts_like_the_flag(
    l: LoaderView,
    f: Seq<char>,
    user: Option<Result<String, IoFailure>>,
    project: Option<(String, Result<String, IoFailure>)>,
)
    requires
        l.explicit is None,
        env_value(l.env, ENV_CONFIG_FILE@) == Some(f),
    ensures
        load_outcome(l, user, project) == load_outcome(
            LoaderView { explicit: Some(f), ..l },
            user,
            project,
        ),
{
    let m = LoaderView { explicit: Some(f), ..l };
    assert(explicit_file_of(m) == explicit_file_of(l));
    assert(user_layer(m, user) == user_layer(l, user));
    assert(project_layer(m, project) == project_layer(l, project));
    assert(project_root_of(m, project) == project_root_of(l, project));
    assert(config_dir_of(m) == config_dir_of(l));
}

/// Path overrides are anchored to the project root when there is one and to
/// the working directory otherwise; an absolute override is used as given.
pub proof fn path_overrides_are_anchored(
    l: LoaderView,
    user: Option<Result<String, IoFailure>>,
    project: Option<(String, Result<String, IoFailure>)>,
)
    requires
        load_outcome(l, user, project) is Ok,
    ensures
        ({
            let v = load_outcome(l, user, project)->Ok_0;
            let anchor = match project_root_of(l, project) {
                Some(r) => r,
                None => l.cwd,
            };
            &&& v.config.data_dir is Some ==> v.paths.data_dir == join(l.base.style, anchor, v.config.data_dir->0)
            &&& v.config.data_dir is Some && crate::paths::is_absolute(l.base.style, v.config.data_dir->0)
                ==> v.paths.data_dir == v.config.data_dir->0
            &&& v.config.data_dir is None ==> v.paths.data_dir == l.base.data_dir
            &&& v.config.cache_dir is Some ==> v.paths.cache_dir == join(l.base.style, anchor, v.config.cache_dir->0)
            &&& v.config.cache_dir is Some && crate::paths::is_absolute(l.base.style, v.config.cache_dir->0)
                ==> v.paths.cache_dir == v.config.cache_dir->0
            &&& v.config.cache_dir is None ==> v.paths.cache_dir == l.base.cache_dir
        }),
{
}

/// On a bare machine -- no files, no variables, no flags -- the load yields
/// exactly the documented defaults and no warnings, and reports the global
/// file as missing.
pub proof fn a_bare_machine_loads_the_defaults(l: LoaderView)
    requires
        l.explicit is None,
        !l.skip_global,
        l.env.len() == 0,
        l.overrides == empty_patch(),
    ensures
        load_outcome(l, None, None) is Ok,
        load_outcome(l, None, None)->Ok_0.config == super::model::default_view(),
        load_outcome(l, None, None)->Ok_0.warnings.len() == 0,
        load_outcome(l, None, None)->Ok_0.sources[1].status == SourceStatus::Missing,
{
    super::patch::merge_with_empty_is_identity(empty_patch());
}

/// Each `CHIPLOOM_*` variable that is set and well formed lands in the
/// environment layer as it reads: a level by its name in any case, a format
/// by its name, `true` or `false` for offline, a run of digits as that number,
/// and a path as written. A variable that is not set leaves its setting to
/// the other layers, and the environment never names the project.
pub proof fn environment_variables_are_read_as_written(
    env: Seq<(Seq<char>, Seq<char>)>,
    level: LogLevel,
    format: LogFormat,
    digits: Seq<char>,
)
    requires
        env_patch(env) is Ok,
    ensures
        ({
            let e = env_patch(env)->Ok_0;
            &&& (env_value(env, "CHIPLOOM_LOG_LEVEL"@) matches Some(raw) && lower(trim(raw))
                == level.name()) ==> e.level == Some(level)
            &&& env_value(env, "CHIPLOOM_LOG_LEVEL"@) is None ==> e.level is None
            &&& env_value(env, "CHIPLOOM_LOG_FORMAT"@) == Some(format.name()) ==> e.format == Some(
                format,
            )
            &&& env_value(env, "CHIPLOOM_LOG_FORMAT"@) is None ==> e.format is None
            &&& (env_value(env, "CHIPLOOM_OFFLINE"@) matches Some(raw) && lower(trim(raw)) == "true"@)
                ==> e.offline == Some(true)
            &&& (env_value(env, "CHIPLOOM_OFFLINE"@) matches Some(raw) && lower(trim(raw))
                == "false"@) ==> e.offline == Some(false)
            &&& env_value(env, "CHIPLOOM_OFFLINE"@) is None ==> e.offline is None
            &&& (env_value(env, "CHIPLOOM_NETWORK_TIMEOUT"@) == Some(digits) && digits.len() > 0
                && all_digits(digits)) ==> (e.timeout_secs matches Some(t) && t == digits_value(
                digits,
            ))
            &&& env_value(env, "CHIPLOOM_NETWORK_TIMEOUT"@) is None ==> e.timeout_secs is None
            &&& (env_value(env, "CHIPLOOM_NETWORK_RETRIES"@) == Some(digits) && digits.len() > 0
                && all_digits(digits)) ==> (e.retries matches Some(t) && t == digits_value(digits))
            &&& env_value(env, "CHIPLOOM_NETWORK_RETRIES"@) is None ==> e.retries is None
            &&& e.file == env_value(env, "CHIPLOOM_LOG_FILE"@)
            &&& e.data_dir == env_value(env, ENV_DATA_DIR@)
            &&& e.cache_dir == env_value(env, ENV_CACHE_DIR@)
            &&& e.name is None
        }),
{
    reveal_strlit("1");
    reveal_strlit("true");
    reveal_strlit("yes");
    reveal_strlit("on");
    reveal_strlit("false");
    if let Some(raw) = env_value(env, "CHIPLOOM_LOG_LEVEL"@) {
        if lower(trim(raw)) == level.name() {
            super::model::level_names_parse_back_in_any_case(level, raw);
        }
    }
    super::model::names_parse_back(level, format);
    assert("false"@[0] == 'f' && "1"@[0] == '1' && "true"@[0] == 't' && "yes"@[0] == 'y'
        && "on"@[0] == 'o' && "1"@.len() == 1 && "on"@.len() == 2 && "true"@.len() == 4);
    if digits.len() > 0 && all_digits(digits) {
        assert(is_digit(digits[0]) && is_digit(digits.last()));
        crate::text::lemma_trim_noop(digits);
        assert(digits[0] != '+');
        assert(unsigned_digits(digits) == digits);
    }
}

} // verus!
