//! The individual diagnostics.
//!
//! Each function turns what was found on the machine into a [`Check`],
//! folding failures into [`Status::Error`]. None of them can fail.

use vstd::prelude::*;

use super::{Check, CheckView, Status};
use crate::config::loader::SourceView;
use crate::config::{Loaded, Source, SourceKind, SourceStatus};
use crate::error::{Error, error_message};
use crate::paths::{PROJECT_FILE, file_name, file_name_of};
use crate::text::{decimal, join, join_strings, owned, push_decimal, push_str, views};
use crate::version::BuildInfo;
#[allow(unused_imports)]
use vstd::string::*;

verus! {

/// What the caller found out about the host operating system and hardware.
#[derive(Debug, Clone)]
pub struct HostFacts {
    /// The operating system's own name for itself, when it gives one.
    pub os_name: Option<String>,
    /// The operating system's version, when it gives one.
    pub os_version: Option<String>,
    /// The kernel version, when known.
    pub kernel: Option<String>,
    /// The operating system family this binary was built for, e.g. `linux`.
    pub os: String,
    /// The architecture this binary was built for, e.g. `x86_64`.
    pub arch: String,
    /// Usable CPU threads; 0 when they could not be counted.
    pub parallelism: usize,
    /// Total memory in bytes; 0 when it could not be read.
    pub total_memory: u64,
}

/// What the caller found out about one storage directory.
#[derive(Debug)]
pub enum StorageFinding {
    /// The directory was created if need be and a probe file round-tripped
    /// through it, with this outcome.
    Probed(Result<(), Error>),
    /// The directory was only looked at: whether it exists.
    Seen(bool),
}

/// Everything the caller found on the machine, for one diagnostics run.
#[derive(Debug)]
pub struct Findings {
    /// The provenance of the running binary, as its build recorded it.
    pub build: BuildInfo,
    /// The host.
    pub host: HostFacts,
    /// The configuration directory.
    pub config_dir: StorageFinding,
    /// The data directory.
    pub data_dir: StorageFinding,
    /// The cache directory.
    pub cache_dir: StorageFinding,
    /// Where `git` was found on `PATH`, if it was.
    pub git: Option<String>,
    /// Where each of `code`, `code-insiders` and `codium` was found on `PATH`,
    /// in that order. Only the first found is reported, so the ones after it
    /// may be left `None` without being looked for.
    pub launchers: Vec<Option<String>>,
    /// The outcome of connecting to `github.com:443` and `crates.io:443`, in
    /// that order; empty when the network was not probed.
    pub reachability: Vec<Result<(), String>>,
    /// Wall-clock duration of looking, in milliseconds.
    pub duration_ms: u64,
}

/// A string's characters, or `default` when there is none.
pub open spec fn or_text(s: Option<String>, default: Seq<char>) -> Seq<char> {
    match s {
        Some(v) => v@,
        None => default,
    }
}

/// `s`, or nothing when `cond` does not hold.
pub open spec fn when(cond: bool, s: Seq<char>) -> Seq<char> {
    if cond {
        s
    } else {
        Seq::empty()
    }
}

/// The build check for the given provenance: a warning when the tree was dirty.
pub open spec fn provenance_check(info: BuildInfo) -> CheckView {
    let detail = "chiploom "@ + info.version@ + " for "@ + info.target@ + " ("@ + info.profile@
        + " build), protocol v"@ + decimal(info.protocol_version as nat) + when(
        info.commit@ != "unknown"@,
        ", commit "@ + info.commit@,
    );
    if info.dirty {
        CheckView {
            id: "core.build"@,
            title: "Chip Loom build"@,
            status: Status::Warn,
            detail,
            hint: Some(
                "This binary was built from a working tree with uncommitted changes, so its behaviour may not match any released version."@,
            ),
        }
    } else {
        CheckView {
            id: "core.build"@,
            title: "Chip Loom build"@,
            status: Status::Pass,
            detail,
            hint: None,
        }
    }
}

/// Which build produced this binary, so a bug report says it without being
/// asked.
pub fn build_provenance(info: &BuildInfo) -> (c: Check)
    ensures
        c@ == provenance_check(*info),
{
    let mut detail = owned("chiploom ");
    push_str(&mut detail, info.version);
    push_str(&mut detail, " for ");
    push_str(&mut detail, info.target);
    push_str(&mut detail, " (");
    push_str(&mut detail, info.profile);
    push_str(&mut detail, " build), protocol v");
    push_decimal(&mut detail, info.protocol_version as u64);
    let ghost base = detail@;
    assert(base =~= "chiploom "@ + info.version@ + " for "@ + info.target@ + " ("@ + info.profile@
        + " build), protocol v"@ + decimal(info.protocol_version as nat));
    if !crate::text::str_eq(info.commit, "unknown") {
        push_str(&mut detail, ", commit ");
        push_str(&mut detail, info.commit);
        assert(detail@ =~= base + (", commit "@ + info.commit@));
    } else {
        assert(detail@ =~= base + Seq::<char>::empty());
    }
    assert(detail@ == provenance_check(*info).detail);
    if info.dirty {
        Check::warn("core.build", "Chip Loom build", detail).with_hint(
            owned(
                "This binary was built from a working tree with uncommitted changes, so its behaviour may not match any released version.",
            ),
        )
    } else {
        Check::ok("core.build", "Chip Loom build", detail)
    }
}

/// The platform check: always passes, and names the system, its version, the
/// kernel, and the family and architecture the binary was built for.
pub open spec fn platform_check(h: HostFacts) -> CheckView {
    CheckView {
        id: "host.platform"@,
        title: "Host platform"@,
        status: Status::Pass,
        detail: or_text(h.os_name, h.os@) + " "@ + or_text(h.os_version, "unknown version"@)
            + " (kernel "@ + or_text(h.kernel, "unknown"@) + "), "@ + h.os@ + " on "@ + h.arch@,
        hint: None,
    }
}

/// Operating system identity, in enough detail to reproduce a report.
pub fn host_platform(h: &HostFacts) -> (c: Check)
    ensures
        c@ == platform_check(*h),
{
    let mut detail = match &h.os_name {
        Some(n) => owned(n.as_str()),
        None => owned(h.os.as_str()),
    };
    push_str(&mut detail, " ");
    match &h.os_version {
        Some(v) => push_str(&mut detail, v.as_str()),
        None => push_str(&mut detail, "unknown version"),
    }
    push_str(&mut detail, " (kernel ");
    match &h.kernel {
        Some(k) => push_str(&mut detail, k.as_str()),
        None => push_str(&mut detail, "unknown"),
    }
    push_str(&mut detail, "), ");
    push_str(&mut detail, h.os.as_str());
    push_str(&mut detail, " on ");
    push_str(&mut detail, h.arch.as_str());
    Check::ok("host.platform", "Host platform", detail)
}

/// The resources check: a warning under 1 GiB of RAM, or when the CPU count
/// is unknown; otherwise a pass.
pub open spec fn resources_check(parallelism: usize, total_memory: u64) -> CheckView {
    let mib = total_memory / 1048576u64;
    let detail = if mib == 0 {
        decimal(parallelism as nat) + " usable CPU threads; memory size unavailable"@
    } else {
        decimal(parallelism as nat) + " usable CPU threads, "@ + decimal(mib as nat) + " MiB RAM"@
    };
    if 0 < mib && mib < 1024 {
        CheckView {
            id: "host.resources"@,
            title: "Host resources"@,
            status: Status::Warn,
            detail,
            hint: Some(
                "Under 1 GiB of RAM: unpacking a toolchain or linking a large image may fail. Close other work before building."@,
            ),
        }
    } else if parallelism == 0 {
        CheckView {
            id: "host.resources"@,
            title: "Host resources"@,
            status: Status::Warn,
            detail,
            hint: Some("Chip Loom could not read the CPU count and will build single-threaded."@),
        }
    } else {
        CheckView {
            id: "host.resources"@,
            title: "Host resources"@,
            status: Status::Pass,
            detail,
            hint: None,
        }
    }
}

/// The resources check warns exactly when the machine has less than 1 GiB of
/// memory (as far as it could be read) or its CPU count could not be read; it
/// blames the CPU count only in the second case, and otherwise passes with no
/// hint. Its detail starts with the thread count.
pub proof fn resources_warn_only_on_little_memory_or_an_unread_cpu_count(parallelism: usize, total_memory: u64)
    ensures
        ({
            let c = resources_check(parallelism, total_memory);
            let little_memory = 0 < total_memory / 1048576 && total_memory / 1048576 < 1024;
            &&& c.id == "host.resources"@
            &&& (c.status == Status::Warn) <==> (little_memory || parallelism == 0)
            &&& c.status != Status::Warn ==> c.status == Status::Pass && c.hint is None
            &&& c.status == Status::Warn ==> c.hint is Some
            &&& !little_memory && parallelism == 0 ==> c.hint == Some(
                "Chip Loom could not read the CPU count and will build single-threaded."@,
            )
            &&& parallelism >= 1 && total_memory >= 1073741824 ==> c.status == Status::Pass
                && c.hint is None
            &&& decimal(parallelism as nat).is_prefix_of(c.detail)
        }),
{
    let d = decimal(parallelism as nat);
    let c = resources_check(parallelism, total_memory);
    assert(c.detail.take(d.len() as int) =~= d);
    assert(total_memory >= 1073741824 ==> total_memory / 1048576 >= 1024);
}

/// CPU and memory, because parallel builds and linking are sized from these.
pub fn host_resources(parallelism: usize, total_memory: u64) -> (c: Check)
    ensures
        c@ == resources_check(parallelism, total_memory),
{
    let total_mib = total_memory / (1024 * 1024);
    let mut detail = String::new();
    let ghost empty = detail@;
    push_decimal(&mut detail, parallelism as u64);
    assert(detail@ =~= empty + decimal(parallelism as nat));
    if total_mib == 0 {
        push_str(&mut detail, " usable CPU threads; memory size unavailable");
    } else {
        push_str(&mut detail, " usable CPU threads, ");
        push_decimal(&mut detail, total_mib);
        push_str(&mut detail, " MiB RAM");
    }
    if total_mib > 0 && total_mib < 1024 {
        Check::warn("host.resources", "Host resources", detail).with_hint(
            owned(
                "Under 1 GiB of RAM: unpacking a toolchain or linking a large image may fail. Close other work before building.",
            ),
        )
    } else if parallelism == 0 {
        Check::warn("host.resources", "Host resources", detail).with_hint(
            owned("Chip Loom could not read the CPU count and will build single-threaded."),
        )
    } else {
        Check::ok("host.resources", "Host resources", detail)
    }
}

/// How a layer is named in the configuration check.
pub open spec fn kind_label(kind: SourceKind) -> Seq<char> {
    match kind {
        SourceKind::Defaults => "defaults"@,
        SourceKind::GlobalFile => "global file"@,
        SourceKind::ProjectFile => "project file"@,
        SourceKind::ExplicitFile => "explicit file"@,
        SourceKind::Environment => "environment"@,
        SourceKind::CommandLine => "command line"@,
    }
}

/// A layer's label, with its file in brackets when it has one.
pub open spec fn source_text(s: SourceView) -> Seq<char> {
    match s.path {
        Some(p) => kind_label(s.kind) + " ("@ + p + ")"@,
        None => kind_label(s.kind),
    }
}

fn kind_label_of(kind: SourceKind) -> (s: &'static str)
    ensures
        s@ == kind_label(kind),
{
    match kind {
        SourceKind::Defaults => "defaults",
        SourceKind::GlobalFile => "global file",
        SourceKind::ProjectFile => "project file",
        SourceKind::ExplicitFile => "explicit file",
        SourceKind::Environment => "environment",
        SourceKind::CommandLine => "command line",
    }
}

/// Describes one layer for the configuration check.
pub fn describe_source(source: &Source) -> (s: String)
    ensures
        s@ == source_text(source@),
{
    let mut s = owned(kind_label_of(source.kind));
    if let Some(path) = &source.path {
        push_str(&mut s, " (");
        push_str(&mut s, path.as_str());
        push_str(&mut s, ")");
    }
    s
}

/// The descriptions of the layers that were applied, in order.
pub open spec fn applied_texts(sources: Seq<SourceView>) -> Seq<Seq<char>>
    decreases sources.len(),
{
    if sources.len() == 0 {
        Seq::empty()
    } else {
        let rest = applied_texts(sources.drop_last());
        if sources.last().status == SourceStatus::Applied {
            rest.push(source_text(sources.last()))
        } else {
            rest
        }
    }
}

/// The configuration check: which layers were applied and the effective log
/// settings; a warning carrying every load warning when there are any.
pub open spec fn configuration_check(l: crate::config::loader::LoadedView) -> CheckView {
    let detail = "layers applied: "@ + join(applied_texts(l.sources), ", "@)
        + "; effective log level "@ + l.config.level.name() + " ("@ + l.config.format.name()
        + ")"@ + when(l.config.offline, "; network access is disabled by configuration"@);
    if l.warnings.len() == 0 {
        CheckView {
            id: "config.layers"@,
            title: "Configuration"@,
            status: Status::Pass,
            detail,
            hint: None,
        }
    } else {
        CheckView {
            id: "config.layers"@,
            title: "Configuration"@,
            status: Status::Warn,
            detail: detail + ". "@ + join(l.warnings, ". "@),
            hint: Some(
                "Unrecognised keys have no effect. Remove them, or check the spelling against `docs/configuration.md`."@,
            ),
        }
    }
}

/// Which configuration layers were consulted, and whether any key was ignored.
pub fn configuration(loaded: &Loaded) -> (checks: Vec<Check>)
    ensures
        checks.len() == 1,
        checks[0]@ == configuration_check(loaded@),
{
    let ghost sv = loaded.sources@.map_values(|s: Source| s@);
    let mut applied: Vec<String> = Vec::new();
    let mut i: usize = 0;
    assert(sv.take(0) =~= Seq::<SourceView>::empty());
    while i < loaded.sources.len()
        invariant
            i <= loaded.sources.len(),
            sv == loaded.sources@.map_values(|s: Source| s@),
            views(applied@) == applied_texts(sv.take(i as int)),
        decreases loaded.sources.len() - i,
    {
        assert(sv.take(i + 1).drop_last() =~= sv.take(i as int));
        assert(sv.take(i + 1).last() == loaded.sources@[i as int]@);
        if loaded.sources[i].status == SourceStatus::Applied {
            let d = describe_source(&loaded.sources[i]);
            let ghost before = applied@;
            applied.push(d);
            assert(views(applied@) =~= views(before).push(d@));
        }
        i = i + 1;
    }
    assert(sv.take(sv.len() as int) =~= sv);
    let mut detail = owned("layers applied: ");
    let joined = join_strings(&applied, ", ");
    push_str(&mut detail, joined.as_str());
    push_str(&mut detail, "; effective log level ");
    push_str(&mut detail, loaded.config.log.level.as_filter_str());
    push_str(&mut detail, " (");
    push_str(&mut detail, loaded.config.log.format.as_str());
    push_str(&mut detail, ")");
    let ghost base = detail@;
    if loaded.config.network.offline {
        push_str(&mut detail, "; network access is disabled by configuration");
    } else {
        assert(detail@ =~= base + Seq::<char>::empty());
    }
    let check = if loaded.warnings.len() == 0 {
        Check::ok("config.layers", "Configuration", detail)
    } else {
        let mut messages: Vec<String> = Vec::new();
        let mut k: usize = 0;
        while k < loaded.warnings.len()
            invariant
                k <= loaded.warnings.len(),
                views(messages@) == crate::config::loader::messages(loaded.warnings@).take(k as int),
            decreases loaded.warnings.len() - k,
        {
            let ghost before = messages@;
            messages.push(owned(loaded.warnings[k].message.as_str()));
            assert(views(messages@) =~= views(before).push(loaded.warnings@[k as int].message@));
            assert(crate::config::loader::messages(loaded.warnings@).take(k + 1) =~= crate::config::loader::messages(
                loaded.warnings@,
            ).take(k as int).push(loaded.warnings@[k as int].message@));
            k = k + 1;
        }
        assert(crate::config::loader::messages(loaded.warnings@).take(loaded.warnings.len() as int)
            =~= crate::config::loader::messages(loaded.warnings@));
        push_str(&mut detail, ". ");
        let ignored = join_strings(&messages, ". ");
        push_str(&mut detail, ignored.as_str());
        Check::warn("config.layers", "Configuration", detail).with_hint(
            owned(
                "Unrecognised keys have no effect. Remove them, or check the spelling against `docs/configuration.md`.",
            ),
        )
    };
    let mut checks: Vec<Check> = Vec::new();
    checks.push(check);
    checks
}

/// The check for one storage directory: skipped when it was only looked at,
/// a pass when the probe round-tripped, a failure with a hint otherwise.
pub open spec fn storage_view(id: Seq<char>, title: Seq<char>, dir: Seq<char>, finding: StorageFinding, purpose: Seq<char>) -> CheckView {
    match finding {
        StorageFinding::Seen(exists) => CheckView {
            id,
            title,
            status: Status::Skipped,
            detail: dir + " -- "@ + (if exists {
                "exists (not probed for writability)"@
            } else {
                "does not exist yet (not probed)"@
            }),
            hint: None,
        },
        StorageFinding::Probed(Ok(())) => CheckView {
            id,
            title,
            status: Status::Pass,
            detail: dir + " is writable"@,
            hint: None,
        },
        StorageFinding::Probed(Err(e)) => CheckView {
            id,
            title,
            status: Status::Error,
            detail: dir + " is not usable: "@ + error_message(e),
            hint: Some(
                "Chip Loom stores "@ + purpose
                    + " here. Fix the permissions, or point it elsewhere with `paths` in chiploom.toml or the CHIPLOOM_DATA_DIR / CHIPLOOM_CACHE_DIR environment variables."@,
            ),
        },
    }
}

/// A storage check passes exactly when the write probe succeeded, fails when
/// it failed -- naming the directory and the failure, with a hint -- and is
/// skipped when the directory was only looked at. Its detail always starts
/// with the directory.
pub proof fn a_storage_check_follows_its_probe(
    id: Seq<char>,
    title: Seq<char>,
    dir: Seq<char>,
    finding: StorageFinding,
    purpose: Seq<char>,
)
    ensures
        ({
            let c = storage_view(id, title, dir, finding, purpose);
            &&& c.id == id && c.title == title
            &&& dir.is_prefix_of(c.detail)
            &&& (c.status == Status::Pass) <==> (finding matches StorageFinding::Probed(Ok(_)))
            &&& (c.status == Status::Error) <==> (finding matches StorageFinding::Probed(Err(_)))
            &&& (c.status == Status::Skipped) <==> (finding is Seen)
            &&& match finding {
                StorageFinding::Probed(Err(e)) => c.hint is Some && error_message(e).is_suffix_of(
                    c.detail,
                ),
                _ => true,
            }
            &&& c.status != Status::Error ==> c.hint is None
        }),
{
    let c = storage_view(id, title, dir, finding, purpose);
    assert(c.detail.take(dir.len() as int) =~= dir);
    match finding {
        StorageFinding::Probed(Err(e)) => {
            let m = error_message(e);
            assert(c.detail.subrange(c.detail.len() - m.len(), c.detail.len() as int) =~= m);
        },
        StorageFinding::Probed(Ok(())) => {},
        StorageFinding::Seen(_) => {},
    }
}

/// One storage location.
pub fn storage_check(
    id: &'static str,
    title: &'static str,
    dir: &str,
    finding: &StorageFinding,
    purpose: &str,
) -> (c: Check)
    ensures
        c@ == storage_view(id@, title@, dir@, *finding, purpose@),
{
    let mut detail = owned(dir);
    match finding {
        StorageFinding::Seen(exists) => {
            push_str(&mut detail, " -- ");
            if *exists {
                push_str(&mut detail, "exists (not probed for writability)");
            } else {
                push_str(&mut detail, "does not exist yet (not probed)");
            }
            Check::skipped(id, title, detail)
        },
        StorageFinding::Probed(Ok(())) => {
            push_str(&mut detail, " is writable");
            Check::ok(id, title, detail)
        },
        StorageFinding::Probed(Err(e)) => {
            push_str(&mut detail, " is not usable: ");
            let m = e.message();
            push_str(&mut detail, m.as_str());
            let mut hint = owned("Chip Loom stores ");
            push_str(&mut hint, purpose);
            push_str(
                &mut hint,
                " here. Fix the permissions, or point it elsewhere with `paths` in chiploom.toml or the CHIPLOOM_DATA_DIR / CHIPLOOM_CACHE_DIR environment variables.",
            );
            Check::error(id, title, detail).with_hint(hint)
        },
    }
}

/// The three storage checks, in the order configuration, data, cache.
pub open spec fn storage_views(l: crate::config::loader::LoadedView, config: StorageFinding, data: StorageFinding, cache: StorageFinding) -> Seq<CheckView> {
    seq![
        storage_view("paths.config"@, "Configuration directory"@, l.paths.config_dir, config, "configuration"@),
        storage_view("paths.data"@, "Data directory"@, l.paths.data_dir, data, "toolchains and target packs"@),
        storage_view("paths.cache"@, "Cache directory"@, l.paths.cache_dir, cache, "downloads, build caches and logs"@),
    ]
}

/// The three storage locations.
pub fn storage(loaded: &Loaded, config: &StorageFinding, data: &StorageFinding, cache: &StorageFinding) -> (checks: Vec<Check>)
    ensures
        checks@.map_values(|c: Check| c@) == storage_views(loaded@, *config, *data, *cache),
{
    let paths = &loaded.paths;
    let mut checks: Vec<Check> = Vec::new();
    checks.push(storage_check("paths.config", "Configuration directory", paths.config_dir(), config, "configuration"));
    checks.push(storage_check("paths.data", "Data directory", paths.data_dir(), data, "toolchains and target packs"));
    checks.push(storage_check("paths.cache", "Cache directory", paths.cache_dir(), cache, "downloads, build caches and logs"));
    assert(checks@.map_values(|c: Check| c@) =~= storage_views(loaded@, *config, *data, *cache));
    checks
}

/// The project check: a pass naming the project and its root, or skipped
/// outside a project. The name is the configured one, else the root's last
/// component, else `unnamed`.
pub open spec fn project_view(l: crate::config::loader::LoadedView) -> CheckView {
    match l.paths.project_root {
        Some(root) => {
            let name = match l.config.name {
                Some(n) => n,
                None => match file_name(l.paths.style, root) {
                    Some(n) => n,
                    None => "unnamed"@,
                },
            };
            CheckView {
                id: "project.root"@,
                title: "Project"@,
                status: Status::Pass,
                detail: "`"@ + name + "` at "@ + root,
                hint: None,
            }
        },
        None => CheckView {
            id: "project.root"@,
            title: "Project"@,
            status: Status::Skipped,
            detail: "no "@ + PROJECT_FILE@ + " found in this directory or any parent"@,
            hint: None,
        },
    }
}

/// Whether this command is running inside a Chip Loom project.
pub fn project(loaded: &Loaded) -> (c: Check)
    ensures
        c@ == project_view(loaded@),
{
    match loaded.paths.project_root() {
        Some(root) => {
            let name = match &loaded.config.project.name {
                Some(n) => owned(n.as_str()),
                None => match file_name_of(loaded.paths.style(), root) {
                    Some(n) => n,
                    None => owned("unnamed"),
                },
            };
            let mut detail = owned("`");
            push_str(&mut detail, name.as_str());
            push_str(&mut detail, "` at ");
            push_str(&mut detail, root);
            Check::ok("project.root", "Project", detail)
        },
        None => {
            let mut detail = owned("no ");
            push_str(&mut detail, PROJECT_FILE);
            push_str(&mut detail, " found in this directory or any parent");
            Check::skipped("project.root", "Project", detail)
        },
    }
}

/// The `git` check: a pass naming where it was found, else a warning.
pub open spec fn git_view(found: Option<String>) -> CheckView {
    match found {
        Some(path) => CheckView {
            id: "tools.git"@,
            title: "git"@,
            status: Status::Pass,
            detail: "found at "@ + path@,
            hint: None,
        },
        None => CheckView {
            id: "tools.git"@,
            title: "git"@,
            status: Status::Warn,
            detail: "not found on PATH"@,
            hint: Some(
                "Chip Loom builds and flashes without git. It is needed only for libraries fetched from a Git repository."@,
            ),
        },
    }
}

/// `git`, needed for Git-sourced libraries.
pub fn git(found: &Option<String>) -> (c: Check)
    ensures
        c@ == git_view(*found),
{
    match found {
        Some(path) => {
            let mut detail = owned("found at ");
            push_str(&mut detail, path.as_str());
            Check::ok("tools.git", "git", detail)
        },
        None => Check::warn("tools.git", "git", owned("not found on PATH")).with_hint(
            owned(
                "Chip Loom builds and flashes without git. It is needed only for libraries fetched from a Git repository.",
            ),
        ),
    }
}

/// The launcher names the VS Code check looks for, in order.
pub open spec fn launcher_name(i: int) -> Seq<char> {
    if i == 0 {
        "code"@
    } else if i == 1 {
        "code-insiders"@
    } else {
        "codium"@
    }
}

/// The index of the first launcher found, if any.
pub open spec fn first_found(found: Seq<Option<String>>, from: int) -> Option<int>
    decreases found.len() - from,
{
    if from >= found.len() || from < 0 {
        None
    } else if found[from] is Some {
        Some(from)
    } else {
        first_found(found, from + 1)
    }
}

/// The VS Code check: a pass naming the first launcher found, else skipped.
pub open spec fn vscode_view(found: Seq<Option<String>>) -> CheckView {
    match first_found(found, 0) {
        Some(i) => CheckView {
            id: "tools.vscode"@,
            title: "VS Code CLI"@,
            status: Status::Pass,
            detail: "`"@ + launcher_name(i) + "` found at "@ + found[i]->0@,
            hint: None,
        },
        None => CheckView {
            id: "tools.vscode"@,
            title: "VS Code CLI"@,
            status: Status::Skipped,
            detail: "no `code` launcher found on PATH"@,
            hint: None,
        },
    }
}

fn launcher_name_of(i: usize) -> (s: &'static str)
    ensures
        s@ == launcher_name(i as int),
{
    if i == 0 {
        "code"
    } else if i == 1 {
        "code-insiders"
    } else {
        "codium"
    }
}

/// The VS Code CLI. Absence is not a problem: the extension works without the
/// `code` launcher.
pub fn vscode(found: &Vec<Option<String>>) -> (c: Check)
    requires
        found.len() == 3,
    ensures
        c@ == vscode_view(found@),
{
    let mut i: usize = 0;
    while i < found.len()
        invariant
            i <= found.len(),
            first_found(found@, 0) == first_found(found@, i as int),
        decreases found.len() - i,
    {
        if let Some(path) = &found[i] {
            let mut detail = owned("`");
            push_str(&mut detail, launcher_name_of(i));
            push_str(&mut detail, "` found at ");
            push_str(&mut detail, path.as_str());
            return Check::ok("tools.vscode", "VS Code CLI", detail);
        }
        i = i + 1;
    }
    Check::skipped("tools.vscode", "VS Code CLI", owned("no `code` launcher found on PATH"))
}

/// The hosts the network check connects to, in order.
pub open spec fn host_label(i: int) -> Seq<char> {
    if i == 0 {
        "github.com:443"@
    } else {
        "crates.io:443"@
    }
}

/// The hosts among the first `probes` that were reached.
pub open spec fn reached(probes: Seq<Result<(), String>>) -> Seq<Seq<char>>
    decreases probes.len(),
{
    if probes.len() == 0 {
        Seq::empty()
    } else if probes.last() is Ok {
        reached(probes.drop_last()).push(host_label(probes.len() - 1))
    } else {
        reached(probes.drop_last())
    }
}

/// The hosts among the first `probes` that were not reached, each with why.
pub open spec fn missed(probes: Seq<Result<(), String>>) -> Seq<Seq<char>>
    decreases probes.len(),
{
    if probes.len() == 0 {
        Seq::empty()
    } else {
        match probes.last() {
            Ok(_) => missed(probes.drop_last()),
            Err(m) => missed(probes.drop_last()).push(
                host_label(probes.len() - 1) + " ("@ + m@ + ")"@,
            ),
        }
    }
}

/// Every probe is either reached or missed, and none is missed exactly when
/// all were reached.
proof fn lemma_probe_counts(probes: Seq<Result<(), String>>)
    ensures
        reached(probes).len() + missed(probes).len() == probes.len(),
        (missed(probes).len() == 0) == (forall|i: int| 0 <= i < probes.len() ==> (#[trigger] probes[i]) is Ok),
        (reached(probes).len() == 0) == (forall|i: int| 0 <= i < probes.len() ==> (#[trigger] probes[i]) is Err),
    decreases probes.len(),
{
    if probes.len() > 0 {
        let rest = probes.drop_last();
        lemma_probe_counts(rest);
        assert forall|i: int| 0 <= i < rest.len() implies rest[i] == probes[i] by {}
        if forall|i: int| 0 <= i < probes.len() ==> (#[trigger] probes[i]) is Ok {
            assert forall|i: int| 0 <= i < rest.len() implies (#[trigger] rest[i]) is Ok by {
                assert(probes[i] is Ok);
            }
        }
        if forall|i: int| 0 <= i < probes.len() ==> (#[trigger] probes[i]) is Err {
            assert forall|i: int| 0 <= i < rest.len() implies (#[trigger] rest[i]) is Err by {
                assert(probes[i] is Err);
            }
        }
        assert(probes[probes.len() - 1] == probes.last());
    }
}

/// Once asked for, on a configuration that is not offline, the network check
/// passes exactly when every host was reached, fails when none was, and warns
/// when some were; only a pass comes without a hint.
pub proof fn the_network_verdict_follows_what_was_reached(
    offline: bool,
    online: bool,
    probes: Seq<Result<(), String>>,
)
    requires
        !offline,
        online,
        probes.len() > 0,
    ensures
        ({
            let c = network_view(offline, online, probes);
            let all_reached = forall|i: int| 0 <= i < probes.len() ==> (#[trigger] probes[i]) is Ok;
            let none_reached = forall|i: int| 0 <= i < probes.len() ==> (#[trigger] probes[i]) is Err;
            &&& all_reached ==> c.status == Status::Pass && c.hint is None
            &&& none_reached ==> c.status == Status::Error && c.hint is Some
            &&& !all_reached && !none_reached ==> c.status == Status::Warn && c.hint is Some
        }),
{
    lemma_probe_counts(probes);
    if forall|i: int| 0 <= i < probes.len() ==> (#[trigger] probes[i]) is Ok {
        assert(probes[0] is Ok);
    }
}

/// The network check. An offline configuration outranks `--online`: the user
/// said never. Otherwise it is skipped unless asked for, a pass when every
/// host was reached, a failure when none was, and a warning in between.
pub open spec fn network_view(offline: bool, online: bool, probes: Seq<Result<(), String>>) -> CheckView {
    if offline {
        CheckView {
            id: "network.reachability"@,
            title: "Network"@,
            status: Status::Skipped,
            detail: "skipped: this configuration sets `network.offline = true`"@,
            hint: None,
        }
    } else if !online {
        CheckView {
            id: "network.reachability"@,
            title: "Network"@,
            status: Status::Skipped,
            detail: "skipped: pass `--online` to test connectivity"@,
            hint: None,
        }
    } else if missed(probes).len() == 0 {
        CheckView {
            id: "network.reachability"@,
            title: "Network"@,
            status: Status::Pass,
            detail: "reached "@ + join(reached(probes), ", "@),
            hint: None,
        }
    } else if reached(probes).len() == 0 {
        CheckView {
            id: "network.reachability"@,
            title: "Network"@,
            status: Status::Error,
            detail: "could not reach "@ + join(missed(probes), ", "@),
            hint: Some(
                "Chip Loom needs outbound HTTPS to download toolchains. Behind a proxy, set HTTPS_PROXY. To work entirely offline, set `network.offline = true` and import toolchains from an offline package."@,
            ),
        }
    } else {
        CheckView {
            id: "network.reachability"@,
            title: "Network"@,
            status: Status::Warn,
            detail: "reached "@ + join(reached(probes), ", "@) + "; could not reach "@ + join(
                missed(probes),
                ", "@,
            ),
            hint: Some("Some downloads may fail. Check DNS and any proxy configuration."@),
        }
    }
}

/// Whether the network has to be probed: only when asked for, and never when
/// the configuration forbids network access.
pub fn wants_network_probe(loaded: &Loaded, online: bool) -> (b: bool)
    ensures
        b == (!loaded.config.network.offline && online),
{
    !loaded.config.network.offline && online
}

fn host_label_of(i: usize) -> (s: &'static str)
    ensures
        s@ == host_label(i as int),
{
    if i == 0 {
        "github.com:443"
    } else {
        "crates.io:443"
    }
}

/// Reachability of the hosts Chip Loom downloads from, only when asked.
pub fn network(loaded: &Loaded, online: bool, probes: &Vec<Result<(), String>>) -> (c: Check)
    requires
        !loaded.config.network.offline && online ==> probes.len() == 2,
    ensures
        c@ == network_view(loaded.config.network.offline, online, probes@),
{
    if loaded.config.network.offline {
        return Check::skipped(
            "network.reachability",
            "Network",
            owned("skipped: this configuration sets `network.offline = true`"),
        );
    }
    if !online {
        return Check::skipped(
            "network.reachability",
            "Network",
            owned("skipped: pass `--online` to test connectivity"),
        );
    }
    let mut reachable: Vec<String> = Vec::new();
    let mut failures: Vec<String> = Vec::new();
    let mut i: usize = 0;
    assert(probes@.take(0) =~= Seq::<Result<(), String>>::empty());
    while i < probes.len()
        invariant
            i <= probes.len(),
            views(reachable@) == reached(probes@.take(i as int)),
            views(failures@) == missed(probes@.take(i as int)),
        decreases probes.len() - i,
    {
        assert(probes@.take(i + 1).drop_last() =~= probes@.take(i as int));
        assert(probes@.take(i + 1).last() == probes@[i as int]);
        match &probes[i] {
            Ok(()) => {
                let ghost before = reachable@;
                reachable.push(owned(host_label_of(i)));
                assert(views(reachable@) =~= views(before).push(host_label(i as int)));
            },
            Err(message) => {
                let mut entry = owned(host_label_of(i));
                push_str(&mut entry, " (");
                push_str(&mut entry, message.as_str());
                push_str(&mut entry, ")");
                let ghost before = failures@;
                failures.push(entry);
                assert(views(failures@) =~= views(before).push(entry@));
            },
        }
        i = i + 1;
    }
    assert(probes@.take(probes.len() as int) =~= probes@);
    if failures.len() == 0 {
        let mut detail = owned("reached ");
        let r = join_strings(&reachable, ", ");
        push_str(&mut detail, r.as_str());
        Check::ok("network.reachability", "Network", detail)
    } else if reachable.len() == 0 {
        let mut detail = owned("could not reach ");
        let f = join_strings(&failures, ", ");
        push_str(&mut detail, f.as_str());
        Check::error("network.reachability", "Network", detail).with_hint(
            owned(
                "Chip Loom needs outbound HTTPS to download toolchains. Behind a proxy, set HTTPS_PROXY. To work entirely offline, set `network.offline = true` and import toolchains from an offline package.",
            ),
        )
    } else {
        let mut detail = owned("reached ");
        let r = join_strings(&reachable, ", ");
        push_str(&mut detail, r.as_str());
        push_str(&mut detail, "; could not reach ");
        let f = join_strings(&failures, ", ");
        push_str(&mut detail, f.as_str());
        Check::warn("network.reachability", "Network", detail).with_hint(
            owned("Some downloads may fail. Check DNS and any proxy configuration."),
        )
    }
}

} // verus!
