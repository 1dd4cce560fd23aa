//! `chiploom doctor`: a report on whether this machine can run Chip Loom.
//!
//! The engine runs a list of independent checks and collects their results.
//! What matters is the contract each check honours:
//!
//! * A check never returns an error to the caller. A check that cannot run
//!   reports [`Status::Error`] with an explanation, because a doctor that
//!   aborts halfway through is useless for the one machine that needs it.
//! * A check that would need the network is [`Status::Skipped`] unless the
//!   caller asked for online checks, so `doctor` is safe and fast by default.
//! * Every warning or failure carries a `hint` saying what to do about it.
//!
//! Looking at the machine -- the operating system, memory, the `PATH`, the
//! storage directories, the network -- is the caller's part: it gathers
//! [`Findings`] and [`run`] turns them into the report.

pub mod checks;

use vstd::prelude::*;

use crate::config::Loaded;
use crate::error::ExitCode;
use crate::text::str_eq;
use crate::config::loader::LoadedView;
use crate::version::BuildInfo;
#[allow(unused_imports)]
use vstd::string::*;

pub use checks::{Findings, HostFacts, StorageFinding};
use checks::{
    configuration_check, git_view, network_view, platform_check, project_view, provenance_check,
    resources_check, storage_views, vscode_view,
};

verus! {

/// The outcome of a single check, from least to most severe.
#[derive(Debug, Clone, Copy, PartialEq, Eq, Structural, PartialOrd, Ord)]
pub enum Status {
    /// The check was not run.
    Skipped,
    /// Everything the check looked at is fine.
    Pass,
    /// Usable now, but something will bite later.
    Warn,
    /// Chip Loom cannot work correctly in this state.
    Error,
}

impl Status {
    /// Where the status stands in the severity order.
    pub open spec fn rank(self) -> int {
        match self {
            Status::Skipped => 0,
            Status::Pass => 1,
            Status::Warn => 2,
            Status::Error => 3,
        }
    }

    /// The fixed-width marker for terminal output.
    pub open spec fn marker_text(self) -> Seq<char> {
        match self {
            Status::Pass => "ok"@,
            Status::Warn => "warn"@,
            Status::Error => "fail"@,
            Status::Skipped => "skip"@,
        }
    }

    /// A fixed-width marker for terminal output.
    pub fn marker(self) -> (m: &'static str)
        ensures
            m@ == self.marker_text(),
    {
        match self {
            Status::Pass => "ok",
            Status::Warn => "warn",
            Status::Error => "fail",
            Status::Skipped => "skip",
        }
    }

    /// Whether `self` is more severe than `other`, in the order the variants
    /// are declared.
    pub fn is_worse_than(self, other: Status) -> (b: bool)
        ensures
            b == (self.rank() > other.rank()),
    {
        self.severity() > other.severity()
    }

    fn severity(self) -> (r: u8)
        ensures
            r == self.rank(),
    {
        match self {
            Status::Skipped => 0,
            Status::Pass => 1,
            Status::Warn => 2,
            Status::Error => 3,
        }
    }
}

/// One line of the report.
#[derive(Debug, Clone)]
pub struct Check {
    /// Stable dotted identifier, e.g. `paths.data`. Safe to grep for in CI.
    pub id: &'static str,
    /// Short human-readable name.
    pub title: &'static str,
    /// What the check found.
    pub status: Status,
    /// The finding, phrased so it makes sense on its own in a bug report.
    pub detail: String,
    /// What to do about a warning or failure.
    pub hint: Option<String>,
}

/// The abstract form of a [`Check`].
pub struct CheckView {
    pub id: Seq<char>,
    pub title: Seq<char>,
    pub status: Status,
    pub detail: Seq<char>,
    pub hint: Option<Seq<char>>,
}

impl View for Check {
    type V = CheckView;

    open spec fn view(&self) -> CheckView {
        CheckView {
            id: self.id@,
            title: self.title@,
            status: self.status,
            detail: self.detail@,
            hint: self.hint.deep_view(),
        }
    }
}

impl Check {
    pub(crate) fn new(id: &'static str, title: &'static str, status: Status, detail: String) -> (c: Check)
        ensures
            c@ == (CheckView { id: id@, title: title@, status, detail: detail@, hint: None }),
    {
        Check { id, title, status, detail, hint: None }
    }

    pub(crate) fn ok(id: &'static str, title: &'static str, detail: String) -> (c: Check)
        ensures
            c@ == (CheckView { id: id@, title: title@, status: Status::Pass, detail: detail@, hint: None }),
    {
        Check::new(id, title, Status::Pass, detail)
    }

    pub(crate) fn warn(id: &'static str, title: &'static str, detail: String) -> (c: Check)
        ensures
            c@ == (CheckView { id: id@, title: title@, status: Status::Warn, detail: detail@, hint: None }),
    {
        Check::new(id, title, Status::Warn, detail)
    }

    pub(crate) fn error(id: &'static str, title: &'static str, detail: String) -> (c: Check)
        ensures
            c@ == (CheckView { id: id@, title: title@, status: Status::Error, detail: detail@, hint: None }),
    {
        Check::new(id, title, Status::Error, detail)
    }

    pub(crate) fn skipped(id: &'static str, title: &'static str, detail: String) -> (c: Check)
        ensures
            c@ == (CheckView {
                id: id@,
                title: title@,
                status: Status::Skipped,
                detail: detail@,
                hint: None,
            }),
    {
        Check::new(id, title, Status::Skipped, detail)
    }

    pub(crate) fn with_hint(self, hint: String) -> (c: Check)
        ensures
            c@ == (CheckView { hint: Some(hint@), ..self@ }),
    {
        Check { hint: Some(hint), ..self }
    }
}

/// How many checks landed in each status.
#[derive(Debug, Clone, Copy, PartialEq, Eq, Structural)]
pub struct Summary {
    /// Checks that passed.
    pub ok: usize,
    /// Checks that warned.
    pub warn: usize,
    /// Checks that failed.
    pub error: usize,
    /// Checks that did not run.
    pub skipped: usize,
}

/// A complete diagnostics run.
#[derive(Debug, Clone)]
pub struct Report {
    /// Build provenance, so a pasted report identifies its binary.
    pub build: BuildInfo,
    /// Every check, in the order they ran.
    pub checks: Vec<Check>,
    /// Wall-clock duration of the run.
    pub duration_ms: u64,
}

/// How many of `checks` have status `s`.
pub open spec fn count(checks: Seq<Check>, s: Status) -> nat
    decreases checks.len(),
{
    if checks.len() == 0 {
        0
    } else {
        count(checks.drop_last(), s) + (if checks.last().status == s {
            1nat
        } else {
            0nat
        })
    }
}

/// The most severe status among `checks`, or `Ok` when there are none.
pub open spec fn worst(checks: Seq<Check>) -> Status
    decreases checks.len(),
{
    if checks.len() == 0 {
        Status::Pass
    } else if checks.len() == 1 {
        checks[0].status
    } else {
        let rest = worst(checks.drop_last());
        if checks.last().status.rank() > rest.rank() {
            checks.last().status
        } else {
            rest
        }
    }
}

/// Whether some check has status `s`.
pub open spec fn any_with(checks: Seq<Check>, s: Status) -> bool {
    exists|i: int| 0 <= i < checks.len() && (#[trigger] checks[i]).status == s
}

proof fn lemma_count_bound(checks: Seq<Check>, s: Status)
    ensures
        count(checks, s) <= checks.len(),
    decreases checks.len(),
{
    if checks.len() > 0 {
        lemma_count_bound(checks.drop_last(), s);
    }
}

impl Report {
    /// Counts by status.
    pub fn summary(&self) -> (s: Summary)
        ensures
            s.ok == count(self.checks@, Status::Pass),
            s.warn == count(self.checks@, Status::Warn),
            s.error == count(self.checks@, Status::Error),
            s.skipped == count(self.checks@, Status::Skipped),
    {
        let mut summary = Summary { ok: 0, warn: 0, error: 0, skipped: 0 };
        let mut i: usize = 0;
        while i < self.checks.len()
            invariant
                i <= self.checks.len(),
                summary.ok == count(self.checks@.take(i as int), Status::Pass),
                summary.warn == count(self.checks@.take(i as int), Status::Warn),
                summary.error == count(self.checks@.take(i as int), Status::Error),
                summary.skipped == count(self.checks@.take(i as int), Status::Skipped),
            decreases self.checks.len() - i,
        {
            let ghost next = self.checks@.take(i + 1);
            assert(next.drop_last() =~= self.checks@.take(i as int));
            proof {
                lemma_count_bound(next, Status::Pass);
                lemma_count_bound(next, Status::Warn);
                lemma_count_bound(next, Status::Error);
                lemma_count_bound(next, Status::Skipped);
            }
            match self.checks[i].status {
                Status::Pass => summary.ok = summary.ok + 1,
                Status::Warn => summary.warn = summary.warn + 1,
                Status::Error => summary.error = summary.error + 1,
                Status::Skipped => summary.skipped = summary.skipped + 1,
            }
            i = i + 1;
        }
        assert(self.checks@.take(self.checks.len() as int) =~= self.checks@);
        summary
    }

    /// The worst status in the report, which is the report's own status.
    pub fn status(&self) -> (s: Status)
        ensures
            s == worst(self.checks@),
    {
        if self.checks.len() == 0 {
            return Status::Pass;
        }
        let mut w = self.checks[0].status;
        let mut i: usize = 1;
        assert(self.checks@.take(1) =~= seq![self.checks@[0]]);
        while i < self.checks.len()
            invariant
                1 <= i <= self.checks.len(),
                w == worst(self.checks@.take(i as int)),
            decreases self.checks.len() - i,
        {
            assert(self.checks@.take(i + 1).drop_last() =~= self.checks@.take(i as int));
            if self.checks[i].status.is_worse_than(w) {
                w = self.checks[i].status;
            }
            i = i + 1;
        }
        assert(self.checks@.take(self.checks.len() as int) =~= self.checks@);
        w
    }

    /// The process exit code for this report.
    ///
    /// Warnings do not fail the command: a machine with no `code` on `PATH` is
    /// perfectly able to build firmware. Callers that want strictness check
    /// [`Report::status`] themselves.
    pub fn exit_code(&self) -> (c: ExitCode)
        ensures
            c == (if any_with(self.checks@, Status::Error) {
                ExitCode::DiagnosticsFailed
            } else {
                ExitCode::Success
            }),
    {
        if self.has_errors() {
            ExitCode::DiagnosticsFailed
        } else {
            ExitCode::Success
        }
    }

    fn has_status(&self, s: Status) -> (b: bool)
        ensures
            b == any_with(self.checks@, s),
    {
        let mut i: usize = 0;
        while i < self.checks.len()
            invariant
                i <= self.checks.len(),
                forall|k: int| 0 <= k < i ==> (#[trigger] self.checks@[k]).status != s,
            decreases self.checks.len() - i,
        {
            if self.checks[i].status == s {
                assert(self.checks@[i as int].status == s);
                return true;
            }
            i = i + 1;
        }
        false
    }

    /// Whether any check failed outright.
    pub fn has_errors(&self) -> (b: bool)
        ensures
            b == any_with(self.checks@, Status::Error),
    {
        self.has_status(Status::Error)
    }

    /// Whether any check warned.
    pub fn has_warnings(&self) -> (b: bool)
        ensures
            b == any_with(self.checks@, Status::Warn),
    {
        self.has_status(Status::Warn)
    }

    /// Looks a check up by its identifier: the first with that identifier.
    pub fn check(&self, id: &str) -> (r: Option<&Check>)
        ensures
            match r {
                Some(c) => exists|i: int|
                    0 <= i < self.checks.len() && self.checks@[i] == *c && c.id@ == id@ && forall|
                        k: int,
                    | 0 <= k < i ==> (#[trigger] self.checks@[k]).id@ != id@,
                None => forall|k: int|
                    0 <= k < self.checks.len() ==> (#[trigger] self.checks@[k]).id@ != id@,
            },
    {
        let mut i: usize = 0;
        while i < self.checks.len()
            invariant
                i <= self.checks.len(),
                forall|k: int| 0 <= k < i ==> (#[trigger] self.checks@[k]).id@ != id@,
            decreases self.checks.len() - i,
        {
            if str_eq(self.checks[i].id, id) {
                return Some(&self.checks[i]);
            }
            i = i + 1;
        }
        None
    }
}

/// What the caller wants the run to cover.
#[derive(Debug, Clone, Copy, PartialEq, Eq, Structural)]
pub struct Options {
    /// Run checks that open network connections. Off by default: `doctor` must
    /// be usable on an air-gapped machine without hanging on a DNS timeout.
    pub online: bool,
    /// Prove directories are writable by round-tripping a probe file. On by
    /// default; turning it off keeps the run read-only.
    pub write_probe: bool,
}

impl Default for Options {
    fn default() -> (o: Self)
        ensures
            !o.online,
            o.write_probe,
    {
        Options { online: false, write_probe: true }
    }
}

/// The count of a status is the number of checks that have it.
pub proof fn count_is_the_number_of_checks_with_that_status(checks: Seq<Check>, s: Status)
    ensures
        count(checks, s) == checks.filter(|c: Check| c.status == s).len(),
    decreases checks.len(),
{
    reveal(Seq::filter);
    if checks.len() > 0 {
        count_is_the_number_of_checks_with_that_status(checks.drop_last(), s);
    }
}

/// The counts of a summary add up to the number of checks.
pub proof fn summary_counts_add_up(checks: Seq<Check>)
    ensures
        count(checks, Status::Pass) + count(checks, Status::Warn) + count(checks, Status::Error)
            + count(checks, Status::Skipped) == checks.len(),
    decreases checks.len(),
{
    if checks.len() > 0 {
        summary_counts_add_up(checks.drop_last());
    }
}

/// The report's status is the worst of its checks: no check is worse, and
/// with any checks at all, some check has exactly that status.
pub proof fn report_status_is_the_worst(checks: Seq<Check>)
    ensures
        forall|i: int| 0 <= i < checks.len() ==> (#[trigger] checks[i]).status.rank() <= worst(
            checks,
        ).rank(),
        checks.len() > 0 ==> exists|i: int|
            0 <= i < checks.len() && (#[trigger] checks[i]).status == worst(checks),
        checks.len() == 0 ==> worst(checks) == Status::Pass,
    decreases checks.len(),
{
    if checks.len() > 1 {
        let rest = checks.drop_last();
        report_status_is_the_worst(rest);
        assert forall|i: int| 0 <= i < checks.len() implies (#[trigger] checks[i]).status.rank()
            <= worst(checks).rank() by {
            if i < checks.len() - 1 {
                assert(checks[i] == rest[i]);
            }
        }
        if worst(checks) == worst(rest) {
            let j = choose|j: int| 0 <= j < rest.len() && (#[trigger] rest[j]).status == worst(rest);
            assert(checks[j] == rest[j]);
        } else {
            assert(checks[checks.len() - 1].status == worst(checks));
        }
    }
}

/// A report fails the command exactly when it holds a failed check, which is
/// exactly when its status is `Error`; warnings alone never fail it.
pub proof fn only_failures_fail_the_run(checks: Seq<Check>)
    ensures
        any_with(checks, Status::Error) <==> worst(checks) == Status::Error,
        !any_with(checks, Status::Error) ==> worst(checks) != Status::Error,
{
    report_status_is_the_worst(checks);
    if any_with(checks, Status::Error) {
        let i = choose|i: int| 0 <= i < checks.len() && (#[trigger] checks[i]).status == Status::Error;
        assert(checks[i].status.rank() <= worst(checks).rank());
    }
}

/// The checks a run produces, in the order they run.
pub open spec fn run_checks(l: LoadedView, online: bool, f: Findings) -> Seq<CheckView> {
    seq![
        provenance_check(f.build),
        platform_check(f.host),
        resources_check(f.host.parallelism, f.host.total_memory),
        configuration_check(l),
    ] + storage_views(l, f.config_dir, f.data_dir, f.cache_dir) + seq![
        project_view(l),
        git_view(f.git),
        vscode_view(f.launchers@),
        network_view(l.config.offline, online, f.reachability@),
    ]
}

/// Whether the storage findings are the ones `options` asks for: probed when
/// the write probe is on, only looked at when it is off.
pub open spec fn storage_matches(options: Options, f: Findings) -> bool {
    if options.write_probe {
        f.config_dir is Probed && f.data_dir is Probed && f.cache_dir is Probed
    } else {
        f.config_dir is Seen && f.data_dir is Seen && f.cache_dir is Seen
    }
}

/// Runs every check against an already-loaded configuration and what the
/// caller found on the machine.
///
/// Takes [`Loaded`] rather than loading it so that the report describes the
/// same configuration the rest of the command is using.
pub fn run(loaded: &Loaded, options: Options, findings: Findings) -> (r: Report)
    requires
        findings.launchers.len() == 3,
        !loaded.config.network.offline && options.online ==> findings.reachability.len() == 2,
        storage_matches(options, findings),
    ensures
        r.build == findings.build,
        r.duration_ms == findings.duration_ms,
        r.checks@.map_values(|c: Check| c@) == run_checks(loaded@, options.online, findings),
{
    let ghost f = findings;
    let build = findings.build;
    let mut all: Vec<Check> = Vec::new();
    all.push(checks::build_provenance(&build));
    all.push(checks::host_platform(&findings.host));
    all.push(checks::host_resources(findings.host.parallelism, findings.host.total_memory));
    let mut config = checks::configuration(loaded);
    all.append(&mut config);
    let mut storage = checks::storage(loaded, &findings.config_dir, &findings.data_dir, &findings.cache_dir);
    all.append(&mut storage);
    all.push(checks::project(loaded));
    all.push(checks::git(&findings.git));
    all.push(checks::vscode(&findings.launchers));
    all.push(checks::network(loaded, options.online, &findings.reachability));
    assert(all@.map_values(|c: Check| c@) =~= run_checks(loaded@, options.online, f));
    Report { build, checks: all, duration_ms: findings.duration_ms }
}

/// A run covers the documented checks, in order.
pub proof fn a_run_covers_the_documented_checks(l: LoadedView, online: bool, f: Findings)
    ensures
        run_checks(l, online, f).map_values(|c: CheckView| c.id) == seq![
            "core.build"@,
            "host.platform"@,
            "host.resources"@,
            "config.layers"@,
            "paths.config"@,
            "paths.data"@,
            "paths.cache"@,
            "project.root"@,
            "tools.git"@,
            "tools.vscode"@,
            "network.reachability"@,
        ],
{
    assert(run_checks(l, online, f).map_values(|c: CheckView| c.id) =~= seq![
        "core.build"@,
        "host.platform"@,
        "host.resources"@,
        "config.layers"@,
        "paths.config"@,
        "paths.data"@,
        "paths.cache"@,
        "project.root"@,
        "tools.git"@,
        "tools.vscode"@,
        "network.reachability"@,
    ]);
}

/// Every warning or failure a run reports carries a hint saying what to do.
pub proof fn every_problem_carries_a_hint(l: LoadedView, online: bool, f: Findings)
    ensures
        forall|i: int|
            0 <= i < run_checks(l, online, f).len() && ((#[trigger] run_checks(l, online, f)[i]).status
                == Status::Warn || run_checks(l, online, f)[i].status == Status::Error)
                ==> run_checks(l, online, f)[i].hint is Some,
{
    let c = run_checks(l, online, f);
    assert forall|i: int| 0 <= i < c.len() && (#[trigger] c[i].status == Status::Warn || c[i].status == Status::Error) implies c[i].hint is Some by {
        if i >= 4 && i < 7 {
            assert(c[i] == storage_views(l, f.config_dir, f.data_dir, f.cache_dir)[i - 4]);
        }
    }
}

/// The network is probed only when asked for and never against an offline
/// configuration: otherwise the network check is skipped, and an offline
/// configuration says so.
pub proof fn the_network_is_left_alone_unless_asked(offline: bool, online: bool, probes: Seq<Result<(), String>>)
    ensures
        offline || !online ==> network_view(offline, online, probes).status == Status::Skipped,
        offline ==> network_view(offline, online, probes).detail
            == "skipped: this configuration sets `network.offline = true`"@,
{
}

/// With the write probe off, no storage check can fail: each only reports
/// what it saw, as skipped.
pub proof fn without_the_probe_storage_never_fails(l: LoadedView, online: bool, f: Findings)
    requires
        f.config_dir is Seen && f.data_dir is Seen && f.cache_dir is Seen,
    ensures
        forall|i: int| 4 <= i < 7 ==> (#[trigger] run_checks(l, online, f)[i]).status == Status::Skipped,
{
    let c = run_checks(l, online, f);
    assert forall|i: int| 4 <= i < 7 implies (#[trigger] c[i]).status == Status::Skipped by {
        assert(c[i] == storage_views(l, f.config_dir, f.data_dir, f.cache_dir)[i - 4]);
    }
}

} // verus!
