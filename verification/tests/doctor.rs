use chiploom_core::config::{Loaded, Loader};
use chiploom_core::doctor::checks::{build_provenance, host_platform, host_resources, vscode};
use chiploom_core::doctor::{run, Findings, HostFacts, Options, Report, Status, StorageFinding};
use chiploom_core::error::IoErrorKind;
use chiploom_core::paths::Paths;
use chiploom_core::{build_info, Error, ExitCode, IoFailure, VERSION};

fn loaded(project_file: Option<&str>) -> Loaded {
    let paths = Paths::new(chiploom_core::paths::PathStyle::Posix, "/tmp/d/config".to_owned(), "/tmp/d/data".to_owned(), "/tmp/d/cache".to_owned());
    let project = project_file.map(|text| ("/tmp/d".to_owned(), Ok(text.to_owned())));
    Loader::new("/tmp/d".to_owned(), paths).load(None, project).expect("load config")
}

fn host() -> HostFacts {
    HostFacts {
        os_name: Some("Linux".to_owned()),
        os_version: Some("6".to_owned()),
        kernel: Some("6.1".to_owned()),
        os: "linux".to_owned(),
        arch: "x86_64".to_owned(),
        parallelism: 8,
        total_memory: 16 * 1024 * 1024 * 1024,
    }
}

fn findings(probed: bool, data: Result<(), Error>, reachability: Vec<Result<(), String>>) -> Findings {
    let seen = |exists| StorageFinding::Seen(exists);
    Findings {
        build: chiploom_core::build_info("unknown", false, "unknown", "unknown", "release", "unknown", "unknown"),
        host: host(),
        config_dir: if probed { StorageFinding::Probed(Ok(())) } else { seen(true) },
        data_dir: if probed { StorageFinding::Probed(data) } else { seen(false) },
        cache_dir: if probed { StorageFinding::Probed(Ok(())) } else { seen(true) },
        git: Some("/usr/bin/git".to_owned()),
        launchers: vec![None, Some("/usr/bin/code-insiders".to_owned()), None],
        reachability,
        duration_ms: 3,
    }
}

fn healthy(loaded: &Loaded, options: Options) -> Report {
    run(loaded, options, findings(options.write_probe, Ok(()), Vec::new()))
}

#[test]
fn the_build_check_reports_this_binarys_version() {
    let check = build_provenance(&build_info("unknown", false, "unknown", "unknown", "release", "unknown", "unknown"));
    assert!(check.detail.contains(VERSION), "{}", check.detail);
}

#[test]
fn a_build_from_uncommitted_changes_is_warned_about() {
    let loaded = loaded(None);
    let mut f = findings(true, Ok(()), Vec::new());
    f.build = build_info("abc123def456", true, "x86_64-unknown-linux-gnu", "x86_64-unknown-linux-gnu", "debug", "rustc 1.85.0", "unknown");
    let report = run(&loaded, Options::default(), f);
    let check = report.check("core.build").expect("build check");
    assert_eq!(check.status, Status::Warn);
    assert!(check.hint.is_some());
    assert!(check.detail.contains("commit abc123def456"), "{}", check.detail);
    assert_eq!(report.build.commit, "abc123def456");
}

#[test]
fn report_status_is_the_worst_check_status() {
    assert!(Status::Error > Status::Warn);
    assert!(Status::Warn > Status::Pass);
    assert!(Status::Pass > Status::Skipped);
    assert!(Status::Error.is_worse_than(Status::Warn));
    assert!(!Status::Skipped.is_worse_than(Status::Pass));
}

#[test]
fn a_healthy_machine_reports_no_errors() {
    let report = healthy(&loaded(None), Options::default());
    assert!(!report.has_errors(), "unexpected failures: {:#?}", report.checks);
    assert_eq!(report.exit_code(), ExitCode::Success);
    for check in &report.checks {
        assert!(!check.id.is_empty());
        assert!(!check.detail.is_empty(), "`{}` reported nothing", check.id);
        if matches!(check.status, Status::Warn | Status::Error) {
            assert!(check.hint.is_some(), "`{}` needs a hint", check.id);
        }
    }
    assert_ne!(report.status(), Status::Error);
}

#[test]
fn the_report_covers_the_documented_check_ids() {
    let report = healthy(&loaded(None), Options::default());
    for id in [
        "core.build",
        "host.platform",
        "host.resources",
        "config.layers",
        "paths.config",
        "paths.data",
        "paths.cache",
        "project.root",
        "tools.git",
        "tools.vscode",
        "network.reachability",
    ] {
        assert!(report.check(id).is_some(), "missing check `{id}`");
    }
    assert!(report.check("nope").is_none());
}

#[test]
fn network_checks_are_skipped_unless_asked_for() {
    let report = healthy(&loaded(None), Options::default());
    let network = report.check("network.reachability").expect("network check");
    assert_eq!(network.status, Status::Skipped);
}

#[test]
fn offline_configuration_keeps_network_checks_skipped_even_when_asked() {
    let loaded = loaded(Some("[network]\noffline = true\n"));
    let options = Options { online: true, write_probe: true };
    assert!(!chiploom_core::doctor::checks::wants_network_probe(&loaded, options.online));
    let report = run(&loaded, options, findings(true, Ok(()), Vec::new()));
    let network = report.check("network.reachability").expect("network check");
    assert_eq!(network.status, Status::Skipped);
    assert!(network.detail.contains("offline"), "{}", network.detail);
}

#[test]
fn reachability_decides_the_network_verdict() {
    let loaded = loaded(None);
    let options = Options { online: true, write_probe: true };
    let all = run(&loaded, options, findings(true, Ok(()), vec![Ok(()), Ok(())]));
    let check = all.check("network.reachability").expect("network");
    assert_eq!(check.status, Status::Pass);
    assert_eq!(check.detail, "reached github.com:443, crates.io:443");
    let some = run(&loaded, options, findings(true, Ok(()), vec![Ok(()), Err("timed out".to_owned())]));
    let check = some.check("network.reachability").expect("network");
    assert_eq!(check.status, Status::Warn);
    assert_eq!(check.detail, "reached github.com:443; could not reach crates.io:443 (timed out)");
    let none = run(&loaded, options, findings(true, Ok(()), vec![Err("a".to_owned()), Err("b".to_owned())]));
    let check = none.check("network.reachability").expect("network");
    assert_eq!(check.status, Status::Error);
    assert!(check.hint.is_some());
}

#[test]
fn unwritable_storage_is_an_error_with_a_hint() {
    let failure = Error::io(
        "create directory",
        "/tmp/d/data",
        IoFailure { kind: IoErrorKind::AlreadyExists, message: "File exists".to_owned() },
    );
    let report = run(&loaded(None), Options::default(), findings(true, Err(failure), Vec::new()));
    let data = report.check("paths.data").expect("data check");
    assert_eq!(data.status, Status::Error, "{data:#?}");
    assert!(data.hint.as_deref().expect("hint").contains("CHIPLOOM_DATA_DIR"));
    assert!(report.has_errors());
    assert_eq!(report.exit_code(), ExitCode::DiagnosticsFailed);
}

#[test]
fn the_write_probe_can_be_turned_off() {
    let options = Options { online: false, write_probe: false };
    let report = run(&loaded(None), options, findings(false, Ok(()), Vec::new()));
    let data = report.check("paths.data").expect("data check");
    assert_ne!(data.status, Status::Error, "{data:#?}");
    assert_eq!(data.detail, "/tmp/d/data -- does not exist yet (not probed)");
}

#[test]
fn configuration_warnings_surface_in_the_report() {
    let report = healthy(&loaded(Some("[log]\nlvl = \"debug\"\n")), Options::default());
    let config = report.check("config.layers").expect("config check");
    assert_eq!(config.status, Status::Warn);
    assert!(config.detail.contains("log.lvl"), "{}", config.detail);
    assert_eq!(report.exit_code(), ExitCode::Success);
    assert!(report.has_warnings());
}

#[test]
fn summary_counts_add_up_to_the_check_count() {
    let report = healthy(&loaded(None), Options::default());
    let summary = report.summary();
    assert_eq!(summary.ok + summary.warn + summary.error + summary.skipped, report.checks.len());
}

#[test]
fn platform_and_resource_checks_never_fail() {
    assert_ne!(host_platform(&host()).status, Status::Error);
    assert_ne!(host_resources(0, 0).status, Status::Error);
    assert_ne!(host_resources(4, 512 * 1024 * 1024).status, Status::Error);
}

#[test]
fn the_platform_check_names_the_architecture() {
    let check = host_platform(&host());
    assert!(check.detail.contains("x86_64"), "{}", check.detail);
    assert!(check.detail.contains("linux"), "{}", check.detail);
    assert_eq!(check.detail, "Linux 6 (kernel 6.1), linux on x86_64");
}

#[test]
fn scarce_resources_warn_with_a_hint() {
    let low = host_resources(4, 512 * 1024 * 1024);
    assert_eq!(low.status, Status::Warn);
    assert_eq!(low.detail, "4 usable CPU threads, 512 MiB RAM");
    let unknown = host_resources(0, 0);
    assert_eq!(unknown.status, Status::Warn);
    assert_eq!(unknown.detail, "0 usable CPU threads; memory size unavailable");
    assert!(unknown.hint.is_some());
}

#[test]
fn the_vscode_check_never_errors() {
    assert_ne!(vscode(&vec![None, None, None]).status, Status::Error);
    let found = vscode(&vec![None, Some("/bin/codium".to_owned()), Some("/bin/x".to_owned())]);
    assert_eq!(found.detail, "`code-insiders` found at /bin/codium");
}

#[test]
fn the_project_check_names_the_project() {
    let report = healthy(&loaded(Some("[project]\nname = \"blinky\"\n")), Options::default());
    assert_eq!(report.check("project.root").expect("project").detail, "`blinky` at /tmp/d");
    let report = healthy(&loaded(Some("")), Options::default());
    assert_eq!(report.check("project.root").expect("project").detail, "`d` at /tmp/d");
    let report = healthy(&loaded(None), Options::default());
    assert_eq!(report.check("project.root").expect("project").status, Status::Skipped);
}
