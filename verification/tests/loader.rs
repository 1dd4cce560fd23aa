use chiploom_core::config::{
    ConfigPatch, Config, LogFormat, LogLevel, Loaded, Loader, SourceKind, SourceStatus,
    ENV_CONFIG_DIR, ENV_CONFIG_FILE,
};
use chiploom_core::error::IoErrorKind;
use chiploom_core::paths::Paths;
use chiploom_core::{ConfigError, Error, ExitCode, IoFailure};

const CWD: &str = "/tmp/t/work/firmware/src";
const PROJECT: &str = "/tmp/t/work";

fn loader() -> Loader {
    let paths = Paths::new(chiploom_core::paths::PathStyle::Posix, 
        "/tmp/t/home/config".to_owned(),
        "/tmp/t/home/data".to_owned(),
        "/tmp/t/home/cache".to_owned(),
    );
    Loader::new(CWD.to_owned(), paths)
}

fn env(pairs: &[(&str, &str)]) -> Vec<(String, String)> {
    pairs.iter().map(|(k, v)| ((*k).to_owned(), (*v).to_owned())).collect()
}

fn text(s: &str) -> Option<Result<String, IoFailure>> {
    Some(Ok(s.to_owned()))
}

fn project(s: &str) -> Option<(String, Result<String, IoFailure>)> {
    Some((PROJECT.to_owned(), Ok(s.to_owned())))
}

fn status_of(loaded: &Loaded, kind: SourceKind) -> SourceStatus {
    loaded.sources.iter().find(|s| s.kind == kind).expect("source recorded").status
}

#[test]
fn a_bare_machine_loads_the_defaults() {
    let loaded = loader().load(None, None).expect("load");
    assert_eq!(loaded.config, Config::default());
    assert!(loaded.warnings.is_empty());
    assert!(loaded.paths.project_root().is_none());
    assert_eq!(status_of(&loaded, SourceKind::GlobalFile), SourceStatus::Missing);
    assert_eq!(loaded.sources.len(), 5);
}

#[test]
fn the_loader_asks_for_the_files_it_needs() {
    let l = loader();
    assert_eq!(l.user_file().as_deref(), Some("/tmp/t/home/config/config.toml"));
    assert_eq!(l.project_search_start().as_deref(), Some(CWD));
    let l = loader().skip_global(true).skip_project(true);
    assert_eq!(l.user_file(), None);
    assert_eq!(l.project_search_start(), None);
    let l = loader().with_explicit_file(Some("/ci.toml".to_owned()));
    assert_eq!(l.user_file().as_deref(), Some("/ci.toml"));
    assert_eq!(l.project_search_start(), None, "a named file replaces discovery");
}

#[test]
fn an_explicit_file_is_not_merged_with_a_discovered_project() {
    let loaded = loader()
        .with_explicit_file(Some("/tmp/t/ci.toml".to_owned()))
        .load(text("[network]\nretries = 4\n"), project("[project]\nname = \"p\"\n"))
        .expect("load");
    assert_eq!(loaded.config.project.name, None);
    assert_eq!(loaded.config.network.retries, 4);
    assert_eq!(status_of(&loaded, SourceKind::ProjectFile), SourceStatus::Skipped);
    assert!(loaded.paths.project_root().is_none());
    let loaded = loader()
        .with_env(env(&[(ENV_CONFIG_FILE, "/tmp/t/ci.toml")]))
        .load(text(""), project("[project]\nname = \"p\"\n"))
        .expect("load");
    assert_eq!(loaded.config.project.name, None);
    assert_eq!(status_of(&loaded, SourceKind::ProjectFile), SourceStatus::Skipped);
}

#[test]
fn the_project_file_overrides_the_global_file() {
    let loaded = loader()
        .load(
            text("[log]\nlevel = \"warn\"\nformat = \"json\"\n"),
            project("[project]\nname = \"blinky\"\n[log]\nlevel = \"debug\"\n"),
        )
        .expect("load");
    assert_eq!(loaded.config.log.level, LogLevel::Debug);
    assert_eq!(loaded.config.log.format, LogFormat::Json);
    assert_eq!(loaded.config.project.name.as_deref(), Some("blinky"));
    assert_eq!(loaded.paths.project_root(), Some(PROJECT));
}

#[test]
fn the_environment_overrides_files_and_flags_override_the_environment() {
    let vars = env(&[("CHIPLOOM_LOG_LEVEL", "debug")]);
    let loaded = loader().with_env(vars.clone()).load(text("[log]\nlevel = \"warn\"\n"), None).expect("load");
    assert_eq!(loaded.config.log.level, LogLevel::Debug);

    let mut overrides = ConfigPatch::new();
    overrides.log.level = Some(LogLevel::Trace);
    let loaded = loader()
        .with_env(vars)
        .with_overrides(overrides)
        .load(text("[log]\nlevel = \"warn\"\n"), None)
        .expect("load");
    assert_eq!(loaded.config.log.level, LogLevel::Trace);
}

#[test]
fn skip_global_isolates_a_run_from_the_machine() {
    // The caller does not read a skipped file; even if it did, it is ignored.
    let loaded = loader().skip_global(true).load(text("[log]\nlevel = \"trace\"\n"), None).expect("load");
    assert_eq!(loaded.config.log.level, LogLevel::Info);
    assert_eq!(status_of(&loaded, SourceKind::GlobalFile), SourceStatus::Skipped);
}

#[test]
fn an_explicit_file_replaces_discovery_and_must_exist() {
    let loaded = loader()
        .with_explicit_file(Some("/tmp/t/ci.toml".to_owned()))
        .load(text("[network]\noffline = true\n"), None)
        .expect("load");
    assert!(loaded.config.network.offline);
    assert_eq!(loaded.config.log.level, LogLevel::Info);
    assert!(loaded.sources.iter().all(|source| source.kind != SourceKind::GlobalFile));

    let err = loader()
        .with_explicit_file(Some("/tmp/t/absent.toml".to_owned()))
        .load(None, None)
        .expect_err("a file the user named must exist");
    assert_eq!(err.exit_code(), ExitCode::Config);
}

#[test]
fn the_config_dir_override_relocates_the_global_file() {
    let elsewhere = "/tmp/t/work/firmware/src/ci-config";
    let l = loader().with_env(env(&[(ENV_CONFIG_DIR, elsewhere)]));
    assert_eq!(l.user_file().as_deref(), Some("/tmp/t/work/firmware/src/ci-config/config.toml"));
    let loaded = l.load(text("[network]\nretries = 11\n"), None).expect("load");
    assert_eq!(loaded.config.network.retries, 11);
    assert_eq!(loaded.paths.config_dir(), elsewhere);
    let global = loaded.sources.iter().find(|s| s.kind == SourceKind::GlobalFile).expect("global recorded");
    assert_eq!(global.path.as_deref(), Some("/tmp/t/work/firmware/src/ci-config/config.toml"));
}

#[test]
fn chiploom_config_env_var_behaves_like_the_flag() {
    let l = loader().with_env(env(&[(ENV_CONFIG_FILE, "/tmp/t/from-env.toml")]));
    assert_eq!(l.user_file().as_deref(), Some("/tmp/t/from-env.toml"));
    let loaded = l.load(text("[network]\nretries = 9\n"), None).expect("load");
    assert_eq!(loaded.config.network.retries, 9);
}

#[test]
fn an_unparsable_environment_variable_stops_the_load() {
    let err = loader()
        .with_env(env(&[("CHIPLOOM_OFFLINE", "yse")]))
        .load(None, None)
        .expect_err("typo must not be ignored");
    let message = err.message();
    assert!(message.contains("CHIPLOOM_OFFLINE"), "{message}");
    assert_eq!(err.exit_code(), ExitCode::Config);
}

#[test]
fn environment_booleans_accept_the_usual_spellings() {
    for raw in ["1", "true", "TRUE", "yes", "on"] {
        let loaded = loader().with_env(env(&[("CHIPLOOM_OFFLINE", raw)])).load(None, None).expect("load");
        assert!(loaded.config.network.offline, "`{raw}` should mean offline");
    }
    for raw in ["0", "false", "no", "off", ""] {
        let loaded = loader().with_env(env(&[("CHIPLOOM_OFFLINE", raw)])).load(None, None).expect("load");
        assert!(!loaded.config.network.offline, "`{raw}` should mean online");
    }
}

#[test]
fn environment_numbers_must_be_whole_and_in_range() {
    let loaded = loader()
        .with_env(env(&[("CHIPLOOM_NETWORK_TIMEOUT", " +90 "), ("CHIPLOOM_NETWORK_RETRIES", "0")]))
        .load(None, None)
        .expect("load");
    assert_eq!(loaded.config.network.timeout_secs, 90);
    assert_eq!(loaded.config.network.retries, 0);
    for raw in ["-1", "1.5", "", "+", "4294967296"] {
        let err = loader()
            .with_env(env(&[("CHIPLOOM_NETWORK_RETRIES", raw)]))
            .load(None, None)
            .expect_err("not a retry count");
        assert!(err.message().contains("is not a non-negative whole number"), "{}", err.message());
    }
    let err = loader()
        .with_env(env(&[("CHIPLOOM_NETWORK_TIMEOUT", "0")]))
        .load(None, None)
        .expect_err("zero timeout");
    assert!(err.message().contains("network.timeout_secs"), "{}", err.message());
}

#[test]
fn the_last_capture_of_a_variable_counts() {
    let loaded = loader()
        .with_env(env(&[("CHIPLOOM_LOG_LEVEL", "trace"), ("CHIPLOOM_LOG_LEVEL", "error")]))
        .load(None, None)
        .expect("load");
    assert_eq!(loaded.config.log.level, LogLevel::Error);
}

#[test]
fn unknown_keys_become_warnings_and_name_their_file() {
    let loaded = loader().load(text("[log]\nlvl = \"debug\"\n"), None).expect("load");
    assert_eq!(loaded.warnings.len(), 1);
    let warning = &loaded.warnings[0];
    assert_eq!(warning.code, "config.unknown_key");
    assert!(warning.message.contains("log.lvl"), "{}", warning.message);
    assert!(warning.message.contains("config.toml"), "{}", warning.message);
}

#[test]
fn an_invalid_file_stops_the_load_and_names_it() {
    let err = loader().load(text("[log\nlevel = \"debug\"\n"), None).expect_err("broken TOML must fail");
    assert!(err.message().contains("config.toml"), "{}", err.message());
    assert_eq!(err.exit_code(), ExitCode::Config);
}

#[test]
fn an_unreadable_file_is_a_configuration_error_naming_it() {
    let failure = IoFailure { kind: IoErrorKind::PermissionDenied, message: "denied".to_owned() };
    let err = loader().load(Some(Err(failure)), None).expect_err("unreadable");
    match &err {
        Error::Config(ConfigError::Unreadable { path, source }) => {
            assert_eq!(path, "/tmp/t/home/config/config.toml");
            assert_eq!(source.message, "denied");
        }
        other => panic!("unexpected {other:?}"),
    }
    assert_eq!(err.exit_code(), ExitCode::Config);
    assert_eq!(
        err.message(),
        "configuration file `/tmp/t/home/config/config.toml` could not be read: denied"
    );
    assert!(err.hint().is_some());
}

#[test]
fn relative_path_overrides_anchor_to_the_project_root() {
    let loaded = loader().load(None, project("[paths]\ndata_dir = \"vendor/toolchains\"\n")).expect("load");
    assert_eq!(loaded.paths.data_dir(), "/tmp/t/work/vendor/toolchains");
    // Without a project they anchor to the working directory.
    let loaded = loader().load(text("[paths]\ncache_dir = \"c\"\n"), None).expect("load");
    assert_eq!(loaded.paths.cache_dir(), "/tmp/t/work/firmware/src/c");
}

#[test]
fn absolute_path_overrides_are_left_alone() {
    let loaded = loader()
        .with_env(env(&[("CHIPLOOM_DATA_DIR", "/opt/chiploom/data")]))
        .load(None, None)
        .expect("load");
    assert_eq!(loaded.paths.data_dir(), "/opt/chiploom/data");

    // The same on Windows, where absolute means a drive and a root.
    let windows = Paths::new(
        chiploom_core::paths::PathStyle::Windows,
        r"C:\Users\t\AppData\Roaming\chiploom".to_owned(),
        r"C:\Users\t\AppData\Roaming\chiploom\data".to_owned(),
        r"C:\Users\t\AppData\Local\chiploom\cache".to_owned(),
    );
    let loaded = Loader::new(r"C:\work\firmware".to_owned(), windows.clone())
        .with_env(env(&[("CHIPLOOM_DATA_DIR", r"C:\chiploom\data"), ("CHIPLOOM_CACHE_DIR", r"cache\here")]))
        .load(None, None)
        .expect("load");
    assert_eq!(loaded.paths.data_dir(), r"C:\chiploom\data");
    assert_eq!(loaded.paths.cache_dir(), r"C:\work\firmware\cache\here");
    // A rooted path without a drive is relative to the working directory's drive.
    let loaded = Loader::new(r"D:\work".to_owned(), windows)
        .with_env(env(&[("CHIPLOOM_DATA_DIR", r"\chiploom\data")]))
        .load(None, None)
        .expect("load");
    assert_eq!(loaded.paths.data_dir(), r"D:\chiploom\data");
}

#[test]
fn an_empty_file_is_reported_as_empty() {
    let loaded = loader().load(text("  \n\n"), project("[log]\nlevel = \"debug\"\n")).expect("load");
    assert_eq!(status_of(&loaded, SourceKind::GlobalFile), SourceStatus::Empty);
    assert_eq!(status_of(&loaded, SourceKind::ProjectFile), SourceStatus::Applied);
    assert_eq!(status_of(&loaded, SourceKind::Environment), SourceStatus::Empty);
    assert_eq!(status_of(&loaded, SourceKind::CommandLine), SourceStatus::Empty);
}
