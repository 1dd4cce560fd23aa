use chiploom_core::config::{Log, LogFormat, LogLevel};
use chiploom_core::logging::{log_directory, stderr_layout, Layout};
use chiploom_core::paths::{
    absolutize, ancestors_of, file_name_of, find_project_root, is_absolute_path, join_path,
    parent_of, PathStyle, Paths, PROJECT_FILE,
};
use chiploom_core::paths::PathStyle::{Posix, Windows};
use chiploom_core::Error;

#[test]
fn derived_directories_hang_off_their_parents() {
    let paths = Paths::new(Posix, "/cfg".to_owned(), "/data".to_owned(), "/cache".to_owned());
    assert_eq!(paths.global_config_file(), "/cfg/config.toml");
    assert_eq!(paths.toolchains_dir(), "/data/toolchains");
    assert_eq!(paths.target_packs_dir(), "/data/targets");
    assert_eq!(paths.downloads_dir(), "/cache/downloads");
    assert_eq!(paths.log_dir(), "/cache/logs");
    assert!(paths.project_config_file().is_none());
}

#[test]
fn project_state_hangs_off_the_root() {
    let paths = Paths::new(Posix, "/c".to_owned(), "/d".to_owned(), "/k".to_owned())
        .with_project_root(Some("/work/blinky".to_owned()));
    assert_eq!(paths.project_root(), Some("/work/blinky"));
    assert_eq!(paths.project_config_file().as_deref(), Some("/work/blinky/chiploom.toml"));
    assert_eq!(paths.project_state_dir().as_deref(), Some("/work/blinky/.chiploom"));
    assert_eq!(PROJECT_FILE, "chiploom.toml");
}

#[test]
fn joining_handles_separators_and_absolute_names() {
    assert_eq!(join_path(Posix, "/a", "b"), "/a/b");
    assert_eq!(join_path(Posix, "/a/", "b"), "/a/b");
    assert_eq!(join_path(Posix, "/a", "/b"), "/b");
    assert_eq!(join_path(Posix, "", "b"), "b");
    assert_eq!(absolutize(Posix, "/project", "vendor/toolchains"), "/project/vendor/toolchains");
    assert_eq!(absolutize(Posix, "/project", "/opt/chiploom/data"), "/opt/chiploom/data");
}

#[test]
fn parents_and_ancestors_walk_up_to_the_root() {
    assert_eq!(parent_of(Posix, "/a/b/c").as_deref(), Some("/a/b"));
    assert_eq!(parent_of(Posix, "/a/b/").as_deref(), Some("/a"));
    assert_eq!(parent_of(Posix, "/a").as_deref(), Some("/"));
    assert_eq!(parent_of(Posix, "/"), None);
    assert_eq!(parent_of(Posix, "a").as_deref(), Some(""));
    assert_eq!(ancestors_of(Posix, "/work/firmware/src"), vec!["/work/firmware/src", "/work/firmware", "/work", "/"]);
    assert_eq!(file_name_of(Posix, "/work/blinky/").as_deref(), Some("blinky"));
    assert_eq!(file_name_of(Posix, "/"), None);
    assert_eq!(file_name_of(Posix, "/a/.."), None);
}

#[test]
fn project_discovery_prefers_the_closest_root() {
    // Ancestors of the start: itself, its parent, and so on. Both the inner and
    // the outer directory hold a project file; the inner one wins.
    let start = "/tmp/outer/vendor/blinky";
    let flags = vec![true, false, true, false, false];
    assert_eq!(find_project_root(Posix, start, &flags).as_deref(), Some("/tmp/outer/vendor/blinky"));
    let flags = vec![false, false, true, false, false];
    assert_eq!(find_project_root(Posix, start, &flags).as_deref(), Some("/tmp/outer"));
}

#[test]
fn no_project_is_not_an_error() {
    let flags = vec![false, false, false];
    assert_eq!(find_project_root(Posix, "/a/b", &flags), None);
}

#[test]
fn all_three_overrides_never_ask_the_platform() {
    assert!(!Paths::needs_platform(&Some("/c".to_owned()), &Some("/d".to_owned()), &Some("/k".to_owned())));
    let paths = Paths::resolve(Posix, Some("/c".to_owned()), Some("/d".to_owned()), Some("/k".to_owned()), None)
        .expect("no platform needed");
    assert_eq!(paths.config_dir(), "/c");
    assert_eq!(paths.data_dir(), "/d");
    assert_eq!(paths.cache_dir(), "/k");
}

#[test]
fn partial_overrides_without_a_home_name_the_missing_ones() {
    assert!(Paths::needs_platform(&Some("/c".to_owned()), &None, &Some("/k".to_owned())));
    let err = Paths::resolve(Posix, Some("/c".to_owned()), None, Some("/k".to_owned()), None).expect_err("no home");
    match err {
        Error::Environment(message) => {
            assert!(message.contains("CHIPLOOM_DATA_DIR"), "{message}");
            assert!(!message.contains("CHIPLOOM_CONFIG_DIR"), "{message}");
            assert!(!message.contains("CHIPLOOM_CACHE_DIR"), "{message}");
        }
        other => panic!("unexpected {other:?}"),
    }
}

#[test]
fn overrides_fill_in_over_the_platform() {
    let platform = Paths::new(Posix, "/home/c".to_owned(), "/home/d".to_owned(), "/home/k".to_owned());
    let paths = Paths::resolve(Posix, None, Some("/d".to_owned()), None, Some(platform)).expect("resolve");
    assert_eq!(paths.config_dir(), "/home/c");
    assert_eq!(paths.data_dir(), "/d");
    assert_eq!(paths.cache_dir(), "/home/k");
}

#[test]
fn project_discovery_finds_the_nearest_root() {
    // Started three levels below the root, which alone holds the project file.
    let start = "/tmp/x/firmware/src/drivers";
    let flags = vec![false, false, false, true, false, false];
    assert_eq!(ancestors_of(Posix, start).len(), flags.len());
    assert_eq!(find_project_root(Posix, start, &flags).as_deref(), Some("/tmp/x"));
}

#[test]
fn a_log_file_needs_its_directory() {
    assert_eq!(log_directory(Posix, "/var/log/chiploom/run.log").as_deref(), Some("/var/log/chiploom"));
    assert_eq!(log_directory(Posix, "nested/deeper/chiploom.log").as_deref(), Some("nested/deeper"));
    assert_eq!(log_directory(Posix, "run.log"), None);
}

#[test]
fn the_stderr_layout_follows_the_configuration() {
    let log = |format, timestamps| Log { level: LogLevel::Info, format, file: None, timestamps };
    assert_eq!(stderr_layout(&log(LogFormat::Json, false)), Layout::Json);
    assert_eq!(stderr_layout(&log(LogFormat::Pretty, true)), Layout::Pretty { timestamps: true });
    assert_eq!(stderr_layout(&log(LogFormat::Compact, false)), Layout::Compact { timestamps: false });
}

#[test]
fn windows_paths_follow_windows_rules() {
    // A drive with a root, or a share, is absolute; a root alone or a drive
    // alone is not.
    assert!(is_absolute_path(Windows, r"C:\chiploom\data"));
    assert!(is_absolute_path(Windows, "C:/chiploom/data"));
    assert!(is_absolute_path(Windows, r"\\server\share\data"));
    assert!(!is_absolute_path(Windows, r"\chiploom\data"));
    assert!(!is_absolute_path(Windows, "C:data"));
    assert!(!is_absolute_path(Windows, "vendor/toolchains"));
    // On POSIX a backslash is an ordinary character.
    assert!(is_absolute_path(Posix, "/opt/data"));
    assert!(!is_absolute_path(Posix, r"C:\chiploom\data"));

    assert_eq!(join_path(Windows, r"C:\work", "chiploom.toml"), r"C:\work\chiploom.toml");
    assert_eq!(join_path(Windows, r"C:\work\", "chiploom.toml"), r"C:\work\chiploom.toml");
    assert_eq!(join_path(Windows, "C:/work/", "chiploom.toml"), "C:/work/chiploom.toml");
    assert_eq!(join_path(Windows, "C:", "data"), "C:data");
    assert_eq!(join_path(Windows, r"C:\work", r"D:\data"), r"D:\data");
    assert_eq!(join_path(Windows, r"C:\work", r"\data"), r"C:\data");
    assert_eq!(join_path(Windows, r"C:\work", "D:data"), "D:data");
    assert_eq!(join_path(Windows, r"\\server\share\work", r"\data"), r"\\server\share\data");

    assert_eq!(parent_of(Windows, r"C:\work\blinky").as_deref(), Some(r"C:\work"));
    assert_eq!(parent_of(Windows, r"C:\work").as_deref(), Some(r"C:\"));
    assert_eq!(parent_of(Windows, r"C:\"), None);
    assert_eq!(parent_of(Windows, "C:blinky").as_deref(), Some("C:"));
    assert_eq!(parent_of(Windows, r"\\server\share\work").as_deref(), Some(r"\\server\share\"));
    assert_eq!(ancestors_of(Windows, r"C:\work\firmware"), vec![r"C:\work\firmware", r"C:\work", r"C:\"]);
    assert_eq!(
        ancestors_of(Windows, r"\\?\C:\work\blinky"),
        vec![r"\\?\C:\work\blinky", r"\\?\C:\work", r"\\?\C:\"]
    );
    assert_eq!(file_name_of(Windows, r"C:\work\blinky\").as_deref(), Some("blinky"));
    assert_eq!(file_name_of(Windows, r"C:\"), None);
    assert_eq!(log_directory(Windows, r"C:\logs\run.log").as_deref(), Some(r"C:\logs"));
}

#[test]
fn windows_derived_directories_use_backslashes() {
    let paths = Paths::new(Windows, r"C:\cfg".to_owned(), r"D:\data".to_owned(), r"C:\cache".to_owned())
        .with_project_root(Some(r"C:\work\blinky".to_owned()));
    assert_eq!(paths.global_config_file(), r"C:\cfg\config.toml");
    assert_eq!(paths.toolchains_dir(), r"D:\data\toolchains");
    assert_eq!(paths.log_dir(), r"C:\cache\logs");
    assert_eq!(paths.project_config_file().as_deref(), Some(r"C:\work\blinky\chiploom.toml"));
}
