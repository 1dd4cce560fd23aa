use chiploom_core::{build_info, BuildInfo, PROTOCOL_VERSION, VERSION};

/// What a release build stamped by its packager records.
fn stamped() -> BuildInfo {
    build_info("unknown", false, "unknown", "unknown", "release", "unknown", "2026-03-01T12:30:00Z")
}

#[test]
fn build_info_is_populated() {
    let info = stamped();
    assert_eq!(info.version, VERSION);
    assert_eq!(info.protocol_version, PROTOCOL_VERSION);
    assert!(!info.version.is_empty());
    assert!(!info.target.is_empty());
    assert!(!info.built_at.is_empty());
    assert!(info.profile == "debug" || info.profile == "release", "{}", info.profile);
}

#[test]
fn the_version_line_starts_with_the_binary_name() {
    let line = stamped().short_line();
    assert!(line.starts_with("chiploom "), "{line}");
    assert!(line.contains(VERSION), "{line}");
}

#[test]
fn the_bare_version_line_omits_the_binary_name() {
    let line = stamped().version_line();
    assert!(!line.contains("chiploom"), "{line}");
    assert!(line.starts_with(VERSION), "{line}");
}

#[test]
fn the_detailed_report_covers_every_field() {
    let detailed = stamped().detailed();
    let keys: Vec<_> = detailed.iter().map(|(key, _)| *key).collect();
    for expected in ["version", "protocol", "commit", "target", "profile", "rustc", "built"] {
        assert!(keys.contains(&expected), "missing `{expected}` in {keys:?}");
    }
}

#[test]
fn the_build_timestamp_is_rfc3339_utc() {
    let built = stamped().built_at;
    assert_eq!(built.len(), 20, "unexpected timestamp shape: {built}");
    assert!(built.ends_with('Z'), "{built}");
    assert_eq!(&built[4..5], "-", "{built}");
    assert_eq!(&built[10..11], "T", "{built}");
    assert_eq!(built, "2026-03-01T12:30:00Z");
}

fn sample(commit: &'static str, dirty: bool) -> BuildInfo {
    BuildInfo {
        version: "1.2.3",
        protocol_version: 4,
        commit,
        dirty,
        target: "t",
        host: "h",
        profile: "debug",
        rustc: "r",
        built_at: "2000-01-01T00:00:00Z",
    }
}

#[test]
fn a_known_commit_and_a_dirty_tree_show_in_the_version_line() {
    assert_eq!(sample("unknown", true).version_line(), "1.2.3");
    assert_eq!(sample("abc123", false).version_line(), "1.2.3 (abc123)");
    assert_eq!(sample("abc123", true).version_line(), "1.2.3 (abc123-dirty)");
    assert_eq!(sample("abc123", true).short_line(), "chiploom 1.2.3 (abc123-dirty)");
}

#[test]
fn the_detailed_report_lists_values_in_order() {
    let rows = sample("abc", true).detailed();
    let expected = [
        ("version", "1.2.3"),
        ("protocol", "4"),
        ("commit", "abc (dirty)"),
        ("target", "t"),
        ("host", "h"),
        ("profile", "debug"),
        ("rustc", "r"),
        ("built", "2000-01-01T00:00:00Z"),
    ];
    assert_eq!(rows.len(), expected.len());
    for ((key, value), (k, v)) in rows.iter().zip(expected) {
        assert_eq!(*key, k);
        assert_eq!(value, v);
    }
    assert_eq!(stamped().protocol_version, PROTOCOL_VERSION);
}

#[test]
fn what_the_build_could_not_read_is_reported_as_unknown() {
    let info = build_info("unknown", false, "unknown", "unknown", "debug", "unknown", "unknown");
    assert_eq!(info.version_line(), VERSION, "no commit is shown when none is known");
    let rows = info.detailed();
    assert!(rows.iter().any(|(key, value)| *key == "built" && value == "unknown"), "{rows:?}");
    assert!(rows.iter().any(|(key, value)| *key == "profile" && value == "debug"), "{rows:?}");
}
