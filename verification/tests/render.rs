use chiploom_core::cli::ColorChoice;
use chiploom_core::config::{Config, Loaded, Loader};
use chiploom_core::doctor::{run, Findings, HostFacts, Options, Report, Status, StorageFinding};
use chiploom_core::paths::Paths;
use chiploom_core::render::{
    config_check, config_path, config_show, doctor_report, format_duration, plural,
    strip_empty_tables, terminal_width, version, wrap, Palette,
};
use chiploom_core::build_info;

fn loaded(project_file: Option<&str>) -> Loaded {
    let paths = Paths::new(chiploom_core::paths::PathStyle::Posix, "/tmp/r/config".to_owned(), "/tmp/r/data".to_owned(), "/tmp/r/cache".to_owned());
    let project = project_file.map(|text| ("/tmp/r".to_owned(), Ok(text.to_owned())));
    Loader::new("/tmp/r".to_owned(), paths).load(None, project).expect("load")
}

/// The configuration serialised the way `config show` hands it over: one
/// table per section, unset values left out.
fn config_toml(config: &Config) -> String {
    let text = |s: &str| toml::Value::String(s.to_owned());
    let mut project = toml::Table::new();
    if let Some(name) = &config.project.name {
        project.insert("name".to_owned(), text(name));
    }
    let mut paths = toml::Table::new();
    if let Some(dir) = &config.paths.data_dir {
        paths.insert("data_dir".to_owned(), text(dir));
    }
    if let Some(dir) = &config.paths.cache_dir {
        paths.insert("cache_dir".to_owned(), text(dir));
    }
    let mut log = toml::Table::new();
    log.insert("level".to_owned(), text(config.log.level.as_filter_str()));
    log.insert("format".to_owned(), text(config.log.format.as_str()));
    if let Some(file) = &config.log.file {
        log.insert("file".to_owned(), text(file));
    }
    log.insert("timestamps".to_owned(), toml::Value::Boolean(config.log.timestamps));
    let mut network = toml::Table::new();
    network.insert("offline".to_owned(), toml::Value::Boolean(config.network.offline));
    network.insert("timeout_secs".to_owned(), toml::Value::Integer(config.network.timeout_secs as i64));
    network.insert("retries".to_owned(), toml::Value::Integer(i64::from(config.network.retries)));
    let mut root = toml::Table::new();
    root.insert("project".to_owned(), toml::Value::Table(project));
    root.insert("paths".to_owned(), toml::Value::Table(paths));
    root.insert("log".to_owned(), toml::Value::Table(log));
    root.insert("network".to_owned(), toml::Value::Table(network));
    toml::to_string_pretty(&root).expect("serialise")
}

fn report_for(loaded: &Loaded, data: Result<(), chiploom_core::Error>) -> Report {
    let findings = Findings {
        build: chiploom_core::build_info("unknown", false, "unknown", "unknown", "release", "unknown", "unknown"),
        host: HostFacts {
            os_name: None,
            os_version: None,
            kernel: None,
            os: "linux".to_owned(),
            arch: "aarch64".to_owned(),
            parallelism: 2,
            total_memory: 4 * 1024 * 1024 * 1024,
        },
        config_dir: StorageFinding::Probed(Ok(())),
        data_dir: StorageFinding::Probed(data),
        cache_dir: StorageFinding::Probed(Ok(())),
        git: Some("/usr/bin/git".to_owned()),
        launchers: vec![Some("/usr/bin/code".to_owned()), None, None],
        reachability: Vec::new(),
        duration_ms: 0,
    };
    run(loaded, Options::default(), findings)
}

fn render_doctor(loaded: &Loaded, data: Result<(), chiploom_core::Error>, strict: bool) -> String {
    doctor_report(&report_for(loaded, data), Palette::plain(), strict, 100)
}

#[test]
fn colour_is_emitted_when_asked_for() {
    let palette = Palette::resolve(ColorChoice::Always, false, true);
    assert!(palette.status(Status::Error).contains('\u{1b}'));
}

#[test]
fn no_color_disables_colour_on_a_terminal() {
    let palette = Palette::resolve(ColorChoice::Auto, true, true);
    assert!(!palette.status(Status::Pass).contains('\u{1b}'));

    let palette = Palette::resolve(ColorChoice::Auto, true, false);
    assert!(palette.status(Status::Pass).contains('\u{1b}'));
}

#[test]
fn a_pipe_gets_no_colour_by_default() {
    let palette = Palette::resolve(ColorChoice::Auto, false, false);
    assert!(!palette.status(Status::Pass).contains('\u{1b}'));
}

#[test]
fn markers_are_padded_and_coloured_by_severity() {
    assert_eq!(Palette::plain().status(Status::Pass), "ok  ");
    assert_eq!(Palette::plain().status(Status::Error), "fail");
    let colour = Palette::resolve(ColorChoice::Always, false, false);
    assert_eq!(colour.status(Status::Warn), "\u{1b}[33mwarn\u{1b}[0m");
    assert_eq!(colour.bold("x"), "\u{1b}[1mx\u{1b}[0m");
    assert!(!Palette::resolve(ColorChoice::Never, true, false).status(Status::Warn).contains('\u{1b}'));
}

#[test]
fn the_version_line_is_one_line_and_verbose_is_many() {
    let info = build_info("unknown", false, "unknown", "unknown", "release", "unknown", "unknown");
    let short = version(&info, false, Palette::plain());
    assert_eq!(short.lines().count(), 1, "{short}");
    assert!(short.starts_with("chiploom "), "{short}");

    let long = version(&info, true, Palette::plain());
    assert!(long.lines().count() >= 7, "{long}");
    assert!(long.contains("rustc"), "{long}");
    assert!(long.starts_with("version   0.1.0-pre.0\n"), "{long}");
}

#[test]
fn wrapping_breaks_on_spaces_and_respects_the_width() {
    let wrapped = wrap("the quick brown fox jumps over the lazy dog", 15);
    assert!(wrapped.iter().all(|line| line.chars().count() <= 15), "{wrapped:?}");
    assert_eq!(wrapped.join(" "), "the quick brown fox jumps over the lazy dog");
}

#[test]
fn wrapping_leaves_an_overlong_word_intact() {
    let wrapped = wrap("see /very/long/path/that/exceeds/the/width now", 10);
    assert!(wrapped.contains(&"/very/long/path/that/exceeds/the/width".to_owned()), "{wrapped:?}");
}

#[test]
fn wrapping_empty_text_yields_one_empty_line() {
    assert_eq!(wrap("", 10), vec![String::new()]);
    assert_eq!(wrap(" \t\n ", 10), vec![String::new()]);
}

#[test]
fn wrapping_collapses_runs_of_whitespace() {
    assert_eq!(wrap("a  b\tc\nd", 3), vec!["a b".to_owned(), "c d".to_owned()]);
}

#[test]
fn a_sub_millisecond_run_is_not_reported_as_zero() {
    assert_eq!(format_duration(0), "(under 1 ms)");
    assert_eq!(format_duration(1), "(1 ms)");
    assert_eq!(format_duration(1234), "(1234 ms)");
}

#[test]
fn plural_matches_english() {
    assert_eq!(plural(0), "s");
    assert_eq!(plural(1), "");
    assert_eq!(plural(2), "s");
}

#[test]
fn the_terminal_width_is_read_from_columns_and_bounded() {
    assert_eq!(terminal_width(None), 100);
    assert_eq!(terminal_width(Some(" 120 ")), 120);
    assert_eq!(terminal_width(Some("10")), 40);
    assert_eq!(terminal_width(Some("999")), 160);
    assert_eq!(terminal_width(Some("wide")), 100);
}

#[test]
fn a_healthy_doctor_report_says_ready_and_names_every_check() {
    let text = render_doctor(&loaded(None), Ok(()), false);
    assert!(text.contains("Chip Loom diagnostics"), "{text}");
    assert!(text.contains("Host platform"), "{text}");
    assert!(text.contains("Data directory"), "{text}");
    assert!(text.trim_end().ends_with("Ready."), "{text}");
    assert!(text.contains("passed,"), "{text}");
    assert!(text.contains("(under 1 ms)"), "{text}");
}

#[test]
fn a_failing_check_is_marked_and_its_hint_is_shown() {
    let failure = chiploom_core::Error::Internal("probe".to_owned());
    let text = render_doctor(&loaded(None), Err(failure), false);
    assert!(text.contains("fail"), "{text}");
    assert!(text.contains("CHIPLOOM_DATA_DIR"), "the hint must be rendered:\n{text}");
    assert!(text.contains("cannot run Chip Loom correctly"), "{text}");
}

#[test]
fn a_long_hint_is_wrapped_in_the_report() {
    let failure = chiploom_core::Error::Internal("probe".to_owned());
    let text = render_doctor(&loaded(None), Err(failure), false);
    let hint_lines: Vec<&str> = text
        .lines()
        .filter(|line| line.contains("Chip Loom stores") || line.contains("CHIPLOOM_DATA_DIR"))
        .collect();
    assert!(hint_lines.len() > 1, "the hint should be wrapped, got:\n{text}");
    for line in &hint_lines {
        assert!(line.chars().count() <= 160, "hint line not wrapped: {line}");
    }
}

#[test]
fn strict_mode_changes_the_verdict_for_warnings_only() {
    let loaded = loaded(Some("[log]\nlvl = \"debug\"\n"));
    assert!(render_doctor(&loaded, Ok(()), false).contains("safe to ignore"));
    assert!(render_doctor(&loaded, Ok(()), true).contains("--strict"));
}

#[test]
fn plain_output_contains_no_escape_sequences() {
    let text = render_doctor(&loaded(None), Ok(()), false);
    assert!(!text.contains('\u{1b}'), "plain palette leaked ANSI codes");
}

#[test]
fn stripping_empty_tables_leaves_populated_ones_untouched() {
    let input = "[a]\n\n[b]\nkey = 1\n\n[c]\n";
    let stripped = strip_empty_tables(input);
    assert!(!stripped.contains("[a]"), "{stripped}");
    assert!(!stripped.contains("[c]"), "{stripped}");
    assert!(stripped.contains("[b]"), "{stripped}");
    assert!(stripped.contains("key = 1"), "{stripped}");
    assert_eq!(stripped, "[b]\nkey = 1\n\n");
}

#[test]
fn config_show_emits_toml_that_parses_back() {
    let loaded = loaded(Some("[project]\nname = \"blinky\"\n[log]\nlevel = \"debug\"\n"));
    let text = config_show(&config_toml(&loaded.config), &loaded, false, Palette::plain());

    assert!(text.contains("name = \"blinky\""), "{text}");
    assert!(text.contains("level = \"debug\""), "{text}");
    let reparsed: toml::Value = toml::from_str(&text).expect("output must be valid TOML");
    assert_eq!(reparsed["project"]["name"].as_str(), Some("blinky"));
    assert!(reparsed["network"]["timeout_secs"].is_integer(), "{text}");
}

#[test]
fn config_show_omits_sections_that_have_no_values() {
    let loaded = loaded(None);
    let text = config_show(&config_toml(&loaded.config), &loaded, false, Palette::plain());

    assert!(!text.contains("[project]"), "{text}");
    assert!(!text.contains("[paths]"), "{text}");
    assert!(text.contains("[log]"), "{text}");
    assert!(text.contains("[network]"), "{text}");
    toml::from_str::<toml::Value>(&text).expect("still valid TOML");
}

#[test]
fn config_show_can_append_provenance_as_toml_comments() {
    let loaded = loaded(None);
    let text = config_show("[log]\nlevel = \"info\"\n\n[project]\n", &loaded, true, Palette::plain());
    assert!(text.starts_with("[log]\nlevel = \"info\"\n"), "{text}");
    assert!(text.contains("# layers"), "{text}");
    assert!(text.contains("built-in defaults"), "{text}");
    assert!(!text.contains("[project]"), "{text}");
    let after = text.split("# layers").nth(1).expect("layers");
    for line in after.lines().skip(1) {
        assert!(line.starts_with('#'), "{line}");
    }
}

#[test]
fn config_path_lists_layers_and_storage() {
    let text = config_path(&loaded(None), Palette::plain());
    assert!(text.contains("global file"), "{text}");
    assert!(text.contains("not present"), "{text}");
    assert!(text.contains("toolchains"), "{text}");
    assert!(text.contains("(none)"), "no project root should be shown as none:\n{text}");
    assert!(text.contains("  target packs  /tmp/r/data/targets\n"), "{text}");
}

#[test]
fn config_check_reports_unknown_keys() {
    let text = config_check(&loaded(Some("[network]\nproxy = \"http://example.invalid\"\n")), Palette::plain());
    assert!(text.contains("network.proxy"), "{text}");
    assert!(text.contains("1 warning found"), "{text}");
    assert!(text.starts_with("ok   project file: /tmp/r/chiploom.toml [applied]\n"), "{text}");
}

#[test]
fn config_check_on_a_clean_machine_says_so() {
    let text = config_check(&loaded(None), Palette::plain());
    assert!(text.contains("using its defaults"), "{text}");
    assert!(text.contains("No problems found"), "{text}");
}
