use std::time::Duration;

use chiploom_core::config::{Config, ConfigPatch, LogFormat, LogLevel};
use chiploom_core::ConfigError;

#[test]
fn verbosity_saturates_at_both_ends() {
    assert_eq!(LogLevel::Info.more_verbose(1), LogLevel::Debug);
    assert_eq!(LogLevel::Info.more_verbose(2), LogLevel::Trace);
    // Nine -v flags must not wrap around to `error`.
    assert_eq!(LogLevel::Info.more_verbose(9), LogLevel::Trace);
    assert_eq!(LogLevel::Info.less_verbose(1), LogLevel::Warn);
    assert_eq!(LogLevel::Info.less_verbose(9), LogLevel::Error);
    assert_eq!(LogLevel::Info.more_verbose(0), LogLevel::Info);
}

#[test]
fn level_parsing_is_forgiving_but_bounded() {
    assert_eq!(LogLevel::parse("TRACE").expect("uppercase"), LogLevel::Trace);
    assert_eq!(LogLevel::parse("  warn ").expect("padded"), LogLevel::Warn);
    assert_eq!(LogLevel::parse("warning").expect("alias"), LogLevel::Warn);
    let err = LogLevel::parse("chatty").expect_err("nonsense must be rejected");
    // The message has to list what is accepted, or the user has to read source.
    assert!(err.message().contains("trace"), "{}", err.message());
}

#[test]
fn format_parsing_accepts_documented_aliases() {
    assert_eq!(LogFormat::parse("json").expect("json"), LogFormat::Json);
    assert_eq!(LogFormat::parse("full").expect("alias"), LogFormat::Pretty);
    assert!(LogFormat::parse("xml").is_err());
}

#[test]
fn defaults_are_the_documented_ones() {
    let config = Config::default();
    assert_eq!(config.log.level, LogLevel::Info);
    assert_eq!(config.log.format, LogFormat::Compact);
    assert!(!config.network.offline);
    assert_eq!(Duration::from_secs(config.network.timeout_secs), Duration::from_secs(30));
    assert_eq!(config.network.retries, 3);
}

#[test]
fn level_names_round_trip_through_parsing() {
    for level in [LogLevel::Error, LogLevel::Warn, LogLevel::Info, LogLevel::Debug, LogLevel::Trace] {
        assert_eq!(LogLevel::parse(level.as_filter_str()).expect("canonical"), level);
    }
    for format in [LogFormat::Compact, LogFormat::Pretty, LogFormat::Json] {
        assert_eq!(LogFormat::parse(format.as_str()).expect("canonical"), format);
    }
    assert_eq!(LogLevel::variants(), vec!["error", "warn", "info", "debug", "trace"]);
    assert_eq!(LogFormat::variants(), vec!["compact", "pretty", "json"]);
}

#[test]
fn a_bad_format_names_the_key_and_the_choices() {
    match LogFormat::parse(" XML ") {
        Err(ConfigError::InvalidValue { key, message }) => {
            assert_eq!(key, "log.format");
            assert_eq!(message, "`xml` is not a log format; expected one of compact, pretty, json");
        }
        other => panic!("unexpected {other:?}"),
    }
}

fn patch(text: &str) -> ConfigPatch {
    ConfigPatch::from_toml(text, "test.toml").expect("valid TOML")
}

#[test]
fn a_silent_layer_does_not_clobber_a_lower_one() {
    let mut merged = patch("[log]\nlevel = \"debug\"\n");
    merged.merge(patch("[project]\nname = \"blinky\"\n"));

    let config = merged.resolve().expect("resolve");
    assert_eq!(config.log.level, LogLevel::Debug);
    assert_eq!(config.project.name.as_deref(), Some("blinky"));
}

#[test]
fn a_higher_layer_wins_where_it_speaks() {
    let mut merged = patch("[log]\nlevel = \"debug\"\nformat = \"json\"\n");
    merged.merge(patch("[log]\nlevel = \"trace\"\n"));

    let config = merged.resolve().expect("resolve");
    assert_eq!(config.log.level, LogLevel::Trace);
    assert_eq!(config.log.format, LogFormat::Json);
}

#[test]
fn empty_layers_resolve_to_the_defaults() {
    let config = ConfigPatch::new().resolve().expect("resolve");
    assert_eq!(config, Config::default());
}

#[test]
fn unknown_keys_are_collected_not_rejected() {
    let patch = patch(
        "experimental = true\n\
         [log]\n\
         lvl = \"debug\"\n\
         [network]\n\
         proxy = \"http://example.invalid\"\n",
    );
    assert_eq!(patch.unknown_keys(), ["experimental", "log.lvl", "network.proxy"]);
    assert_eq!(patch.resolve().expect("resolve").log.level, LogLevel::Info);
}

#[test]
fn a_wrong_type_on_a_known_key_is_an_error() {
    let err = ConfigPatch::from_toml("[log]\nlevel = 7\n", "bad.toml")
        .expect_err("a number is not a log level");
    assert!(matches!(err, ConfigError::Invalid { .. }));
}

#[test]
fn a_zero_timeout_is_rejected_with_a_reason() {
    let err = patch("[network]\ntimeout_secs = 0\n").resolve().expect_err("zero timeout is unusable");
    let message = err.message();
    assert!(message.contains("network.timeout_secs"), "{message}");
}

#[test]
fn timeout_seconds_become_a_duration() {
    let config = patch("[network]\ntimeout_secs = 90\nretries = 0\n").resolve().expect("resolve");
    assert_eq!(Duration::from_secs(config.network.timeout_secs), Duration::from_secs(90));
    assert_eq!(config.network.retries, 0);
}

#[test]
fn an_unknown_level_in_a_file_lists_the_choices() {
    let err = ConfigPatch::from_toml("[log]\nlevel = \"loud\"\n", "x.toml").expect_err("unknown level");
    match err {
        ConfigError::Invalid { path, message } => {
            assert_eq!(path, "x.toml");
            assert!(message.contains("loud"), "{message}");
            assert!(message.contains("trace"), "{message}");
        }
        other => panic!("unexpected {other:?}"),
    }
}

#[test]
fn text_that_is_not_toml_names_the_file() {
    let err = ConfigPatch::from_toml("[log\nlevel = \"debug\"\n", "broken.toml").expect_err("broken");
    assert!(err.message().contains("broken.toml"), "{}", err.message());
}

#[test]
fn merging_an_empty_layer_changes_nothing() {
    let mut a = patch("[log]\nlevel = \"debug\"\n[network]\nretries = 5\nextra = 1\n");
    a.merge(ConfigPatch::new());
    assert_eq!(a.unknown_keys(), ["network.extra"]);
    let config = a.resolve().expect("resolve");
    assert_eq!(config.log.level, LogLevel::Debug);
    assert_eq!(config.network.retries, 5);

    let mut b = ConfigPatch::new();
    b.merge(patch("[log]\nlevel = \"debug\"\n[network]\nretries = 5\nextra = 1\n"));
    assert_eq!(b.resolve().expect("resolve"), config);
}

#[test]
fn merging_is_associative_on_concrete_layers() {
    let (x, y, z) = ("[log]\nlevel = \"warn\"\nzzz = 1\n", "[log]\nformat = \"json\"\n", "[log]\nlevel = \"trace\"\naaa = 2\n");
    let mut left = patch(x);
    left.merge(patch(y));
    left.merge(patch(z));
    let mut right_tail = patch(y);
    right_tail.merge(patch(z));
    let mut right = patch(x);
    right.merge(right_tail);
    assert_eq!(left.unknown_keys(), right.unknown_keys());
    assert_eq!(left.unknown_keys(), ["log.aaa", "log.zzz"]);
    assert_eq!(left.resolve().expect("left"), right.resolve().expect("right"));
}

#[test]
fn merging_a_layer_with_itself_keeps_each_unknown_key_once() {
    let text = "extra = true\n[log]\nlevel = \"debug\"\nlvl = 1\n[network]\nproxy = \"x\"\n";
    let mut a = patch(text);
    a.merge(patch(text));
    assert_eq!(a.log.unknown, ["lvl"]);
    assert_eq!(a.network.unknown, ["proxy"]);
    assert_eq!(a.unknown, ["extra"]);
    assert_eq!(a.unknown_keys(), ["extra", "log.lvl", "network.proxy"]);

    // A key both layers set is kept once, at the place the lower layer had it.
    let mut b = patch("[log]\nzz = 1\naa = 2\n");
    b.merge(patch("[log]\naa = 3\nmm = 4\n"));
    assert_eq!(b.log.unknown, ["aa", "zz", "mm"]);
}

#[test]
fn levels_and_formats_parse_through_from_str() {
    assert_eq!("debug".parse::<LogLevel>().expect("level"), LogLevel::Debug);
    assert_eq!(" WARN ".parse::<LogLevel>().expect("level"), LogLevel::Warn);
    for level in [LogLevel::Error, LogLevel::Warn, LogLevel::Info, LogLevel::Debug, LogLevel::Trace] {
        assert_eq!(level.as_filter_str().parse::<LogLevel>().expect("round trip"), level);
        assert_eq!(level.as_filter_str().to_uppercase().parse::<LogLevel>().expect("any case"), level);
    }
    assert_eq!("json".parse::<LogFormat>().expect("format"), LogFormat::Json);
    assert!("loud".parse::<LogLevel>().is_err());
}
