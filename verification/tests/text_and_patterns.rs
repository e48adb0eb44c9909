use lumen::paths::{expand_path, resolve_config_path, DEFAULT_CONFIG_FILE_PATH};
use lumen::config::logging::{LogTarget, LoggingConfig};
use lumen::pattern::RegexCfg;
use lumen::text::{
    empty_string_as_none, is_blank, str_eq, truncate_to_chars, u64_to_decimal,
};

#[test]
fn empty_string_becomes_none() {
    assert_eq!(empty_string_as_none(Some("".to_string())), None);
}

#[test]
fn whitespace_only_string_becomes_none() {
    assert_eq!(empty_string_as_none(Some("   ".to_string())), None);
}

#[test]
fn non_empty_string_is_kept() {
    assert_eq!(
        empty_string_as_none(Some("hello".to_string())),
        Some("hello".to_string())
    );
}

#[test]
fn absent_string_stays_absent_and_inner_spaces_are_kept() {
    assert_eq!(empty_string_as_none(None), None);
    assert_eq!(
        empty_string_as_none(Some("  a b ".to_string())),
        Some("  a b ".to_string())
    );
    assert_eq!(empty_string_as_none(Some("\t\n\u{3000}".to_string())), None);
}

#[test]
fn blank_matches_trim() {
    for s in ["", " ", "\u{85}\u{a0}", "x", " x ", "\u{200b}", "\u{2028}\u{2029}"] {
        assert_eq!(is_blank(s), s.trim().is_empty(), "{s:?}");
    }
}

#[test]
fn str_eq_compares_characters() {
    assert!(str_eq("abc", "abc"));
    assert!(!str_eq("abc", "abd"));
    assert!(!str_eq("abc", "ab"));
    assert!(str_eq("", ""));
}

#[test]
fn decimal_matches_to_string() {
    for n in [0u64, 7, 10, 99, 1234567890, u64::MAX] {
        assert_eq!(u64_to_decimal(n), n.to_string());
    }
}

#[test]
fn truncation_keeps_short_titles_and_marks_long_ones() {
    assert_eq!(truncate_to_chars("Firefox", 7), "Firefox");
    assert_eq!(truncate_to_chars("Firefox", 10), "Firefox");
    assert_eq!(truncate_to_chars("Firefox", 5), "Fire…");
    assert_eq!(truncate_to_chars("Firefox", 1), "F…");
    assert_eq!(truncate_to_chars("Firefox", 0), "F…");
    assert_eq!(truncate_to_chars("日本語のタイトル", 4), "日本語…");
}

#[test]
fn regex_cfg_equality_compares_pattern_source() {
    let a = RegexCfg::new("critical").unwrap();
    let b = RegexCfg::new("critical").unwrap();
    assert_eq!(a, b);
    assert_ne!(a, RegexCfg::new("crit.*").unwrap());
}

#[test]
fn regex_cfg_matches_and_rejects() {
    let alert = RegexCfg::new("critical").unwrap();
    assert!(alert.is_match("usage critical now"));
    assert!(!alert.is_match("usage ok"));
    assert_eq!(alert.as_str(), "critical");
    let anchored = RegexCfg::new("^ba(t|r)$").unwrap();
    assert!(anchored.is_match("bar"));
    assert!(!anchored.is_match("xbar"));
    let bad = RegexCfg::new("foo(bar").unwrap_err();
    assert_eq!(bad.pattern, "foo(bar");
    let copy = alert.clone();
    assert_eq!(copy.as_str(), "critical");
    assert!(copy.is_match("critical"));
}

#[test]
fn literal_paths_expand_to_themselves() {
    assert_eq!(expand_path("/etc/lumen.toml").unwrap(), "/etc/lumen.toml");
    assert_eq!(expand_path("relative/dir").unwrap(), "relative/dir");
    assert_eq!(expand_path("~user/x").unwrap(), "~user/x");
    assert_eq!(resolve_config_path(Some("/tmp/c.toml")).unwrap(), "/tmp/c.toml");
}

#[test]
fn home_and_variables_are_expanded() {
    let expanded = resolve_config_path(None).unwrap();
    assert!(expanded.ends_with("/.config/lumen/config.toml"));
    assert!(!expanded.starts_with('~') || DEFAULT_CONFIG_FILE_PATH.starts_with('~'));
    let err = expand_path("$LUMEN_SURELY_UNSET_VARIABLE_1234/x").unwrap_err();
    assert_eq!(err.var_name, "LUMEN_SURELY_UNSET_VARIABLE_1234");
}

#[test]
fn log_directory_prefers_the_configured_one() {
    let mut logging = LoggingConfig::default();
    assert_eq!(logging.level, "warn");
    assert_eq!(logging.target, LogTarget::File);
    assert_eq!(logging.log_directory("/run/user/1000".to_string()), "/run/user/1000");
    logging.directory = Some("/var/log/lumen".to_string());
    assert_eq!(logging.log_directory("/fallback".to_string()), "/var/log/lumen");
    logging.directory = Some("$LUMEN_SURELY_UNSET_VARIABLE_1234/logs".to_string());
    assert_eq!(logging.log_directory("/fallback".to_string()), "/fallback");
}

#[test]
fn default_config_path_expands_under_home() {
    let path = resolve_config_path(None).expect("the default path always expands");
    assert!(path.ends_with("/.config/lumen/config.toml"));
    assert!(!path.starts_with('~') || path == "~/.config/lumen/config.toml");
    let logs = expand_path("~/logs/lumen").expect("no variable to look up");
    assert!(logs.ends_with("/logs/lumen"));
}
