use fixrs::{Options, TomlValue};

fn clippy_table(entries: Vec<(&str, TomlValue)>) -> Vec<(String, TomlValue)> {
    entries.into_iter().map(|(k, v)| (k.to_string(), v)).collect()
}

#[test]
fn defaults_match_clippy() {
    let o = Options::new();
    assert_eq!(o.max_segments, 2);
    assert_eq!(o.keep_segments, 1);
    assert!(o.write);
    assert!(!o.dry_run);
    assert!(o.should_write());
    assert!(o.allow_crates.is_empty());
}

#[test]
fn builders_set_one_field_each() {
    let o = Options::new()
        .path("src")
        .dry_run(true)
        .check(true)
        .max_segments(3)
        .keep_segments(2)
        .allow_crate("std")
        .extra_crate("wbase")
        .quiet(true)
        .no_cache(true);
    assert_eq!(o.path, Some(std::path::PathBuf::from("src")));
    assert!(o.dry_run && o.check && o.quiet && o.no_cache);
    assert!(!o.should_write());
    assert_eq!(o.max_segments, 3);
    assert_eq!(o.keep_segments, 2);
    assert_eq!(o.allow_crates, vec!["std".to_string()]);
    assert_eq!(o.extra_crates, vec!["wbase".to_string()]);
}

#[test]
fn allow_crates_appends_in_order() {
    let o = Options::new().allow_crate("a").allow_crates(vec!["b", "c"]);
    assert_eq!(o.allow_crates, vec!["a".to_string(), "b".to_string(), "c".to_string()]);
}

#[test]
fn allowed_crates_set_holds_each_crate_once() {
    let o = Options::new().allow_crates(vec!["b", "a", "b", "c", "a"]);
    assert_eq!(o.allowed_crates_set(), vec!["b".to_string(), "a".to_string(), "c".to_string()]);
}

#[test]
fn show_details_follows_quiet_show_and_terminal() {
    let o = Options::new();
    assert!(o.should_show_details_for(true));
    assert!(!o.should_show_details_for(false));
    let mut shown = Options::new();
    shown.show = true;
    assert!(shown.should_show_details_for(false));
    let mut verbose = Options::new();
    verbose.verbose = true;
    assert!(verbose.should_show_details_for(false));
    let quiet = Options::new().quiet(true);
    assert!(!quiet.should_show_details_for(true));
}

#[test]
fn config_hash_ignores_crate_order() {
    let a = Options::new().allow_crates(vec!["x", "y"]).extra_crate("p").extra_crate("q");
    let b = Options::new().allow_crates(vec!["y", "x"]).extra_crate("q").extra_crate("p");
    assert_eq!(a.config_hash(), b.config_hash());
}

#[test]
fn config_hash_is_museair_of_the_rules() {
    let o = Options::new().allow_crates(vec!["zeta", "alpha"]).extra_crate("wbase");
    let mut bytes: Vec<u8> = Vec::new();
    bytes.extend_from_slice(&2usize.to_le_bytes());
    bytes.extend_from_slice(&1usize.to_le_bytes());
    bytes.extend_from_slice(b"alpha\0zeta\0wbase\x01");
    assert_eq!(o.config_hash(), museair::hash(&bytes, 0));
}

#[test]
fn config_hash_changes_with_the_rules() {
    let a = Options::new();
    let b = Options::new().max_segments(3);
    let c = Options::new().allow_crate("std");
    assert_ne!(a.config_hash(), b.config_hash());
    assert_ne!(a.config_hash(), c.config_hash());
}

#[test]
fn test_clippy_toml_auto_detection() {
    let clippy_toml = r#"
absolute-paths-allowed-crates = ["mycrate"]
"#;
    let mut options = Options::default();
    options.apply_clippy_text(clippy_toml);
    assert!(
        options.allowed_crates_set().contains(&"mycrate".to_string()),
        "the allowed crates of clippy.toml are read"
    );
}

#[test]
fn clippy_table_is_merged() {
    let table = clippy_table(vec![(
        "absolute-paths-allowed-crates",
        TomlValue::Array(vec![TomlValue::Str("mycrate".to_string())]),
    )]);
    let mut options = Options::default();
    options.apply_clippy_config(&table);
    assert!(options.allowed_crates_set().contains(&"mycrate".to_string()));
}

#[test]
fn clippy_config_merges_without_duplicates_and_reads_positive_limits() {
    let table = clippy_table(vec![
        (
            "absolute_paths_allowed_crates",
            TomlValue::Array(vec![
                TomlValue::Str("a".to_string()),
                TomlValue::Int(3),
                TomlValue::Str("b".to_string()),
                TomlValue::Str("a".to_string()),
            ]),
        ),
        ("absolute-paths-max-segments", TomlValue::Int(4)),
    ]);
    let mut options = Options::new().allow_crate("b");
    options.apply_clippy_config(&table);
    assert_eq!(options.allow_crates, vec!["b".to_string(), "a".to_string()]);
    assert_eq!(options.max_segments, 4);
    options.apply_clippy_config(&table);
    assert_eq!(options.allow_crates, vec!["b".to_string(), "a".to_string()]);
    assert_eq!(options.max_segments, 4);
}

#[test]
fn clippy_config_ignores_non_positive_limits_and_other_values() {
    let table = clippy_table(vec![
        ("absolute-paths-max-segments", TomlValue::Int(0)),
        ("absolute-paths-allowed-crates", TomlValue::Str("x".to_string())),
    ]);
    let mut options = Options::new();
    options.apply_clippy_config(&table);
    assert_eq!(options.max_segments, 2);
    assert!(options.allow_crates.is_empty());
}

#[test]
fn clippy_config_prefers_the_dashed_key() {
    let table = clippy_table(vec![
        ("absolute_paths_max_segments", TomlValue::Int(7)),
        ("absolute-paths-max-segments", TomlValue::Int(5)),
    ]);
    let mut options = Options::new();
    options.apply_clippy_config(&table);
    assert_eq!(options.max_segments, 5);
}

#[test]
fn clippy_text_is_parsed_and_merged() {
    let mut options = Options::new().allow_crate("b");
    options.apply_clippy_text("absolute-paths-allowed-crates = [\"a\", \"b\"]\nabsolute-paths-max-segments = 3\n");
    assert_eq!(options.allow_crates, vec!["b".to_string(), "a".to_string()]);
    assert_eq!(options.max_segments, 3);
}

#[test]
fn clippy_text_that_is_not_toml_changes_nothing() {
    let mut options = Options::new().allow_crate("b");
    options.apply_clippy_text("absolute-paths-max-segments = = 3");
    assert_eq!(options.allow_crates, vec!["b".to_string()]);
    assert_eq!(options.max_segments, Options::new().max_segments);
}
