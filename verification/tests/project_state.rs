use fixrs::{
    builtin_crates, cache_for_config, collect_project_crates, collect_project_crates_from_texts,
    extract_crates_from_cargo_table,
    finish_decision, insert_crate_name, is_cached_clean, remember_clean, should_save_cache, FileMeta,
    Options, ProcessSummary, ProjectCache, RunEnd, TomlValue,
};

fn table(entries: Vec<(&str, TomlValue)>) -> TomlValue {
    TomlValue::Table(entries.into_iter().map(|(k, v)| (k.to_string(), v)).collect())
}

fn s(x: &str) -> TomlValue {
    TomlValue::Str(x.to_string())
}

fn meta(size: u64) -> FileMeta {
    FileMeta { size, mtime_secs: 10, mtime_nanos: 5 }
}

#[test]
fn crate_names_are_written_with_underscores_once() {
    let mut crates = vec![];
    insert_crate_name(&mut crates, "serde-json");
    insert_crate_name(&mut crates, "serde_json");
    insert_crate_name(&mut crates, "tokio");
    assert_eq!(crates, vec!["serde_json".to_string(), "tokio".to_string()]);
}

#[test]
fn builtin_crates_are_the_standard_ones() {
    assert_eq!(builtin_crates(), vec!["std", "core", "alloc", "proc_macro", "test"]);
}

#[test]
fn manifest_crates_of_every_kind() {
    let manifest = match table(vec![
        ("package", table(vec![("name", s("my-app"))])),
        ("lib", table(vec![("name", s("mylib"))])),
        ("dependencies", table(vec![("serde", s("1")), ("rq", table(vec![("package", s("reqwest-x"))]))])),
        ("dev-dependencies", table(vec![("criterion", s("0.5"))])),
        ("build-dependencies", table(vec![("cc", s("1"))])),
        (
            "workspace",
            table(vec![
                ("dependencies", table(vec![("anyhow", s("1"))])),
                ("members", TomlValue::Array(vec![s("crates/foo-bar/"), s("crates/*"), s("tools")])),
            ]),
        ),
        ("target", table(vec![("cfg(unix)", table(vec![("dependencies", table(vec![("libc", s("0.2"))]))]))])),
    ]) {
        TomlValue::Table(t) => t,
        _ => unreachable!(),
    };
    let mut crates = vec![];
    extract_crates_from_cargo_table(&manifest, &mut crates);
    assert_eq!(
        crates,
        vec![
            "my_app", "mylib", "serde", "rq", "reqwest_x", "criterion", "cc", "anyhow", "foo_bar", "tools", "libc",
        ]
    );
}

#[test]
fn project_crates_join_builtin_extra_and_manifests() {
    let root = vec![("package".to_string(), table(vec![("name", s("app"))]))];
    let workspace = vec![("workspace".to_string(), table(vec![("members", TomlValue::Array(vec![s("app")]))]))];
    let crates = collect_project_crates(&vec!["my-extra".to_string(), "std".to_string()], &vec![root, workspace]);
    assert_eq!(crates, vec!["std", "core", "alloc", "proc_macro", "test", "my_extra", "app"]);
}

#[test]
fn cache_reads_back_what_was_written() {
    let mut cache = ProjectCache::new(7);
    assert_eq!(cache.get("a.rs"), None);
    cache.insert("a.rs".to_string(), meta(1));
    cache.insert("b.rs".to_string(), meta(2));
    cache.insert("a.rs".to_string(), meta(3));
    assert_eq!(cache.get("a.rs"), Some(meta(3)));
    assert_eq!(cache.get("b.rs"), Some(meta(2)));
    assert_eq!(cache.clean_files.len(), 2);
    assert_eq!(cache.config_hash, 7);
}

#[test]
fn a_cache_made_under_other_rules_is_dropped() {
    let mut old = ProjectCache::new(1);
    old.insert("a.rs".to_string(), meta(1));
    let kept = cache_for_config(Some(old), 1);
    assert_eq!(kept.get("a.rs"), Some(meta(1)));
    let mut stale = ProjectCache::new(1);
    stale.insert("a.rs".to_string(), meta(1));
    let fresh = cache_for_config(Some(stale), 2);
    assert_eq!(fresh.config_hash, 2);
    assert_eq!(fresh.get("a.rs"), None);
    assert_eq!(cache_for_config(None, 9).config_hash, 9);
}

#[test]
fn clean_files_are_skipped_only_with_the_same_meta() {
    let options = Options::new();
    let mut cache = ProjectCache::new(0);
    remember_clean(&mut cache, &options, "a.rs".to_string(), Some(meta(1)));
    assert!(is_cached_clean(&cache, &options, Some("a.rs"), Some(meta(1))));
    assert!(!is_cached_clean(&cache, &options, Some("a.rs"), Some(meta(2))));
    assert!(!is_cached_clean(&cache, &options, Some("b.rs"), Some(meta(1))));
    assert!(!is_cached_clean(&cache, &options, None, Some(meta(1))));
    assert!(!is_cached_clean(&cache, &options, Some("a.rs"), None));
    let no_cache = Options::new().no_cache(true);
    assert!(!is_cached_clean(&cache, &no_cache, Some("a.rs"), Some(meta(1))));
    remember_clean(&mut cache, &no_cache, "c.rs".to_string(), Some(meta(1)));
    assert_eq!(cache.get("c.rs"), None);
}

#[test]
fn summary_and_end_of_run() {
    let mut summary = ProcessSummary::default();
    summary.total_files = 3;
    summary.count_changed(2);
    summary.count_changed(5);
    assert_eq!((summary.changed_files, summary.total_files, summary.total_replacements), (2, 3, 7));

    let check = Options::new().check(true);
    assert!(matches!(finish_decision(&summary, &check, true), RunEnd::Fail { report: true }));
    assert!(matches!(finish_decision(&summary, &check, false), RunEnd::Fail { report: false }));
    let dry = Options::new().dry_run(true);
    assert!(matches!(finish_decision(&summary, &dry, true), RunEnd::Hint));
    assert!(matches!(finish_decision(&summary, &dry, false), RunEnd::Done));
    assert!(matches!(finish_decision(&summary, &Options::new(), true), RunEnd::Done));
    assert!(matches!(finish_decision(&ProcessSummary::default(), &check, true), RunEnd::Done));
}

#[test]
fn cache_is_saved_when_writing_or_when_nothing_changed() {
    assert!(should_save_cache(&Options::new(), 3));
    assert!(!should_save_cache(&Options::new().dry_run(true), 3));
    assert!(should_save_cache(&Options::new().dry_run(true), 0));
    assert!(!should_save_cache(&Options::new().no_cache(true), 1));
}

#[test]
fn project_crates_from_manifest_texts() {
    let root = "[package]\nname = \"my-app\"\n\n[dependencies]\nalpha = \"1\"\nbeta = { package = \"real-beta\", version = \"1\" }\n";
    let workspace = "[workspace]\nmembers = [\"crates/tool\"]\n";
    let crates = collect_project_crates_from_texts(
        &vec!["extra".to_string()],
        &vec![root.to_string(), "not [toml".to_string(), workspace.to_string()],
    );
    assert_eq!(
        crates,
        vec!["std", "core", "alloc", "proc_macro", "test", "extra", "my_app", "alpha", "beta", "real_beta", "tool"]
    );
}
