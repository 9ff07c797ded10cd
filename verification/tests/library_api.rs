use fixrs::{
    fix_parsed, fix_syntax_with_crates, has_cfg, has_no_implicit_prelude, ItemInfo, ItemKind, LineColumn, ModInfo, Options,
    ParsedFile, PathInfo, UseTree, VisitEvent,
};

fn path(segments: &[&str], line: usize, column: usize) -> VisitEvent {
    VisitEvent::Path(PathInfo {
        leading_colon: false,
        segments: segments.iter().map(|s| s.to_string()).collect(),
        span: LineColumn { line, column },
    })
}

fn named(name: &str, start_line: usize, end_line: usize) -> ItemInfo {
    ItemInfo { kind: ItemKind::Named(name.to_string()), start_line, end_line }
}

fn file(items: Vec<ItemInfo>, events: Vec<VisitEvent>) -> ParsedFile {
    ParsedFile { no_implicit_prelude: false, inner_attr_end_lines: vec![], items, events }
}

fn instant_file() -> ParsedFile {
    file(
        vec![named("test", 1, 1)],
        vec![
            VisitEvent::OpenLocals,
            VisitEvent::OpenLocals,
            path(&["std", "time", "Instant", "now"], 1, 20),
            VisitEvent::CloseLocals,
            VisitEvent::CloseLocals,
        ],
    )
}

#[test]
fn test_library_api() {
    let input = "fn test() { let _ = std::time::Instant::now(); }";
    let options = Options::new().max_segments(2);
    let parsed = instant_file();

    let res = fix_parsed(&parsed, input, &options).map(|r| r.content);
    assert!(res.is_some(), "the code should be rewritten");
    let fixed = res.unwrap();
    assert!(fixed.contains("use std::time::Instant;"));
    assert!(fixed.contains("Instant::now()"));

    let detailed = fix_parsed(&parsed, input, &options);
    assert!(detailed.is_some());
    let d = detailed.unwrap();
    assert_eq!(d.replacements.len(), 1);
    assert_eq!(d.replacements[0].0, "std::time::Instant::now");
    assert_eq!(d.replacements[0].1, "Instant::now");
}

#[test]
fn fix_parsed_gives_the_whole_rewritten_text() {
    let input = "fn test() { let _ = std::time::Instant::now(); }";
    let res = fix_parsed(&instant_file(), input, &Options::new()).unwrap();
    assert_eq!(res.content, "use std::time::Instant;\n\nfn test() { let _ = Instant::now(); }");
}

#[test]
fn test_cast_as_in_mod() {
    let input = r#"
pub mod time_stamp {
    pub const TICKS_PER_SECOND: u64 = wbase::convert::TICKS_PER_SECOND as u64;
}
"#;
    let parsed = file(
        vec![named("time_stamp", 2, 4)],
        vec![
            VisitEvent::OpenLocals,
            VisitEvent::EnterMod(ModInfo { start_line: 2, items: vec![named("TICKS_PER_SECOND", 3, 3)] }),
            VisitEvent::OpenLocals,
            path(&["u64"], 3, 32),
            path(&["wbase", "convert", "TICKS_PER_SECOND"], 3, 38),
            path(&["u64"], 3, 72),
            VisitEvent::CloseLocals,
            VisitEvent::ExitMod,
            VisitEvent::CloseLocals,
        ],
    );
    let mut options = Options::default();
    options.extra_crates.push("wbase".to_string());
    let res = fix_parsed(&parsed, input, &options).map(|r| r.content);
    assert!(res.is_some(), "the qualified path inside the module should be fixed");
    let fixed = res.unwrap();
    assert!(
        fixed.contains("use wbase::convert;"),
        "the parent module is imported inside time_stamp, so as not to clash with the local constant"
    );
    assert!(
        fixed.contains("convert::TICKS_PER_SECOND as u64"),
        "the path becomes convert::TICKS_PER_SECOND as u64"
    );
    assert_eq!(
        fixed,
        "\npub mod time_stamp {\n    use wbase::convert;\n\n    pub const TICKS_PER_SECOND: u64 = convert::TICKS_PER_SECOND as u64;\n}\n"
    );
}

#[test]
fn test_qself_as_trait() {
    let input = r#"
pub fn test() {
    let _ = <MyStruct as wbase::convert::MyTrait>::foo();
}
"#;
    let parsed = file(
        vec![named("test", 2, 4)],
        vec![
            VisitEvent::OpenLocals,
            VisitEvent::OpenLocals,
            path(&["MyStruct"], 3, 13),
            path(&["wbase", "convert", "MyTrait"], 3, 25),
            VisitEvent::CloseLocals,
            VisitEvent::CloseLocals,
        ],
    );
    let mut options = Options::default();
    options.extra_crates.push("wbase".to_string());
    let res = fix_parsed(&parsed, input, &options).map(|r| r.content);
    assert!(res.is_some(), "the trait path of the qualified self type should be fixed");
    let fixed = res.unwrap();
    assert!(fixed.contains("use wbase::convert::MyTrait;"));
    assert!(fixed.contains("<MyStruct as MyTrait>::foo()"));
}

#[test]
fn readme_demo_is_rewritten() {
    let input = "fn handle_data() -> Result<(), std::io::Error> {\n    let now = std::time::Instant::now();\n    let data = wbase::time::now_secs();\n    let code = std::io::ErrorKind::NotFound;\n    Ok(())\n}\n";
    let parsed = file(
        vec![named("handle_data", 1, 6)],
        vec![
            VisitEvent::OpenLocals,
            path(&["Result"], 1, 20),
            path(&["std", "io", "Error"], 1, 31),
            VisitEvent::OpenLocals,
            VisitEvent::Local("now".to_string()),
            path(&["std", "time", "Instant", "now"], 2, 14),
            VisitEvent::Local("data".to_string()),
            path(&["wbase", "time", "now_secs"], 3, 15),
            VisitEvent::Local("code".to_string()),
            path(&["std", "io", "ErrorKind", "NotFound"], 4, 15),
            path(&["Ok"], 5, 4),
            VisitEvent::CloseLocals,
            VisitEvent::CloseLocals,
        ],
    );
    let options = Options::new().extra_crate("wbase");
    let res = fix_parsed(&parsed, input, &options).unwrap();
    assert_eq!(
        res.content,
        "use std::io::Error;\nuse std::io::ErrorKind;\nuse std::time::Instant;\nuse wbase::time::now_secs;\n\nfn handle_data() -> Result<(), Error> {\n    let now = Instant::now();\n    let data = now_secs();\n    let code = ErrorKind::NotFound;\n    Ok(())\n}\n"
    );
    assert_eq!(res.replacements.len(), 4);
    assert_eq!(res.replacements[0], ("std::io::Error".to_string(), "Error".to_string()));
    assert_eq!(res.replacements[3], ("std::io::ErrorKind::NotFound".to_string(), "ErrorKind::NotFound".to_string()));
}

#[test]
fn no_implicit_prelude_file_is_left_alone() {
    let input = "fn test() { let _ = std::time::Instant::now(); }";
    let mut parsed = instant_file();
    parsed.no_implicit_prelude = true;
    assert!(fix_parsed(&parsed, input, &Options::new()).is_none());
}

#[test]
fn allowed_crate_keeps_its_paths() {
    let input = "fn test() { let _ = std::time::Instant::now(); }";
    let options = Options::new().allow_crate("std");
    assert!(fix_parsed(&instant_file(), input, &options).is_none());
}

#[test]
fn short_paths_are_left_alone() {
    let input = "fn test() { let _ = std::time::Instant::now(); }";
    let options = Options::new().max_segments(4);
    assert!(fix_parsed(&instant_file(), input, &options).is_none());
}

#[test]
fn unknown_crates_are_left_alone() {
    let input = "fn test() { let _ = foo::bar::baz(); }";
    let parsed = file(
        vec![named("test", 1, 1)],
        vec![VisitEvent::OpenLocals, path(&["foo", "bar", "baz"], 1, 20), VisitEvent::CloseLocals],
    );
    assert!(fix_parsed(&parsed, input, &Options::new()).is_none());
    let known = vec!["foo".to_string()];
    let res = fix_syntax_with_crates(&parsed, input, &Options::new(), &known).unwrap();
    assert_eq!(res.content, "use foo::bar::baz;\n\nfn test() { let _ = baz(); }");
}

#[test]
fn paths_under_cfg_need_an_existing_import() {
    let input = "use std::time;\n#[cfg(test)]\nfn test() { let _ = std::time::Instant::now(); let _ = std::io::stdin(); }\n";
    let parsed = file(
        vec![
            ItemInfo {
                kind: ItemKind::Use(UseTree::Path {
                    ident: "std".to_string(),
                    tree: Box::new(UseTree::Name { ident: "time".to_string() }),
                }),
                start_line: 1,
                end_line: 1,
            },
            named("test", 2, 3),
        ],
        vec![
            VisitEvent::EnterUse,
            path(&["std", "time"], 1, 4),
            VisitEvent::ExitUse,
            VisitEvent::EnterCfg,
            VisitEvent::OpenLocals,
            VisitEvent::EnterAttr,
            path(&["cfg"], 2, 2),
            VisitEvent::ExitAttr,
            VisitEvent::OpenLocals,
            path(&["std", "time", "Instant", "now"], 3, 20),
            path(&["std", "io", "stdin"], 3, 55),
            VisitEvent::CloseLocals,
            VisitEvent::CloseLocals,
            VisitEvent::ExitCfg,
        ],
    );
    let res = fix_parsed(&parsed, input, &Options::new()).unwrap();
    assert_eq!(
        res.content,
        "use std::time;\n#[cfg(test)]\nfn test() { let _ = time::Instant::now(); let _ = std::io::stdin(); }\n"
    );
    assert_eq!(res.replacements, vec![("std::time::Instant::now".to_string(), "time::Instant::now".to_string())]);
}

#[test]
fn a_local_name_keeps_the_module_prefix() {
    let input = "fn f(stdin: u8) { let _ = std::io::stdin(); }";
    let parsed = file(
        vec![named("f", 1, 1)],
        vec![
            VisitEvent::OpenLocals,
            VisitEvent::Local("stdin".to_string()),
            path(&["u8"], 1, 12),
            VisitEvent::OpenLocals,
            path(&["std", "io", "stdin"], 1, 26),
            VisitEvent::CloseLocals,
            VisitEvent::CloseLocals,
        ],
    );
    let res = fix_parsed(&parsed, input, &Options::new()).unwrap();
    assert_eq!(res.content, "use std::io;\n\nfn f(stdin: u8) { let _ = io::stdin(); }");
}

#[test]
fn fmt_paths_keep_the_fmt_prefix() {
    let input = "impl std::fmt::Display for A {}";
    let parsed = file(
        vec![ItemInfo { kind: ItemKind::Other, start_line: 1, end_line: 1 }],
        vec![VisitEvent::OpenLocals, path(&["std", "fmt", "Display"], 1, 5), path(&["A"], 1, 27), VisitEvent::CloseLocals],
    );
    let res = fix_parsed(&parsed, input, &Options::new()).unwrap();
    assert_eq!(res.content, "use std::fmt;\n\nimpl fmt::Display for A {}");
}

#[test]
fn clashing_names_get_an_alias_or_the_parent_module() {
    let input = "fn f() -> (std::io::Error, std::fmt::Error) { todo() }";
    let parsed = file(
        vec![named("f", 1, 1)],
        vec![
            VisitEvent::OpenLocals,
            path(&["std", "io", "Error"], 1, 11),
            path(&["std", "fmt", "Error"], 1, 27),
            VisitEvent::OpenLocals,
            path(&["todo"], 1, 47),
            VisitEvent::CloseLocals,
            VisitEvent::CloseLocals,
        ],
    );
    let res = fix_parsed(&parsed, input, &Options::new()).unwrap();
    assert_eq!(res.content, "use std::fmt;\nuse std::io;\n\nfn f() -> (io::Error, fmt::Error) { todo() }");
}

#[test]
fn rewritten_text_with_only_short_paths_is_left_alone() {
    let input = "use std::time::Instant;\n\nfn test() { let _ = Instant::now(); }";
    let parsed = file(
        vec![named("test", 3, 3)],
        vec![VisitEvent::OpenLocals, path(&["Instant", "now"], 3, 20), VisitEvent::CloseLocals],
    );
    assert!(fix_parsed(&parsed, input, &Options::new()).is_none());
}

#[test]
fn well_formed_recordings_are_recognised() {
    assert!(instant_file().is_wf());
    let bad = file(vec![], vec![path(&["a:b", "c", "d"], 1, 0)]);
    assert!(!bad.is_wf());
}

#[test]
fn cfg_and_prelude_attributes_are_recognised() {
    let attr = |segments: &[&str], leading_colon: bool| PathInfo {
        leading_colon,
        segments: segments.iter().map(|s| s.to_string()).collect(),
        span: LineColumn { line: 1, column: 0 },
    };
    assert!(has_cfg(&vec![attr(&["derive"], false), attr(&["cfg"], false)]));
    assert!(has_cfg(&vec![attr(&["cfg_attr"], false)]));
    assert!(!has_cfg(&vec![attr(&["cfg"], true), attr(&["a", "cfg"], false), attr(&["test"], false)]));
    assert!(has_no_implicit_prelude(&vec![attr(&["no_implicit_prelude"], false)]));
    assert!(!has_no_implicit_prelude(&vec![attr(&["no_std"], false)]));
}
