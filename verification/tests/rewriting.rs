use fixrs::{
    compute_line_offsets, find_top_level_insert_pos, generate_alias_candidates, rewrite_source,
    to_pascal_case, to_pascal_case_in, FileScope, ItemInfo, ItemKind, LineColumn, Options,
    ParsedFile, QualifiedPath, UseTree,
};

fn qpath(original: &str, replacement: &str, import: &str, line: usize, column: usize) -> QualifiedPath {
    QualifiedPath {
        original: original.to_string(),
        replacement: replacement.to_string(),
        import: import.to_string(),
        segments: original.trim_start_matches(':').split("::").map(|s| s.to_string()).collect(),
        span: LineColumn { line, column },
    }
}

#[test]
fn line_offsets_start_after_each_newline() {
    assert_eq!(compute_line_offsets(""), vec![0]);
    assert_eq!(compute_line_offsets("a\nbc\n"), vec![0, 2, 5]);
    assert_eq!(compute_line_offsets("é\nx"), vec![0, 3]);
}

#[test]
fn pascal_case() {
    assert_eq!(to_pascal_case("async_lock"), "AsyncLock");
    assert_eq!(to_pascal_case("serde-json"), "SerdeJson");
    assert_eq!(to_pascal_case("__x"), "X");
    assert_eq!(to_pascal_case("ä_b"), "ÄB");
    let mut out = "Pre".to_string();
    to_pascal_case_in("my_mod", &mut out);
    assert_eq!(out, "PreMyMod");
}

#[test]
fn alias_candidates_follow_naming_conventions() {
    assert_eq!(generate_alias_candidates("async_lock::Mutex"), vec!["AsyncLockMutex"]);
    assert_eq!(generate_alias_candidates("tokio::sync::Mutex"), vec!["TokioMutex", "TokioSyncMutex"]);
    assert_eq!(generate_alias_candidates("std::u8::MAX"), vec!["STD_MAX", "STD_U8_MAX"]);
    assert_eq!(generate_alias_candidates("::a_b::c::run"), vec!["a_b_run", "a_b_c_run"]);
    assert!(generate_alias_candidates("crate::x::Error").is_empty());
    assert!(generate_alias_candidates("Error").is_empty());
}

#[test]
fn rewrite_source_replaces_and_imports() {
    let src = "fn f() -> std::io::Result<()> { Ok(()) }\n";
    let paths = vec![qpath("std::io::Result", "io::Result", "std::io", 1, 10)];
    let res = rewrite_source(src, &paths, 0, &FileScope::default(), &Options::new()).unwrap();
    assert_eq!(res.content, "use std::io;\n\nfn f() -> io::Result<()> { Ok(()) }\n");
    assert_eq!(res.replacements, vec![("std::io::Result".to_string(), "io::Result".to_string())]);
}

#[test]
fn rewrite_source_with_an_existing_import_adds_nothing_at_the_top() {
    let src = "use std::io;\nfn f() -> std::io::Result<()> { Ok(()) }\n";
    let mut scope = FileScope::default();
    scope.in_scope_idents.push("io".to_string());
    scope.existing_use_paths.push("std::io".to_string());
    let paths = vec![qpath("std::io::Result", "io::Result", "std::io", 2, 10)];
    let res = rewrite_source(src, &paths, 13, &scope, &Options::new()).unwrap();
    assert_eq!(res.content, "use std::io;\nfn f() -> io::Result<()> { Ok(()) }\n");
}

#[test]
fn rewrite_source_leaves_text_that_does_not_change() {
    let src = "fn f() { let _ = ::std::io::stdin(); }";
    let paths = vec![qpath("::std::io::stdin", "std::io::stdin", "std::io::stdin", 1, 17)];
    let mut scope = FileScope::default();
    scope.existing_use_paths.push("std::io::stdin".to_string());
    assert!(rewrite_source(src, &paths, 0, &scope, &Options::new()).is_none());
    let res = rewrite_source(src, &paths, 0, &FileScope::default(), &Options::new()).unwrap();
    assert_eq!(res.content, "use std::io::stdin;

fn f() { let _ = ::std::io::stdin(); }");
    assert!(res.replacements.is_empty());
    assert!(rewrite_source(src, &[], 0, &FileScope::default(), &Options::new()).is_none());
}

#[test]
fn renamed_imports_are_reused() {
    let src = "use async_lock::Mutex as AsyncLockMutex;\nstatic M: async_lock::Mutex<u8> = x();\n";
    let mut scope = FileScope::default();
    scope.in_scope_idents.push("AsyncLockMutex".to_string());
    scope.in_scope_idents.push("M".to_string());
    scope.existing_use_paths.push("async_lock::Mutex as AsyncLockMutex".to_string());
    scope.renamed_uses.push(("async_lock::Mutex".to_string(), "AsyncLockMutex".to_string()));
    let paths = vec![qpath("async_lock::Mutex", "Mutex", "async_lock::Mutex", 2, 10)];
    let res = rewrite_source(src, &paths, 41, &scope, &Options::new()).unwrap();
    assert_eq!(res.content, "use async_lock::Mutex as AsyncLockMutex;\nstatic M: AsyncLockMutex<u8> = x();\n");
}

#[test]
fn a_clash_with_a_two_segment_import_takes_an_alias() {
    let src = "struct Mutex;\nstatic M: async_lock::Mutex<u8> = x();\n";
    let mut scope = FileScope::default();
    scope.in_scope_idents.push("Mutex".to_string());
    let paths = vec![qpath("async_lock::Mutex", "Mutex", "async_lock::Mutex", 2, 10)];
    let res = rewrite_source(src, &paths, 0, &scope, &Options::new()).unwrap();
    assert_eq!(
        res.content,
        "use async_lock::Mutex as AsyncLockMutex;\n\nstruct Mutex;\nstatic M: AsyncLockMutex<u8> = x();\n"
    );
}

#[test]
fn top_level_insert_position() {
    let src = "#![allow(x)]\n\nuse a::b;\nuse c::d;\nfn f() {}\n";
    let use_item = |l| ItemInfo {
        kind: ItemKind::Use(UseTree::Name { ident: "b".to_string() }),
        start_line: l,
        end_line: l,
    };
    let with_uses = ParsedFile {
        no_implicit_prelude: false,
        inner_attr_end_lines: vec![1],
        items: vec![use_item(3), use_item(4), ItemInfo { kind: ItemKind::Other, start_line: 5, end_line: 5 }],
        events: vec![],
    };
    assert_eq!(find_top_level_insert_pos(&with_uses, src), 34);
    let no_uses = ParsedFile {
        no_implicit_prelude: false,
        inner_attr_end_lines: vec![1],
        items: vec![ItemInfo { kind: ItemKind::Other, start_line: 5, end_line: 5 }],
        events: vec![],
    };
    assert_eq!(find_top_level_insert_pos(&no_uses, src), 34);
    let attrs_only = ParsedFile { no_implicit_prelude: false, inner_attr_end_lines: vec![1], items: vec![], events: vec![] };
    assert_eq!(find_top_level_insert_pos(&attrs_only, src), 13);
    let empty = ParsedFile { no_implicit_prelude: false, inner_attr_end_lines: vec![], items: vec![], events: vec![] };
    assert_eq!(find_top_level_insert_pos(&empty, src), 0);
}

#[test]
fn same_name_from_two_imports_falls_back() {
    let src = "fn f() { b::x::y(); a::x::y(); }";
    let paths = vec![qpath("b::x::y", "y", "b::x::y", 1, 9), qpath("a::x::y", "y", "a::x::y", 1, 20)];
    let res = rewrite_source(src, &paths, 0, &FileScope::default(), &Options::new()).unwrap();
    assert_eq!(res.content, "use a::x::y as a_y;\nuse b::x;\n\nfn f() { x::y(); a_y(); }");
}

#[test]
fn overlapping_replacements_keep_the_first() {
    let src = "fn f() { let _ = a_b::c::d::e(); }";
    let paths = vec![
        qpath("a_b::c::d::e", "e", "a_b::c::d::e", 1, 17),
        qpath("a_b::c::d", "d", "a_b::c::d", 1, 17),
    ];
    let mut scope = FileScope::default();
    scope.existing_use_paths.push("a_b::c::d::e".to_string());
    scope.existing_use_paths.push("a_b::c::d".to_string());
    let res = rewrite_source(src, &paths, 0, &scope, &Options::new()).unwrap();
    assert_eq!(res.content, "fn f() { let _ = e(); }");
    assert_eq!(res.replacements, vec![("a_b::c::d::e".to_string(), "e".to_string())]);
}

#[test]
fn inserted_imports_are_sorted_and_once() {
    let src = "fn f() { b::x::p(); a::x::q(); b::x::p(); }";
    let paths = vec![
        qpath("b::x::p", "p", "b::x::p", 1, 9),
        qpath("a::x::q", "q", "a::x::q", 1, 20),
        qpath("b::x::p", "p", "b::x::p", 1, 31),
    ];
    let res = rewrite_source(src, &paths, 0, &FileScope::default(), &Options::new()).unwrap();
    assert_eq!(res.content, "use a::x::q;\nuse b::x::p;\n\nfn f() { p(); q(); p(); }");
}

#[test]
fn rewrite_source_without_imports_needs_no_insert_position() {
    let src = "fn f() { let _ = ::std::io::stdin(); }";
    let paths = vec![qpath("::std::io::stdin", "std::io::stdin", "std::io::stdin", 1, 17)];
    let mut scope = FileScope::default();
    scope.existing_use_paths.push("std::io::stdin".to_string());
    assert!(rewrite_source(src, &paths, 1000, &scope, &Options::new()).is_none());
}

#[test]
fn pascal_case_drops_every_separator() {
    let r = to_pascal_case("a_b-c__d--e");
    assert_eq!(r, "ABCDE");
    assert!(!r.contains('_') && !r.contains('-'));
}
