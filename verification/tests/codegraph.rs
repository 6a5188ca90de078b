use wish_core::codegraph::{
    body_of_function, is_workspace_dependency, mentions_function, nearest_crate_name, parse_cargo_toml_text,
    retain_workspace_deps, should_skip, walk_action, ExtractOptions, RepoCrate, RepoFile, RepoFunction, RepoGraph,
    WalkAction,
};
use wish_core::repo_extract::{
    extract_functions_into, extract_repo_graph, extract_repo_graph_with, FileSource, RepoWalk,
};

#[test]
fn smoke_extract_empty() {
    let g = extract_repo_graph("/this/path/does/not/exist", None);
    assert!(g.crates.is_empty());
    assert!(g.files.is_empty());
    assert_eq!(g.root, "/this/path/does/not/exist");
}

#[test]
fn parse_cargo_toml_extracts_name_and_deps() {
    let text = r#"[package]
name = "demo-crate"
version = "0.1.0"

[dependencies]
serde = "1"
wish-world-model = { workspace = true }
wish-canvas-core = { path = "../wish-canvas-core" }

[dev-dependencies]
tempfile = "3"
"#;
    let (name, deps) = parse_cargo_toml_text(text).unwrap();
    assert_eq!(name, "demo-crate");
    assert!(deps.contains(&"serde".to_string()));
    assert!(deps.contains(&"wish-world-model".to_string()));
    assert!(deps.contains(&"wish-canvas-core".to_string()));
    assert!(deps.contains(&"tempfile".to_string()));
}

#[test]
fn parse_cargo_toml_without_package_name_is_none() {
    assert!(parse_cargo_toml_text("[workspace]\nmembers = [\"a\"]\n").is_none());
}

#[test]
fn mentions_function_respects_word_boundaries() {
    let body = "fn outer() { inner_call(1); not_inner_call(2); inner_call(3); }";
    assert!(mentions_function(body, "inner_call"));
    let body2 = "fn outer() { not_inner_call(2); }";
    assert!(!mentions_function(body2, "inner_call"));
}

#[test]
fn body_of_function_finds_matched_braces() {
    let src = "fn x() { let s = \"} not body\"; if true { return; } }\n";
    let body = body_of_function(src, 1).expect("body");
    assert!(body.starts_with("{"));
    assert!(body.ends_with("}"));
    assert!(body.contains("\"} not body\""));
}

#[test]
fn body_of_declaration_without_body_is_none() {
    assert_eq!(body_of_function("fn x();\n", 1), None);
    assert_eq!(body_of_function("fn x() { {\n", 1), None);
}

#[test]
fn qualified_names_skip_lib_main_mod_stems() {
    let f = RepoFunction {
        crate_name: Some("demo".into()),
        file_path: "/r/demo/src/lib.rs".into(),
        name: "go".into(),
        line: 1,
        is_test: false,
        is_pub: true,
        is_async: false,
    };
    assert_eq!(f.qualified_name(), "demo::go");
    let g = RepoFunction { file_path: "/r/demo/src/walker.rs".into(), crate_name: None, ..f };
    assert_eq!(g.qualified_name(), "?::walker::go");
}

#[test]
fn walk_decisions() {
    assert!(should_skip("target"));
    assert!(should_skip(".git"));
    assert!(!should_skip("src"));
    assert_eq!(walk_action("node_modules", true, 0), WalkAction::Skip);
    assert_eq!(walk_action("src", true, 0), WalkAction::Descend);
    assert_eq!(walk_action("deep", true, 12), WalkAction::Skip);
    assert_eq!(walk_action("Cargo.toml", false, 3), WalkAction::Manifest);
    assert_eq!(walk_action("main.go", false, 3), WalkAction::Source);
    assert_eq!(walk_action("README.md", false, 3), WalkAction::Skip);
    let ancestors = vec!["src".to_string(), "demo".to_string(), "r".to_string()];
    assert_eq!(nearest_crate_name(&ancestors, &vec![false, true, true]), Some("demo".to_string()));
    assert_eq!(nearest_crate_name(&ancestors, &vec![false, false, false]), None);
}

fn walked() -> RepoWalk {
    let mut w = RepoWalk::new();
    w.add_manifest(
        "/r/app",
        Some("app"),
        Some("[package]\nname = \"app\"\n[dependencies]\nlib_core = { path = \"../lib-core\" }\nserde = \"1\"\n"),
    );
    w.add_manifest("/r/lib-core", Some("lib-core"), None);
    w.add_source("/r/app/src/main.rs", Some("app".into()));
    w.add_source("/r/lib-core/src/lib.rs", Some("lib-core".into()));
    w.add_source("/r/lib-core/notes.txt", Some("lib-core".into()));
    w
}

#[test]
fn walks_record_only_files_in_a_known_language() {
    let w = walked();
    assert_eq!(w.files().len(), 2);
    assert_eq!(w.files()[1].path, "/r/lib-core/src/lib.rs");
    assert_eq!(w.files()[0].crate_name, Some("app".to_string()));
}

#[test]
fn manifests_fall_back_to_the_directory_name() {
    let w = walked();
    assert_eq!(w.crates()[0].name, "app");
    assert_eq!(w.crates()[1].name, "lib-core");
    assert_eq!(w.deps().len(), 2);
    let mut u = RepoWalk::new();
    u.add_manifest("/", None, Some("no manifest here"));
    assert_eq!(u.crates()[0].name, "unknown");
}

#[test]
fn extract_repo_graph_keeps_only_workspace_deps() {
    let g = extract_repo_graph("/r", Some(walked()));
    assert_eq!(g.crates.len(), 2);
    // notes.txt is in no known language and was not recorded.
    assert_eq!(g.files.len(), 2);
    assert_eq!(g.deps, vec![("app".to_string(), "lib_core".to_string())]);
    assert!(g.functions.is_empty());
    assert!(is_workspace_dependency(&g.crates, "lib_core"));
    assert!(!is_workspace_dependency(&g.crates, "serde"));
}

fn sources() -> Vec<FileSource> {
    vec![
        FileSource {
            size: Some(80),
            text: Some("fn main() {\n    helper();\n    shared();\n}\nfn helper() {}\n".into()),
        },
        FileSource {
            size: Some(60),
            text: Some("pub fn shared() {\n    helper();\n}\nfn helper() { shared(); }\n".into()),
        },
    ]
}

#[test]
fn same_file_call_edges() {
    let opts = ExtractOptions::default().with_functions(true);
    let g = extract_repo_graph_with("/r", &opts, Some(walked()), &sources());
    let names: Vec<&str> = g.functions.iter().map(|f| f.name.as_str()).collect();
    assert_eq!(names, vec!["main", "helper", "shared", "helper"]);
    assert_eq!(
        g.calls,
        vec![
            ("app::main".to_string(), "app::helper".to_string()),
            ("lib-core::shared".to_string(), "lib-core::helper".to_string()),
            ("lib-core::helper".to_string(), "lib-core::shared".to_string()),
        ]
    );
}

#[test]
fn global_call_edges_only_reach_unique_names() {
    let opts = ExtractOptions::default().with_functions(true).with_same_file_calls_only(false);
    let g = extract_repo_graph_with("/r", &opts, Some(walked()), &sources());
    // `helper` is declared twice, so only `shared` is a global callee.
    assert_eq!(
        g.calls,
        vec![
            ("app::main".to_string(), "lib-core::shared".to_string()),
            ("lib-core::helper".to_string(), "lib-core::shared".to_string()),
        ]
    );
}

#[test]
fn oversized_and_unreadable_files_are_skipped() {
    let opts = ExtractOptions { max_file_bytes: 70, ..ExtractOptions::default().with_functions(true) };
    let mut srcs = sources();
    srcs[1].text = None;
    let g = extract_repo_graph_with("/r", &opts, Some(walked()), &srcs);
    assert!(g.functions.is_empty());
    assert!(g.calls.is_empty());
}

#[test]
fn function_cap_truncates_per_file() {
    let mut graph = RepoGraph {
        root: "/r".into(),
        crates: vec![RepoCrate { name: "a".into(), path: "/r".into() }],
        files: vec![RepoFile { path: "/r/src/lib.rs".into(), crate_name: Some("a".into()) }],
        deps: vec![],
        functions: vec![],
        calls: vec![],
    };
    let opts = ExtractOptions { max_functions_per_file: 2, ..ExtractOptions::default() };
    let src = vec![FileSource { size: None, text: Some("fn a() {}\nfn b() {}\nfn c() {}\n".into()) }];
    extract_functions_into(&mut graph, &opts, &src);
    assert_eq!(graph.functions.len(), 2);
    retain_workspace_deps(&mut graph);
    assert!(graph.deps.is_empty());
}

#[test]
fn repeated_paths_form_one_file_read_from_its_last_text() {
    let file = || RepoFile { path: "/r/src/lib.rs".into(), crate_name: Some("k".into()) };
    let mut graph = RepoGraph {
        root: "/r".into(),
        crates: vec![RepoCrate { name: "k".into(), path: "/r".into() }],
        files: vec![file(), file()],
        deps: vec![],
        functions: vec![],
        calls: vec![],
    };
    let opts = ExtractOptions::default();
    let src = vec![
        FileSource { size: None, text: Some("fn a() {}\n".into()) },
        FileSource { size: None, text: Some("fn c() { a(); }\n".into()) },
    ];
    extract_functions_into(&mut graph, &opts, &src);
    let names: Vec<&str> = graph.functions.iter().map(|f| f.name.as_str()).collect();
    assert_eq!(names, vec!["a", "c"]);
    // Both declarations form one group and bodies are read from the
    // text the path kept last: `a` (line 1) reads `{ a(); }`, which
    // names only itself; `c` calls `a` of the first entry.
    assert_eq!(graph.calls, vec![("k::c".to_string(), "k::a".to_string())]);
}
