use wish_core::architecture::{group_of, mermaid_id, summarize, to_mermaid};
use wish_core::codegraph::{RepoCrate, RepoFile, RepoFunction, RepoGraph};

fn func(krate: &str, path: &str, name: &str, line: u32, is_pub: bool) -> RepoFunction {
    RepoFunction {
        crate_name: Some(krate.into()),
        file_path: path.into(),
        name: name.into(),
        line,
        is_test: false,
        is_pub,
        is_async: false,
    }
}

fn sample() -> RepoGraph {
    RepoGraph {
        root: "/r".into(),
        crates: vec![
            RepoCrate { name: "wish-canvas-core".into(), path: "/r/canvas-core".into() },
            RepoCrate { name: "wish-codegraph".into(), path: "/r/codegraph".into() },
            RepoCrate { name: "wishui".into(), path: "/r/wishui".into() },
        ],
        files: vec![
            RepoFile { path: "/r/canvas-core/src/lib.rs".into(), crate_name: Some("wish-canvas-core".into()) },
            RepoFile { path: "/r/codegraph/src/lib.rs".into(), crate_name: Some("wish-codegraph".into()) },
        ],
        deps: vec![("wish-codegraph".into(), "wish-canvas-core".into())],
        functions: vec![
            func("wish-canvas-core", "/r/canvas-core/src/lib.rs", "alpha", 1, true),
            func("wish-canvas-core", "/r/canvas-core/src/lib.rs", "private", 10, false),
            func("wish-codegraph", "/r/codegraph/src/lib.rs", "beta", 1, true),
        ],
        calls: vec![],
    }
}

#[test]
fn summarize_rolls_up_per_crate_counts() {
    let s = summarize(&sample());
    assert_eq!(s.crates.len(), 3);
    let cc = s.crates.iter().find(|c| c.name == "wish-canvas-core").unwrap();
    assert_eq!(cc.file_count, 1);
    assert_eq!(cc.fn_count, 2);
    assert_eq!(cc.pub_fn_count, 1);
    let cg = s.crates.iter().find(|c| c.name == "wish-codegraph").unwrap();
    assert_eq!(cg.fn_count, 1);
    assert_eq!(cg.pub_fn_count, 1);
    assert!(s.edges.contains(&("wish-codegraph".to_string(), "wish-canvas-core".to_string())));
}

#[test]
fn summary_lists_each_crate_once_in_order() {
    let mut g = sample();
    g.crates.push(RepoCrate { name: "wish-codegraph".into(), path: "/elsewhere".into() });
    g.deps.push(("wish-codegraph".into(), "wish-canvas-core".into()));
    let s = summarize(&g);
    let names: Vec<&str> = s.crates.iter().map(|c| c.name.as_str()).collect();
    assert_eq!(names, vec!["wish-canvas-core", "wish-codegraph", "wishui"]);
    assert_eq!(s.edges.len(), 1);
}

#[test]
fn to_mermaid_emits_flowchart_with_crates_and_edges() {
    let m = to_mermaid(&sample());
    assert!(m.starts_with("flowchart TD\n"));
    assert!(m.contains("wish_canvas_core"));
    assert!(m.contains("wish_codegraph"));
    assert!(m.contains("wishui"));
    assert!(m.contains("wish_codegraph --> wish_canvas_core"));
    assert!(m.contains("1 files · 2 fns · 1 pub"));
}

#[test]
fn group_of_buckets_wish_crates_together() {
    assert_eq!(group_of("wish-canvas-core"), "wish");
    assert_eq!(group_of("wish-codegraph"), "wish");
    assert_eq!(group_of("wishui"), "wishui");
    assert_eq!(group_of("app"), "app");
}

#[test]
fn mermaid_ids_replace_punctuation() {
    assert_eq!(mermaid_id("wish-canvas-core"), "wish_canvas_core");
    assert_eq!(mermaid_id("a.b"), "a_b");
}
