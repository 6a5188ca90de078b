use wish_core::cli::{parse_command, parse_format, sanitize_key, CliCommand, Format, RenderTarget, HELP};
use wish_core::perspective::Perspective;

fn args(v: &[&str]) -> Vec<String> {
    v.iter().map(|s| s.to_string()).collect()
}

fn err(v: &[&str]) -> String {
    match parse_command(&args(v)) {
        Err(m) => m,
        Ok(c) => panic!("expected a refusal, got {:?}", c),
    }
}

#[test]
fn help_and_version() {
    assert!(matches!(parse_command(&args(&[])), Ok(CliCommand::Help)));
    assert!(matches!(parse_command(&args(&["-h"])), Ok(CliCommand::Help)));
    assert!(matches!(parse_command(&args(&["-V"])), Ok(CliCommand::Version)));
    assert!(HELP.starts_with("wish-world"));
}

#[test]
fn unknown_subcommand_shows_help() {
    let m = err(&["frobnicate"]);
    assert!(m.starts_with("unknown subcommand: frobnicate\n\n"));
    assert!(m.ends_with(HELP));
}

#[test]
fn formats_parse_with_aliases() {
    assert_eq!(parse_format("svg"), Ok(Format::Svg));
    assert_eq!(parse_format("arch"), Ok(Format::ArchitectureMermaid));
    assert_eq!(parse_format("arch-mermaid"), Ok(Format::ArchitectureMermaid));
    assert_eq!(parse_format("png"), Err("unknown format: png".to_string()));
}

#[test]
fn canvas_repo_takes_format_and_functions() {
    match parse_command(&args(&["canvas", "repo", ".", "--format=mermaid", "--functions"])) {
        Ok(CliCommand::CanvasRepo { root, format, functions }) => {
            assert_eq!(root, ".");
            assert_eq!(format, Format::Mermaid);
            assert!(functions);
        }
        other => panic!("{:?}", other),
    }
    match parse_command(&args(&["canvas", "world", "w", "--format", "json"])) {
        Ok(CliCommand::CanvasWorld { dir, format }) => {
            assert_eq!(dir, "w");
            assert_eq!(format, Format::Json);
        }
        other => panic!("{:?}", other),
    }
    assert_eq!(err(&["canvas"]), "usage: wish-world canvas repo|world <path>");
    assert_eq!(err(&["canvas", "repo"]), "usage: wish-world canvas repo <path>");
    assert_eq!(err(&["canvas", "graph", "."]), "unknown canvas subcommand: graph");
    assert_eq!(err(&["canvas", "repo", ".", "--format"]), "--format needs a value");
    assert_eq!(err(&["canvas", "repo", ".", "--bogus"]), "unknown flag: --bogus");
}

#[test]
fn numbers_and_required_targets() {
    match parse_command(&args(&["swarm", "build a harbor", "--target=w", "--count", "5"])) {
        Ok(CliCommand::Swarm { intent, target, count, step_ms, fresh }) => {
            assert_eq!(intent, "build a harbor");
            assert_eq!(target, "w");
            assert_eq!(count, 5);
            assert_eq!(step_ms, 1200);
            assert!(!fresh);
        }
        other => panic!("{:?}", other),
    }
    assert_eq!(err(&["swarm", "x", "--target", "w", "--count", "0"]), "swarm: --count must be ≥ 1");
    assert_eq!(err(&["swarm", "x"]), "swarm: --target <world-dir> is required");
    assert_eq!(err(&["agent", "x", "--target", "w", "--step-ms", "abc"]), "--step-ms: invalid digit found in string");
    assert_eq!(err(&["watch", "w", "--poll-ms="]), "--poll-ms: cannot parse integer from empty string");
    assert_eq!(
        err(&["watch", "w", "--poll-ms", "99999999999999999999"]),
        "--poll-ms: number too large to fit in target type"
    );
    match parse_command(&args(&["watch", "w"])) {
        Ok(CliCommand::Watch { dir, poll_ms }) => {
            assert_eq!(dir, "w");
            assert_eq!(poll_ms, 500);
        }
        other => panic!("{:?}", other),
    }
    match parse_command(&args(&["repo-watch", "r", "--target=--target=w", "--functions"])) {
        Ok(CliCommand::RepoWatch { root, target, poll_ms, functions }) => {
            assert_eq!(root, "r");
            assert_eq!(target, "w");
            assert_eq!(poll_ms, 1500);
            assert!(functions);
        }
        other => panic!("{:?}", other),
    }
}

#[test]
fn view_build_branch_and_block() {
    match parse_command(&args(&["view", "w", "--no-open", "--out", "o.html"])) {
        Ok(CliCommand::View { dir, out, open }) => {
            assert_eq!(dir, "w");
            assert_eq!(out.as_deref(), Some("o.html"));
            assert!(!open);
        }
        other => panic!("{:?}", other),
    }
    match parse_command(&args(&["build", "a temple", "--live", "--step-ms=250"])) {
        Ok(CliCommand::Build { intent, live, out, step_ms }) => {
            assert_eq!(intent, "a temple");
            assert!(live);
            assert!(out.is_none());
            assert_eq!(step_ms, 250);
        }
        other => panic!("{:?}", other),
    }
    assert_eq!(err(&["build", "x", "--out"]), "--out needs a directory");
    match parse_command(&args(&["branch", "w", "alt", "--from", "ev-3"])) {
        Ok(CliCommand::Branch { dir, new_branch, from }) => {
            assert_eq!((dir.as_str(), new_branch.as_str()), ("w", "alt"));
            assert_eq!(from.as_deref(), Some("ev-3"));
        }
        other => panic!("{:?}", other),
    }
    assert_eq!(err(&["block", "ls"]), "block: --target <world-dir> is required");
    assert_eq!(err(&["inspect"]), "usage: wish-world inspect <world-dir>");
    assert_eq!(err(&["demo", "city", "out"]), "unknown demo: city");
}

#[test]
fn render_takes_perspective_reveal_and_path_in_any_order() {
    match parse_command(&args(&["render", "repo", "--perspective", "arch", ".", "--reveal=code:file:a.rs"])) {
        Ok(CliCommand::Render { target, path, perspective, reveal }) => {
            assert_eq!(target, RenderTarget::Repo);
            assert_eq!(path.as_deref(), Some("."));
            assert_eq!(perspective, Perspective::Architecture);
            assert_eq!(reveal.as_deref(), Some("code:file:a.rs"));
        }
        other => panic!("{:?}", other),
    }
    match parse_command(&args(&["render", "demo"])) {
        Ok(CliCommand::Render { target, path, perspective, .. }) => {
            assert_eq!(target, RenderTarget::Demo);
            assert!(path.is_none());
            assert_eq!(perspective, Perspective::Engineering);
        }
        other => panic!("{:?}", other),
    }
    assert_eq!(err(&["render", "world"]), "usage: wish-world render world <world-dir> [--perspective <name>] [--reveal <semantic-id>]");
    assert_eq!(err(&["render", "demo", "a", "b"]), "unexpected positional arg: b");
    assert_eq!(err(&["render", "demo", "--perspective=nope"]), "unknown perspective: nope");
    let m = err(&["render", "demo", "--perspective", "nope"]);
    assert!(m.starts_with("unknown perspective: nope. valid: engineering, architecture, spatial"));
    assert!(m.ends_with("geologic, biologic"));
    assert_eq!(err(&["render", "moon"]), "unknown render target: moon");
}

#[test]
fn keys_are_sanitised_and_capped() {
    assert_eq!(sanitize_key("cargo test --all"), "cargo_test_--all");
    let long = "x".repeat(50);
    assert_eq!(sanitize_key(&long).len(), 40);
    assert_eq!(sanitize_key("é/ü"), "___");
}

#[test]
fn help_when_no_args() {
    assert!(matches!(parse_command(&args(&[])), Ok(CliCommand::Help)));
    assert!(HELP.contains("USAGE"));
    assert!(HELP.contains("World Model IDE"));
}

#[test]
fn render_refuses_a_malformed_reveal_id() {
    let m = err(&["render", "demo", "--reveal", "not-an-id"]);
    assert!(m.starts_with("--reveal: invalid SemanticId `not-an-id`\n"));
    assert!(m.contains("realm:kind:stable_key[#instance]"));
    assert!(err(&["render", "demo", "--reveal=code:function"]).starts_with("--reveal: invalid SemanticId"));
    assert!(err(&["render", "demo", "--reveal=:function:x"]).starts_with("--reveal: invalid SemanticId"));
    match parse_command(&args(&["render", "demo", "--reveal", "terminal:block:cargo-test#01HXYZ"])) {
        Ok(CliCommand::Render { reveal, .. }) => assert_eq!(reveal.as_deref(), Some("terminal:block:cargo-test#01HXYZ")),
        other => panic!("unexpected {:?}", other.is_ok()),
    }
    match parse_command(&args(&["render", "demo", "--reveal=code:function:my_mod::my_fn"])) {
        Ok(CliCommand::Render { reveal, .. }) => assert_eq!(reveal.as_deref(), Some("code:function:my_mod::my_fn")),
        other => panic!("unexpected {:?}", other.is_ok()),
    }
}
