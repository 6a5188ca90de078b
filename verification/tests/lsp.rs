use wish_core::lsp::{CustomBinaryConfig, GenericLspCandidate, LSPServerType, LanguageId, LspCandidate};

#[test]
fn all_lists_every_server_once() {
    let all = LSPServerType::all();
    assert_eq!(all.len(), 39);
    assert_eq!(all[0], LSPServerType::RustAnalyzer);
    assert_eq!(all[38], LSPServerType::CmakeLanguageServer);
    for (i, a) in all.iter().enumerate() {
        for b in all.iter().skip(i + 1) {
            assert_ne!(a, b);
        }
    }
}

#[test]
fn binary_names_and_args() {
    assert_eq!(LSPServerType::RustAnalyzer.binary_name(), "rust-analyzer");
    assert_eq!(LSPServerType::OmniSharp.binary_name(), "OmniSharp");
    assert_eq!(LSPServerType::Pyright.args(), vec!["--stdio"]);
    assert_eq!(LSPServerType::GraphQLLs.args(), vec!["server", "-m", "stream"]);
    assert!(LSPServerType::GoPls.args().is_empty());
}

#[test]
fn custom_install_args_follow_path_args_for_generic_servers() {
    assert_eq!(LSPServerType::Pyright.custom_install_args(), vec!["--stdio"]);
    assert!(LSPServerType::RustAnalyzer.custom_install_args().is_empty());
    for t in LSPServerType::all().into_iter().skip(5) {
        assert_eq!(t.custom_install_args(), t.args());
    }
}

#[test]
fn languages_and_names() {
    assert_eq!(
        LSPServerType::TypeScriptLanguageServer.languages(),
        vec![LanguageId::TypeScript, LanguageId::TypeScriptReact, LanguageId::JavaScript, LanguageId::JavaScriptReact]
    );
    assert_eq!(LSPServerType::TypeScriptLanguageServer.language_name(), "TypeScript/JavaScript");
    assert_eq!(LSPServerType::CssLanguageServer.language_name(), "CSS/SCSS/Less");
    assert_eq!(LSPServerType::JsonLanguageServer.language_name(), "JSON");
    assert_eq!(LSPServerType::Clangd.language_name(), "C/C++");
    assert_eq!(LSPServerType::RustAnalyzer.language_name(), "Rust");
    assert_eq!(LSPServerType::Zls.language_name(), "Zig");
    assert_eq!(LanguageId::CSharp.lsp_language_identifier(), "csharp");
}

#[test]
fn candidates_are_dedicated_for_the_first_five() {
    assert!(matches!(LSPServerType::Clangd.candidate(), LspCandidate::Dedicated(LSPServerType::Clangd)));
    match LSPServerType::Metals.candidate() {
        LspCandidate::Generic(g) => {
            assert_eq!(g.binary_name, "metals");
            assert_eq!(g.version_args, vec!["--version"]);
            assert_eq!(g.project_markers, vec!["build.sbt", "build.sc"]);
            assert_eq!(g.source_extensions, vec!["scala", "sc"]);
        }
        LspCandidate::Dedicated(_) => panic!("metals is generic"),
    }
    for t in LSPServerType::all() {
        if let LspCandidate::Generic(g) = t.candidate() {
            assert_eq!(g.binary_name, t.binary_name());
        }
    }
}

#[test]
fn generic_candidate_suggests_on_marker_or_source_file() {
    let g = GenericLspCandidate::new("zls", vec!["--version"], vec!["build.zig", "build.zig.zon"], vec!["zig"]);
    assert!(g.should_suggest_for_repo(&vec![false, true], &None));
    assert!(!g.should_suggest_for_repo(&vec![false, false], &None));
    let files = Some(vec!["README.md".to_string(), "main.zig".to_string()]);
    assert!(g.should_suggest_for_repo(&vec![false, false], &files));
    let other = Some(vec![".zig".to_string(), "zig".to_string(), "a.zigx".to_string()]);
    assert!(!g.should_suggest_for_repo(&vec![false, false], &other));
    let docker = GenericLspCandidate::new("docker-langserver", vec!["--version"], vec!["Dockerfile"], vec![]);
    assert!(!docker.should_suggest_for_repo(&vec![false], &Some(vec!["x.zig".to_string()])));
}

#[test]
fn create_command_uses_the_path_binary_or_the_custom_install() {
    let c = LSPServerType::DartAnalysisServer.create_command(None);
    assert_eq!(c.program, "dart");
    assert_eq!(c.args, vec!["language-server".to_string(), "--protocol=lsp".to_string()]);
    let c = LSPServerType::Pyright.create_command(Some(CustomBinaryConfig {
        binary_path: "/data/node".to_string(),
        prepend_args: vec!["/data/pyright/langserver.index.js".to_string()],
    }));
    assert_eq!(c.program, "/data/node");
    assert_eq!(c.args, vec!["/data/pyright/langserver.index.js".to_string(), "--stdio".to_string()]);
    let c = LSPServerType::RustAnalyzer.create_command(Some(CustomBinaryConfig {
        binary_path: "/data/ra".to_string(),
        prepend_args: Vec::new(),
    }));
    assert_eq!(c.program, "/data/ra");
    assert!(c.args.is_empty());
}

#[test]
fn binary_names_are_non_empty_and_distinct() {
    let all = LSPServerType::all();
    for (i, a) in all.iter().enumerate() {
        assert!(!a.binary_name().is_empty());
        for b in all.iter().skip(i + 1) {
            assert_ne!(a.binary_name(), b.binary_name());
        }
    }
    assert_eq!(LSPServerType::Hls.binary_name(), "haskell-language-server-wrapper");
    assert_eq!(LSPServerType::DartAnalysisServer.binary_name(), "dart");
}
