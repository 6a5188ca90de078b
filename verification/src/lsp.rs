//! Language servers: which binary each one runs, with which arguments,
//! for which languages, and when a repository calls for it.
use vstd::prelude::*;
use crate::languages::{extension, extension_of};
use crate::text::{ascii_uppercase, chars_eq, chars_of, joined, string_of, upper_char};

verus! {

/// A language as the Language Server Protocol identifies it.
#[derive(Debug, Clone, Copy, PartialEq, Eq, Hash, Structural)]
pub enum LanguageId {
    Rust,
    Go,
    Python,
    TypeScript,
    TypeScriptReact,
    JavaScript,
    JavaScriptReact,
    C,
    Cpp,
    Zig,
    Nim,
    Swift,
    Dart,
    Java,
    Kotlin,
    Scala,
    CSharp,
    FSharp,
    Ruby,
    PHP,
    Perl,
    Lua,
    Bash,
    Svelte,
    Vue,
    Elixir,
    Erlang,
    Haskell,
    OCaml,
    Html,
    Css,
    Scss,
    Less,
    Json,
    Jsonc,
    Yaml,
    Toml,
    Sql,
    GraphQL,
    Xml,
    Markdown,
    LaTeX,
    Solidity,
    Terraform,
    Dockerfile,
    CMake,
}

/// The protocol identifier of a language.
pub open spec fn identifier_spec(l: LanguageId) -> Seq<char> {
    match l {
        LanguageId::Rust => "rust"@,
        LanguageId::Go => "go"@,
        LanguageId::Python => "python"@,
        LanguageId::TypeScript => "typescript"@,
        LanguageId::TypeScriptReact => "typescriptreact"@,
        LanguageId::JavaScript => "javascript"@,
        LanguageId::JavaScriptReact => "javascriptreact"@,
        LanguageId::C => "c"@,
        LanguageId::Cpp => "cpp"@,
        LanguageId::Zig => "zig"@,
        LanguageId::Nim => "nim"@,
        LanguageId::Swift => "swift"@,
        LanguageId::Dart => "dart"@,
        LanguageId::Java => "java"@,
        LanguageId::Kotlin => "kotlin"@,
        LanguageId::Scala => "scala"@,
        LanguageId::CSharp => "csharp"@,
        LanguageId::FSharp => "fsharp"@,
        LanguageId::Ruby => "ruby"@,
        LanguageId::PHP => "php"@,
        LanguageId::Perl => "perl"@,
        LanguageId::Lua => "lua"@,
        LanguageId::Bash => "shellscript"@,
        LanguageId::Svelte => "svelte"@,
        LanguageId::Vue => "vue"@,
        LanguageId::Elixir => "elixir"@,
        LanguageId::Erlang => "erlang"@,
        LanguageId::Haskell => "haskell"@,
        LanguageId::OCaml => "ocaml"@,
        LanguageId::Html => "html"@,
        LanguageId::Css => "css"@,
        LanguageId::Scss => "scss"@,
        LanguageId::Less => "less"@,
        LanguageId::Json => "json"@,
        LanguageId::Jsonc => "jsonc"@,
        LanguageId::Yaml => "yaml"@,
        LanguageId::Toml => "toml"@,
        LanguageId::Sql => "sql"@,
        LanguageId::GraphQL => "graphql"@,
        LanguageId::Xml => "xml"@,
        LanguageId::Markdown => "markdown"@,
        LanguageId::LaTeX => "latex"@,
        LanguageId::Solidity => "solidity"@,
        LanguageId::Terraform => "terraform"@,
        LanguageId::Dockerfile => "dockerfile"@,
        LanguageId::CMake => "cmake"@,
    }
}

impl LanguageId {
    /// The identifier the protocol uses for this language.
    pub fn lsp_language_identifier(&self) -> (r: &'static str)
        ensures
            r@ == identifier_spec(*self),
    {
        match self {
            LanguageId::Rust => "rust",
            LanguageId::Go => "go",
            LanguageId::Python => "python",
            LanguageId::TypeScript => "typescript",
            LanguageId::TypeScriptReact => "typescriptreact",
            LanguageId::JavaScript => "javascript",
            LanguageId::JavaScriptReact => "javascriptreact",
            LanguageId::C => "c",
            LanguageId::Cpp => "cpp",
            LanguageId::Zig => "zig",
            LanguageId::Nim => "nim",
            LanguageId::Swift => "swift",
            LanguageId::Dart => "dart",
            LanguageId::Java => "java",
            LanguageId::Kotlin => "kotlin",
            LanguageId::Scala => "scala",
            LanguageId::CSharp => "csharp",
            LanguageId::FSharp => "fsharp",
            LanguageId::Ruby => "ruby",
            LanguageId::PHP => "php",
            LanguageId::Perl => "perl",
            LanguageId::Lua => "lua",
            LanguageId::Bash => "shellscript",
            LanguageId::Svelte => "svelte",
            LanguageId::Vue => "vue",
            LanguageId::Elixir => "elixir",
            LanguageId::Erlang => "erlang",
            LanguageId::Haskell => "haskell",
            LanguageId::OCaml => "ocaml",
            LanguageId::Html => "html",
            LanguageId::Css => "css",
            LanguageId::Scss => "scss",
            LanguageId::Less => "less",
            LanguageId::Json => "json",
            LanguageId::Jsonc => "jsonc",
            LanguageId::Yaml => "yaml",
            LanguageId::Toml => "toml",
            LanguageId::Sql => "sql",
            LanguageId::GraphQL => "graphql",
            LanguageId::Xml => "xml",
            LanguageId::Markdown => "markdown",
            LanguageId::LaTeX => "latex",
            LanguageId::Solidity => "solidity",
            LanguageId::Terraform => "terraform",
            LanguageId::Dockerfile => "dockerfile",
            LanguageId::CMake => "cmake",
        }
    }
}

/// Where a custom-installed server lives: the executable and the
/// arguments that go before the server's own (such as a script path).
#[derive(Debug, Clone)]
pub struct CustomBinaryConfig {
    pub binary_path: String,
    pub prepend_args: Vec<String>,
}

/// A program and its arguments, ready to be spawned.
#[derive(Debug, Clone)]
pub struct CommandLine {
    pub program: String,
    pub args: Vec<String>,
}

pub open spec fn strs_view(v: Seq<String>) -> Seq<Seq<char>> {
    v.map_values(|s: String| s@)
}

pub open spec fn statics_view(v: Seq<&'static str>) -> Seq<Seq<char>> {
    v.map_values(|s: &'static str| s@)
}

/// The language servers Wish knows how to run. Variant names are
/// persisted and must not change.
#[derive(Debug, Clone, Copy, PartialEq, Eq, Hash, Structural)]
pub enum LSPServerType {
    RustAnalyzer,
    GoPls,
    Pyright,
    TypeScriptLanguageServer,
    Clangd,
    Zls,
    NimLangServer,
    SourceKitLsp,
    DartAnalysisServer,
    Jdtls,
    KotlinLanguageServer,
    Metals,
    OmniSharp,
    FsAutoComplete,
    Solargraph,
    Intelephense,
    PerlNavigator,
    LuaLanguageServer,
    BashLanguageServer,
    SvelteLanguageServer,
    VueLanguageServer,
    ElixirLs,
    ErlangLs,
    Hls,
    OcamlLsp,
    HtmlLanguageServer,
    CssLanguageServer,
    JsonLanguageServer,
    YamlLanguageServer,
    Taplo,
    Sqls,
    GraphQLLs,
    Lemminx,
    Marksman,
    Texlab,
    SolidityLanguageServer,
    TerraformLs,
    DockerfileLs,
    CmakeLanguageServer,
}

/// Every server, in declaration order.
pub open spec fn all_servers() -> Seq<LSPServerType> {
    seq![
        LSPServerType::RustAnalyzer,
        LSPServerType::GoPls,
        LSPServerType::Pyright,
        LSPServerType::TypeScriptLanguageServer,
        LSPServerType::Clangd,
        LSPServerType::Zls,
        LSPServerType::NimLangServer,
        LSPServerType::SourceKitLsp,
        LSPServerType::DartAnalysisServer,
        LSPServerType::Jdtls,
        LSPServerType::KotlinLanguageServer,
        LSPServerType::Metals,
        LSPServerType::OmniSharp,
        LSPServerType::FsAutoComplete,
        LSPServerType::Solargraph,
        LSPServerType::Intelephense,
        LSPServerType::PerlNavigator,
        LSPServerType::LuaLanguageServer,
        LSPServerType::BashLanguageServer,
        LSPServerType::SvelteLanguageServer,
        LSPServerType::VueLanguageServer,
        LSPServerType::ElixirLs,
        LSPServerType::ErlangLs,
        LSPServerType::Hls,
        LSPServerType::OcamlLsp,
        LSPServerType::HtmlLanguageServer,
        LSPServerType::CssLanguageServer,
        LSPServerType::JsonLanguageServer,
        LSPServerType::YamlLanguageServer,
        LSPServerType::Taplo,
        LSPServerType::Sqls,
        LSPServerType::GraphQLLs,
        LSPServerType::Lemminx,
        LSPServerType::Marksman,
        LSPServerType::Texlab,
        LSPServerType::SolidityLanguageServer,
        LSPServerType::TerraformLs,
        LSPServerType::DockerfileLs,
        LSPServerType::CmakeLanguageServer,
    ]
}

pub open spec fn binary_spec(t: LSPServerType) -> Seq<char> {
    match t {
        LSPServerType::RustAnalyzer => "rust-analyzer"@,
        LSPServerType::GoPls => "gopls"@,
        LSPServerType::Pyright => "pyright-langserver"@,
        LSPServerType::TypeScriptLanguageServer => "typescript-language-server"@,
        LSPServerType::Clangd => "clangd"@,
        LSPServerType::Zls => "zls"@,
        LSPServerType::NimLangServer => "nimlangserver"@,
        LSPServerType::SourceKitLsp => "sourcekit-lsp"@,
        LSPServerType::DartAnalysisServer => "dart"@,
        LSPServerType::Jdtls => "jdtls"@,
        LSPServerType::KotlinLanguageServer => "kotlin-language-server"@,
        LSPServerType::Metals => "metals"@,
        LSPServerType::OmniSharp => "OmniSharp"@,
        LSPServerType::FsAutoComplete => "fsautocomplete"@,
        LSPServerType::Solargraph => "solargraph"@,
        LSPServerType::Intelephense => "intelephense"@,
        LSPServerType::PerlNavigator => "perlnavigator"@,
        LSPServerType::LuaLanguageServer => "lua-language-server"@,
        LSPServerType::BashLanguageServer => "bash-language-server"@,
        LSPServerType::SvelteLanguageServer => "svelteserver"@,
        LSPServerType::VueLanguageServer => "vue-language-server"@,
        LSPServerType::ElixirLs => "elixir-ls"@,
        LSPServerType::ErlangLs => "erlang_ls"@,
        LSPServerType::Hls => "haskell-language-server-wrapper"@,
        LSPServerType::OcamlLsp => "ocamllsp"@,
        LSPServerType::HtmlLanguageServer => "vscode-html-language-server"@,
        LSPServerType::CssLanguageServer => "vscode-css-language-server"@,
        LSPServerType::JsonLanguageServer => "vscode-json-language-server"@,
        LSPServerType::YamlLanguageServer => "yaml-language-server"@,
        LSPServerType::Taplo => "taplo"@,
        LSPServerType::Sqls => "sqls"@,
        LSPServerType::GraphQLLs => "graphql-lsp"@,
        LSPServerType::Lemminx => "lemminx"@,
        LSPServerType::Marksman => "marksman"@,
        LSPServerType::Texlab => "texlab"@,
        LSPServerType::SolidityLanguageServer => "nomicfoundation-solidity-language-server"@,
        LSPServerType::TerraformLs => "terraform-ls"@,
        LSPServerType::DockerfileLs => "docker-langserver"@,
        LSPServerType::CmakeLanguageServer => "cmake-language-server"@,
    }
}

/// The server whose binary is `name`, if any.
pub open spec fn server_of_binary(name: Seq<char>) -> Option<LSPServerType> {
    if name == "rust-analyzer"@ {
        Some(LSPServerType::RustAnalyzer)
    } else if name == "gopls"@ {
        Some(LSPServerType::GoPls)
    } else if name == "pyright-langserver"@ {
        Some(LSPServerType::Pyright)
    } else if name == "typescript-language-server"@ {
        Some(LSPServerType::TypeScriptLanguageServer)
    } else if name == "clangd"@ {
        Some(LSPServerType::Clangd)
    } else if name == "zls"@ {
        Some(LSPServerType::Zls)
    } else if name == "nimlangserver"@ {
        Some(LSPServerType::NimLangServer)
    } else if name == "sourcekit-lsp"@ {
        Some(LSPServerType::SourceKitLsp)
    } else if name == "dart"@ {
        Some(LSPServerType::DartAnalysisServer)
    } else if name == "jdtls"@ {
        Some(LSPServerType::Jdtls)
    } else if name == "kotlin-language-server"@ {
        Some(LSPServerType::KotlinLanguageServer)
    } else if name == "metals"@ {
        Some(LSPServerType::Metals)
    } else if name == "OmniSharp"@ {
        Some(LSPServerType::OmniSharp)
    } else if name == "fsautocomplete"@ {
        Some(LSPServerType::FsAutoComplete)
    } else if name == "solargraph"@ {
        Some(LSPServerType::Solargraph)
    } else if name == "intelephense"@ {
        Some(LSPServerType::Intelephense)
    } else if name == "perlnavigator"@ {
        Some(LSPServerType::PerlNavigator)
    } else if name == "lua-language-server"@ {
        Some(LSPServerType::LuaLanguageServer)
    } else if name == "bash-language-server"@ {
        Some(LSPServerType::BashLanguageServer)
    } else if name == "svelteserver"@ {
        Some(LSPServerType::SvelteLanguageServer)
    } else if name == "vue-language-server"@ {
        Some(LSPServerType::VueLanguageServer)
    } else if name == "elixir-ls"@ {
        Some(LSPServerType::ElixirLs)
    } else if name == "erlang_ls"@ {
        Some(LSPServerType::ErlangLs)
    } else if name == "haskell-language-server-wrapper"@ {
        Some(LSPServerType::Hls)
    } else if name == "ocamllsp"@ {
        Some(LSPServerType::OcamlLsp)
    } else if name == "vscode-html-language-server"@ {
        Some(LSPServerType::HtmlLanguageServer)
    } else if name == "vscode-css-language-server"@ {
        Some(LSPServerType::CssLanguageServer)
    } else if name == "vscode-json-language-server"@ {
        Some(LSPServerType::JsonLanguageServer)
    } else if name == "yaml-language-server"@ {
        Some(LSPServerType::YamlLanguageServer)
    } else if name == "taplo"@ {
        Some(LSPServerType::Taplo)
    } else if name == "sqls"@ {
        Some(LSPServerType::Sqls)
    } else if name == "graphql-lsp"@ {
        Some(LSPServerType::GraphQLLs)
    } else if name == "lemminx"@ {
        Some(LSPServerType::Lemminx)
    } else if name == "marksman"@ {
        Some(LSPServerType::Marksman)
    } else if name == "texlab"@ {
        Some(LSPServerType::Texlab)
    } else if name == "nomicfoundation-solidity-language-server"@ {
        Some(LSPServerType::SolidityLanguageServer)
    } else if name == "terraform-ls"@ {
        Some(LSPServerType::TerraformLs)
    } else if name == "docker-langserver"@ {
        Some(LSPServerType::DockerfileLs)
    } else if name == "cmake-language-server"@ {
        Some(LSPServerType::CmakeLanguageServer)
    } else {
        None
    }
}

/// Every server's binary name is non-empty and names that server alone:
/// two different servers never share a binary.
pub proof fn lemma_binary_names_distinct(s: LSPServerType, t: LSPServerType)
    ensures
        binary_spec(s).len() > 0,
        s != t ==> binary_spec(s) != binary_spec(t),
{
    lemma_binary_names_decode(s);
    lemma_binary_names_decode(t);
}

#[verifier::rlimit(100)]
proof fn lemma_binary_names_decode(t: LSPServerType)
    ensures
        server_of_binary(binary_spec(t)) == Some(t),
        binary_spec(t).len() > 0,
{
    reveal_strlit("rust-analyzer");
    reveal_strlit("gopls");
    reveal_strlit("pyright-langserver");
    reveal_strlit("typescript-language-server");
    reveal_strlit("clangd");
    reveal_strlit("zls");
    reveal_strlit("nimlangserver");
    reveal_strlit("sourcekit-lsp");
    reveal_strlit("dart");
    reveal_strlit("jdtls");
    reveal_strlit("kotlin-language-server");
    reveal_strlit("metals");
    reveal_strlit("OmniSharp");
    reveal_strlit("fsautocomplete");
    reveal_strlit("solargraph");
    reveal_strlit("intelephense");
    reveal_strlit("perlnavigator");
    reveal_strlit("lua-language-server");
    reveal_strlit("bash-language-server");
    reveal_strlit("svelteserver");
    reveal_strlit("vue-language-server");
    reveal_strlit("elixir-ls");
    reveal_strlit("erlang_ls");
    reveal_strlit("haskell-language-server-wrapper");
    reveal_strlit("ocamllsp");
    reveal_strlit("vscode-html-language-server");
    reveal_strlit("vscode-css-language-server");
    reveal_strlit("vscode-json-language-server");
    reveal_strlit("yaml-language-server");
    reveal_strlit("taplo");
    reveal_strlit("sqls");
    reveal_strlit("graphql-lsp");
    reveal_strlit("lemminx");
    reveal_strlit("marksman");
    reveal_strlit("texlab");
    reveal_strlit("nomicfoundation-solidity-language-server");
    reveal_strlit("terraform-ls");
    reveal_strlit("docker-langserver");
    reveal_strlit("cmake-language-server");
    // Names of different lengths differ; those of equal length differ at
    // the index given.
    assert("rust-analyzer"@.len() == 13);
    assert("gopls"@.len() == 5);
    assert("pyright-langserver"@.len() == 18);
    assert("typescript-language-server"@.len() == 26);
    assert("clangd"@.len() == 6);
    assert("zls"@.len() == 3);
    assert("nimlangserver"@.len() == 13);
    assert("sourcekit-lsp"@.len() == 13);
    assert("dart"@.len() == 4);
    assert("jdtls"@.len() == 5);
    assert("kotlin-language-server"@.len() == 22);
    assert("metals"@.len() == 6);
    assert("OmniSharp"@.len() == 9);
    assert("fsautocomplete"@.len() == 14);
    assert("solargraph"@.len() == 10);
    assert("intelephense"@.len() == 12);
    assert("perlnavigator"@.len() == 13);
    assert("lua-language-server"@.len() == 19);
    assert("bash-language-server"@.len() == 20);
    assert("svelteserver"@.len() == 12);
    assert("vue-language-server"@.len() == 19);
    assert("elixir-ls"@.len() == 9);
    assert("erlang_ls"@.len() == 9);
    assert("haskell-language-server-wrapper"@.len() == 31);
    assert("ocamllsp"@.len() == 8);
    assert("vscode-html-language-server"@.len() == 27);
    assert("vscode-css-language-server"@.len() == 26);
    assert("vscode-json-language-server"@.len() == 27);
    assert("yaml-language-server"@.len() == 20);
    assert("taplo"@.len() == 5);
    assert("sqls"@.len() == 4);
    assert("graphql-lsp"@.len() == 11);
    assert("lemminx"@.len() == 7);
    assert("marksman"@.len() == 8);
    assert("texlab"@.len() == 6);
    assert("nomicfoundation-solidity-language-server"@.len() == 40);
    assert("terraform-ls"@.len() == 12);
    assert("docker-langserver"@.len() == 17);
    assert("cmake-language-server"@.len() == 21);
    assert("rust-analyzer"@[0] != "nimlangserver"@[0]);
    assert("rust-analyzer"@[0] != "sourcekit-lsp"@[0]);
    assert("rust-analyzer"@[0] != "perlnavigator"@[0]);
    assert("nimlangserver"@[0] != "sourcekit-lsp"@[0]);
    assert("nimlangserver"@[0] != "perlnavigator"@[0]);
    assert("sourcekit-lsp"@[0] != "perlnavigator"@[0]);
    assert("gopls"@[0] != "jdtls"@[0]);
    assert("gopls"@[0] != "taplo"@[0]);
    assert("jdtls"@[0] != "taplo"@[0]);
    assert("typescript-language-server"@[0] != "vscode-css-language-server"@[0]);
    assert("clangd"@[0] != "metals"@[0]);
    assert("clangd"@[0] != "texlab"@[0]);
    assert("metals"@[0] != "texlab"@[0]);
    assert("dart"@[0] != "sqls"@[0]);
    assert("OmniSharp"@[0] != "elixir-ls"@[0]);
    assert("OmniSharp"@[0] != "erlang_ls"@[0]);
    assert("elixir-ls"@[1] != "erlang_ls"@[1]);
    assert("intelephense"@[0] != "svelteserver"@[0]);
    assert("intelephense"@[0] != "terraform-ls"@[0]);
    assert("svelteserver"@[0] != "terraform-ls"@[0]);
    assert("lua-language-server"@[0] != "vue-language-server"@[0]);
    assert("bash-language-server"@[0] != "yaml-language-server"@[0]);
    assert("ocamllsp"@[0] != "marksman"@[0]);
    assert("vscode-html-language-server"@[7] != "vscode-json-language-server"@[7]);
    match t {
        LSPServerType::RustAnalyzer => {},
        LSPServerType::GoPls => {},
        LSPServerType::Pyright => {},
        LSPServerType::TypeScriptLanguageServer => {},
        LSPServerType::Clangd => {},
        LSPServerType::Zls => {},
        LSPServerType::NimLangServer => {},
        LSPServerType::SourceKitLsp => {},
        LSPServerType::DartAnalysisServer => {},
        LSPServerType::Jdtls => {},
        LSPServerType::KotlinLanguageServer => {},
        LSPServerType::Metals => {},
        LSPServerType::OmniSharp => {},
        LSPServerType::FsAutoComplete => {},
        LSPServerType::Solargraph => {},
        LSPServerType::Intelephense => {},
        LSPServerType::PerlNavigator => {},
        LSPServerType::LuaLanguageServer => {},
        LSPServerType::BashLanguageServer => {},
        LSPServerType::SvelteLanguageServer => {},
        LSPServerType::VueLanguageServer => {},
        LSPServerType::ElixirLs => {},
        LSPServerType::ErlangLs => {},
        LSPServerType::Hls => {},
        LSPServerType::OcamlLsp => {},
        LSPServerType::HtmlLanguageServer => {},
        LSPServerType::CssLanguageServer => {},
        LSPServerType::JsonLanguageServer => {},
        LSPServerType::YamlLanguageServer => {},
        LSPServerType::Taplo => {},
        LSPServerType::Sqls => {},
        LSPServerType::GraphQLLs => {},
        LSPServerType::Lemminx => {},
        LSPServerType::Marksman => {},
        LSPServerType::Texlab => {},
        LSPServerType::SolidityLanguageServer => {},
        LSPServerType::TerraformLs => {},
        LSPServerType::DockerfileLs => {},
        LSPServerType::CmakeLanguageServer => {},
    }
}


/// Arguments for a server found on the PATH.
pub open spec fn args_spec(t: LSPServerType) -> Seq<&'static str> {
    match t {
        LSPServerType::RustAnalyzer => seq![],
        LSPServerType::GoPls => seq![],
        LSPServerType::Pyright => seq!["--stdio"],
        LSPServerType::TypeScriptLanguageServer => seq!["--stdio"],
        LSPServerType::Clangd => seq![],
        LSPServerType::Zls => seq![],
        LSPServerType::NimLangServer => seq![],
        LSPServerType::SourceKitLsp => seq![],
        LSPServerType::DartAnalysisServer => seq!["language-server", "--protocol=lsp"],
        LSPServerType::Jdtls => seq![],
        LSPServerType::KotlinLanguageServer => seq![],
        LSPServerType::Metals => seq![],
        LSPServerType::OmniSharp => seq!["-lsp"],
        LSPServerType::FsAutoComplete => seq!["--stdio"],
        LSPServerType::Solargraph => seq!["stdio"],
        LSPServerType::Intelephense => seq!["--stdio"],
        LSPServerType::PerlNavigator => seq!["--stdio"],
        LSPServerType::LuaLanguageServer => seq!["--stdio"],
        LSPServerType::BashLanguageServer => seq!["start"],
        LSPServerType::SvelteLanguageServer => seq!["--stdio"],
        LSPServerType::VueLanguageServer => seq!["--stdio"],
        LSPServerType::ElixirLs => seq![],
        LSPServerType::ErlangLs => seq![],
        LSPServerType::Hls => seq!["--lsp"],
        LSPServerType::OcamlLsp => seq![],
        LSPServerType::HtmlLanguageServer => seq!["--stdio"],
        LSPServerType::CssLanguageServer => seq!["--stdio"],
        LSPServerType::JsonLanguageServer => seq!["--stdio"],
        LSPServerType::YamlLanguageServer => seq!["--stdio"],
        LSPServerType::Taplo => seq!["lsp", "stdio"],
        LSPServerType::Sqls => seq![],
        LSPServerType::GraphQLLs => seq!["server", "-m", "stream"],
        LSPServerType::Lemminx => seq![],
        LSPServerType::Marksman => seq!["server"],
        LSPServerType::Texlab => seq![],
        LSPServerType::SolidityLanguageServer => seq!["--stdio"],
        LSPServerType::TerraformLs => seq!["serve"],
        LSPServerType::DockerfileLs => seq!["--stdio"],
        LSPServerType::CmakeLanguageServer => seq![],
    }
}

/// Arguments for a server from a custom installation: the first five
/// servers have their own, every other server reuses its PATH arguments.
pub open spec fn custom_args_spec(t: LSPServerType) -> Seq<&'static str> {
    match t {
        LSPServerType::RustAnalyzer => seq![],
        LSPServerType::GoPls => seq![],
        LSPServerType::Pyright => seq!["--stdio"],
        LSPServerType::TypeScriptLanguageServer => seq!["--stdio"],
        LSPServerType::Clangd => seq![],
        _ => args_spec(t),
    }
}

pub open spec fn languages_spec(t: LSPServerType) -> Seq<LanguageId> {
    match t {
        LSPServerType::RustAnalyzer => seq![LanguageId::Rust],
        LSPServerType::GoPls => seq![LanguageId::Go],
        LSPServerType::Pyright => seq![LanguageId::Python],
        LSPServerType::TypeScriptLanguageServer => seq![LanguageId::TypeScript, LanguageId::TypeScriptReact, LanguageId::JavaScript, LanguageId::JavaScriptReact],
        LSPServerType::Clangd => seq![LanguageId::C, LanguageId::Cpp],
        LSPServerType::Zls => seq![LanguageId::Zig],
        LSPServerType::NimLangServer => seq![LanguageId::Nim],
        LSPServerType::SourceKitLsp => seq![LanguageId::Swift],
        LSPServerType::DartAnalysisServer => seq![LanguageId::Dart],
        LSPServerType::Jdtls => seq![LanguageId::Java],
        LSPServerType::KotlinLanguageServer => seq![LanguageId::Kotlin],
        LSPServerType::Metals => seq![LanguageId::Scala],
        LSPServerType::OmniSharp => seq![LanguageId::CSharp],
        LSPServerType::FsAutoComplete => seq![LanguageId::FSharp],
        LSPServerType::Solargraph => seq![LanguageId::Ruby],
        LSPServerType::Intelephense => seq![LanguageId::PHP],
        LSPServerType::PerlNavigator => seq![LanguageId::Perl],
        LSPServerType::LuaLanguageServer => seq![LanguageId::Lua],
        LSPServerType::BashLanguageServer => seq![LanguageId::Bash],
        LSPServerType::SvelteLanguageServer => seq![LanguageId::Svelte],
        LSPServerType::VueLanguageServer => seq![LanguageId::Vue],
        LSPServerType::ElixirLs => seq![LanguageId::Elixir],
        LSPServerType::ErlangLs => seq![LanguageId::Erlang],
        LSPServerType::Hls => seq![LanguageId::Haskell],
        LSPServerType::OcamlLsp => seq![LanguageId::OCaml],
        LSPServerType::HtmlLanguageServer => seq![LanguageId::Html],
        LSPServerType::CssLanguageServer => seq![LanguageId::Css, LanguageId::Scss, LanguageId::Less],
        LSPServerType::JsonLanguageServer => seq![LanguageId::Json, LanguageId::Jsonc],
        LSPServerType::YamlLanguageServer => seq![LanguageId::Yaml],
        LSPServerType::Taplo => seq![LanguageId::Toml],
        LSPServerType::Sqls => seq![LanguageId::Sql],
        LSPServerType::GraphQLLs => seq![LanguageId::GraphQL],
        LSPServerType::Lemminx => seq![LanguageId::Xml],
        LSPServerType::Marksman => seq![LanguageId::Markdown],
        LSPServerType::Texlab => seq![LanguageId::LaTeX],
        LSPServerType::SolidityLanguageServer => seq![LanguageId::Solidity],
        LSPServerType::TerraformLs => seq![LanguageId::Terraform],
        LSPServerType::DockerfileLs => seq![LanguageId::Dockerfile],
        LSPServerType::CmakeLanguageServer => seq![LanguageId::CMake],
    }
}

/// The first character upper-cased.
pub open spec fn capitalized(s: Seq<char>) -> Seq<char> {
    if s.len() == 0 {
        s
    } else {
        seq![upper_char(s[0])] + s.skip(1)
    }
}

/// A server's display name: four servers have fixed names; the others
/// join their languages' identifiers, capitalised, with `/`.
pub open spec fn language_name_spec(t: LSPServerType) -> Seq<char> {
    match t {
        LSPServerType::TypeScriptLanguageServer => "TypeScript/JavaScript"@,
        LSPServerType::CssLanguageServer => "CSS/SCSS/Less"@,
        LSPServerType::JsonLanguageServer => "JSON"@,
        LSPServerType::Clangd => "C/C++"@,
        _ => joined(languages_spec(t).map_values(|l: LanguageId| capitalized(identifier_spec(l))), "/"@),
    }
}

/// Binary, health-check arguments, project markers and source
/// extensions of the servers detected by the generic rule; the first
/// five servers have dedicated detection instead.
pub open spec fn generic_spec(t: LSPServerType) -> Option<(&'static str, Seq<&'static str>, Seq<&'static str>, Seq<&'static str>)> {
    match t {
        LSPServerType::RustAnalyzer => None,
        LSPServerType::GoPls => None,
        LSPServerType::Pyright => None,
        LSPServerType::TypeScriptLanguageServer => None,
        LSPServerType::Clangd => None,
        LSPServerType::Zls => Some(("zls", seq!["--version"], seq!["build.zig", "build.zig.zon"], seq!["zig"])),
        LSPServerType::NimLangServer => Some(("nimlangserver", seq!["--version"], seq![], seq!["nim", "nims", "nimble"])),
        LSPServerType::SourceKitLsp => Some(("sourcekit-lsp", seq!["--help"], seq!["Package.swift"], seq!["swift"])),
        LSPServerType::DartAnalysisServer => Some(("dart", seq!["--version"], seq!["pubspec.yaml"], seq!["dart"])),
        LSPServerType::Jdtls => Some(("jdtls", seq!["--version"], seq!["pom.xml", "build.gradle", "build.gradle.kts", ".classpath"], seq!["java"])),
        LSPServerType::KotlinLanguageServer => Some(("kotlin-language-server", seq!["--version"], seq!["build.gradle.kts", "build.gradle"], seq!["kt", "kts"])),
        LSPServerType::Metals => Some(("metals", seq!["--version"], seq!["build.sbt", "build.sc"], seq!["scala", "sc"])),
        LSPServerType::OmniSharp => Some(("OmniSharp", seq!["--version"], seq![], seq!["cs"])),
        LSPServerType::FsAutoComplete => Some(("fsautocomplete", seq!["--version"], seq![], seq!["fs", "fsx", "fsi"])),
        LSPServerType::Solargraph => Some(("solargraph", seq!["--version"], seq!["Gemfile", ".ruby-version"], seq!["rb"])),
        LSPServerType::Intelephense => Some(("intelephense", seq!["--version"], seq!["composer.json"], seq!["php"])),
        LSPServerType::PerlNavigator => Some(("perlnavigator", seq!["--version"], seq!["Makefile.PL", "Build.PL", "cpanfile"], seq!["pl", "pm"])),
        LSPServerType::LuaLanguageServer => Some(("lua-language-server", seq!["--version"], seq![".luarc.json", ".luacheckrc"], seq!["lua"])),
        LSPServerType::BashLanguageServer => Some(("bash-language-server", seq!["--version"], seq![], seq!["sh", "bash", "zsh"])),
        LSPServerType::SvelteLanguageServer => Some(("svelteserver", seq!["--version"], seq!["svelte.config.js", "svelte.config.ts"], seq!["svelte"])),
        LSPServerType::VueLanguageServer => Some(("vue-language-server", seq!["--version"], seq!["vue.config.js", "vite.config.ts", "vite.config.js"], seq!["vue"])),
        LSPServerType::ElixirLs => Some(("elixir-ls", seq!["--version"], seq!["mix.exs"], seq!["ex", "exs"])),
        LSPServerType::ErlangLs => Some(("erlang_ls", seq!["--version"], seq!["rebar.config", "erlang.mk"], seq!["erl", "hrl"])),
        LSPServerType::Hls => Some(("haskell-language-server-wrapper", seq!["--version"], seq!["stack.yaml", "cabal.project"], seq!["hs", "lhs"])),
        LSPServerType::OcamlLsp => Some(("ocamllsp", seq!["--version"], seq!["dune-project"], seq!["ml", "mli"])),
        LSPServerType::HtmlLanguageServer => Some(("vscode-html-language-server", seq!["--version"], seq![], seq!["html", "htm"])),
        LSPServerType::CssLanguageServer => Some(("vscode-css-language-server", seq!["--version"], seq![], seq!["css", "scss", "less"])),
        LSPServerType::JsonLanguageServer => Some(("vscode-json-language-server", seq!["--version"], seq![], seq!["json", "jsonc"])),
        LSPServerType::YamlLanguageServer => Some(("yaml-language-server", seq!["--version"], seq![], seq!["yaml", "yml"])),
        LSPServerType::Taplo => Some(("taplo", seq!["--version"], seq![], seq!["toml"])),
        LSPServerType::Sqls => Some(("sqls", seq!["--version"], seq![], seq!["sql"])),
        LSPServerType::GraphQLLs => Some(("graphql-lsp", seq!["--version"], seq![".graphqlrc", ".graphqlconfig", ".graphqlrc.yml"], seq!["graphql", "gql"])),
        LSPServerType::Lemminx => Some(("lemminx", seq!["--version"], seq![], seq!["xml", "xsl", "xsd"])),
        LSPServerType::Marksman => Some(("marksman", seq!["--version"], seq![], seq!["md", "markdown"])),
        LSPServerType::Texlab => Some(("texlab", seq!["--version"], seq![], seq!["tex", "bib"])),
        LSPServerType::SolidityLanguageServer => Some(("nomicfoundation-solidity-language-server", seq!["--version"], seq!["hardhat.config.js", "hardhat.config.ts", "foundry.toml", "truffle-config.js", "brownie-config.yaml"], seq!["sol"])),
        LSPServerType::TerraformLs => Some(("terraform-ls", seq!["--version"], seq![], seq!["tf", "tfvars"])),
        LSPServerType::DockerfileLs => Some(("docker-langserver", seq!["--version"], seq!["Dockerfile", "dockerfile", "Containerfile"], seq![])),
        LSPServerType::CmakeLanguageServer => Some(("cmake-language-server", seq!["--version"], seq!["CMakeLists.txt"], seq!["cmake"])),
    }
}

/// A server detected by the common rule: a binary on the PATH that
/// answers a health check, suggested for repositories that hold one
/// of its marker files or, in their root, a source file it handles.
#[derive(Debug, Clone)]
pub struct GenericLspCandidate {
    pub binary_name: &'static str,
    pub version_args: Vec<&'static str>,
    pub project_markers: Vec<&'static str>,
    pub source_extensions: Vec<&'static str>,
}

/// How a server is detected and installed.
#[derive(Debug, Clone)]
pub enum LspCandidate {
    /// Detection of its own, for one of the first five servers.
    Dedicated(LSPServerType),
    Generic(GenericLspCandidate),
}

/// Whether `name` is one of `exts`.
pub open spec fn listed(exts: Seq<&'static str>, name: Seq<char>) -> bool {
    exists|k: int| 0 <= k < exts.len() && (#[trigger] exts[k])@ == name
}

/// A candidate's suggestion rule, given which markers exist and the
/// regular files of the root (`None` when the root cannot be listed).
pub open spec fn suggests(
    c: GenericLspCandidate,
    marker_exists: Seq<bool>,
    root_files: Option<Seq<Seq<char>>>,
) -> bool {
    ||| exists|i: int| 0 <= i < c.project_markers@.len() && #[trigger] marker_exists[i]
    ||| (c.source_extensions@.len() > 0 && match root_files {
        Some(fs) => exists|j: int|
            0 <= j < fs.len() && match extension(#[trigger] fs[j]) {
                Some(e) => listed(c.source_extensions@, e),
                None => false,
            },
        None => false,
    })
}

fn seq_str_eq(v: &Vec<&'static str>, name: &Vec<char>) -> (b: bool)
    ensures
        b == listed(v@, name@),
{
    let mut k: usize = 0;
    while k < v.len()
        invariant
            k <= v.len(),
            forall|q: int| 0 <= q < k ==> (#[trigger] v@[q])@ != name@,
        decreases v.len() - k,
    {
        let c = chars_of(v[k]);
        if chars_eq(&c, name) {
            return true;
        }
        k = k + 1;
    }
    false
}

impl GenericLspCandidate {
    pub fn new(
        binary_name: &'static str,
        version_args: Vec<&'static str>,
        project_markers: Vec<&'static str>,
        source_extensions: Vec<&'static str>,
    ) -> (r: Self)
        ensures
            r.binary_name == binary_name,
            r.version_args@ == version_args@,
            r.project_markers@ == project_markers@,
            r.source_extensions@ == source_extensions@,
    {
        GenericLspCandidate { binary_name, version_args, project_markers, source_extensions }
    }

    /// Whether to suggest this server for a repository: `marker_exists[i]`
    /// says whether `project_markers[i]` exists in its root, and
    /// `root_files` names the regular files of the root, or is `None`
    /// when the root cannot be listed.
    pub fn should_suggest_for_repo(&self, marker_exists: &Vec<bool>, root_files: &Option<Vec<String>>) -> (r: bool)
        requires
            marker_exists@.len() == self.project_markers@.len(),
        ensures
            r == suggests(*self, marker_exists@, match root_files {
                Some(fs) => Some(fs@.map_values(|f: String| f@)),
                None => None,
            }),
    {
        let mut i: usize = 0;
        while i < marker_exists.len()
            invariant
                i <= marker_exists@.len(),
                marker_exists@.len() == self.project_markers@.len(),
                forall|q: int| 0 <= q < i ==> !marker_exists@[q],
            decreases marker_exists.len() - i,
        {
            if marker_exists[i] {
                assert(marker_exists@[i as int]);
                return true;
            }
            i = i + 1;
        }
        if self.source_extensions.len() == 0 {
            return false;
        }
        match root_files {
            None => false,
            Some(fs) => {
                let ghost F = fs@.map_values(|f: String| f@);
                let mut j: usize = 0;
                while j < fs.len()
                    invariant
                        F == fs@.map_values(|f: String| f@),
                        j <= fs@.len(),
                        self.source_extensions@.len() > 0,
                        match root_files {
                            Some(x) => x@ == fs@,
                            None => false,
                        },
                        forall|q: int|
                            0 <= q < j ==> match extension(#[trigger] F[q]) {
                                Some(e) => !listed(self.source_extensions@, e),
                                None => true,
                            },
                    decreases fs.len() - j,
                {
                    let name = chars_of(fs[j].as_str());
                    assert(F[j as int] == name@);
                    match extension_of(&name) {
                        Some(e) => {
                            if seq_str_eq(&self.source_extensions, &e) {
                                assert(extension(F[j as int]) == Some(e@));
                                return true;
                            }
                        },
                        None => {},
                    }
                    j = j + 1;
                }
                false
            },
        }
    }
}

fn push_capitalized(out: &mut Vec<char>, id: &Vec<char>)
    ensures
        final(out)@ == old(out)@ + capitalized(id@),
{
    let ghost before = out@;
    if id.len() > 0 {
        out.push(ascii_uppercase(id[0]));
        let mut k: usize = 1;
        while k < id.len()
            invariant
                1 <= k <= id@.len(),
                out@ == before + seq![upper_char(id@[0])] + id@.subrange(1, k as int),
            decreases id.len() - k,
        {
            out.push(id[k]);
            proof {
                assert(id@.subrange(1, k + 1) =~= id@.subrange(1, k as int).push(id@[k as int]));
            }
            k = k + 1;
        }
        proof {
            assert(id@.subrange(1, id@.len() as int) =~= id@.skip(1));
        }
    }
    assert(out@ =~= before + capitalized(id@));
}

fn join_capitalized(langs: &Vec<LanguageId>) -> (out: Vec<char>)
    ensures
        out@ == joined(langs@.map_values(|l: LanguageId| capitalized(identifier_spec(l))), "/"@),
{
    let ghost parts = langs@.map_values(|l: LanguageId| capitalized(identifier_spec(l)));
    let mut out: Vec<char> = Vec::new();
    let mut i: usize = 0;
    proof {
        reveal_strlit("/");
    }
    assert(parts.take(0) =~= Seq::<Seq<char>>::empty());
    while i < langs.len()
        invariant
            i <= langs@.len(),
            parts == langs@.map_values(|l: LanguageId| capitalized(identifier_spec(l))),
            out@ == joined(parts.take(i as int), "/"@),
            "/"@ == seq!['/'],
        decreases langs.len() - i,
    {
        assert(parts.take(i + 1).drop_last() =~= parts.take(i as int));
        let ghost before = out@;
        if i > 0 {
            out.push('/');
        }
        let id = chars_of(langs[i].lsp_language_identifier());
        push_capitalized(&mut out, &id);
        proof {
            assert(parts.take(i + 1)[i as int] == capitalized(id@));
            if i == 0 {
                assert(parts.take(1) =~= seq![capitalized(id@)]);
                assert(before =~= Seq::<char>::empty());
            }
            assert(out@ =~= joined(parts.take(i + 1), "/"@));
        }
        i = i + 1;
    }
    assert(parts.take(langs@.len() as int) =~= parts);
    out
}

impl LSPServerType {
    /// Every server, in declaration order.
    pub fn all() -> (r: Vec<LSPServerType>)
        ensures
            r@ == all_servers(),
    {
        let r = vec![
            LSPServerType::RustAnalyzer,
            LSPServerType::GoPls,
            LSPServerType::Pyright,
            LSPServerType::TypeScriptLanguageServer,
            LSPServerType::Clangd,
            LSPServerType::Zls,
            LSPServerType::NimLangServer,
            LSPServerType::SourceKitLsp,
            LSPServerType::DartAnalysisServer,
            LSPServerType::Jdtls,
            LSPServerType::KotlinLanguageServer,
            LSPServerType::Metals,
            LSPServerType::OmniSharp,
            LSPServerType::FsAutoComplete,
            LSPServerType::Solargraph,
            LSPServerType::Intelephense,
            LSPServerType::PerlNavigator,
            LSPServerType::LuaLanguageServer,
            LSPServerType::BashLanguageServer,
            LSPServerType::SvelteLanguageServer,
            LSPServerType::VueLanguageServer,
            LSPServerType::ElixirLs,
            LSPServerType::ErlangLs,
            LSPServerType::Hls,
            LSPServerType::OcamlLsp,
            LSPServerType::HtmlLanguageServer,
            LSPServerType::CssLanguageServer,
            LSPServerType::JsonLanguageServer,
            LSPServerType::YamlLanguageServer,
            LSPServerType::Taplo,
            LSPServerType::Sqls,
            LSPServerType::GraphQLLs,
            LSPServerType::Lemminx,
            LSPServerType::Marksman,
            LSPServerType::Texlab,
            LSPServerType::SolidityLanguageServer,
            LSPServerType::TerraformLs,
            LSPServerType::DockerfileLs,
            LSPServerType::CmakeLanguageServer,
        ];
        assert(r@ =~= all_servers());
        r
    }

    /// The executable to look for on the PATH.
    pub fn binary_name(&self) -> (r: &'static str)
        ensures
            r@ == binary_spec(*self),
    {
        match self {
            LSPServerType::RustAnalyzer => "rust-analyzer",
            LSPServerType::GoPls => "gopls",
            LSPServerType::Pyright => "pyright-langserver",
            LSPServerType::TypeScriptLanguageServer => "typescript-language-server",
            LSPServerType::Clangd => "clangd",
            LSPServerType::Zls => "zls",
            LSPServerType::NimLangServer => "nimlangserver",
            LSPServerType::SourceKitLsp => "sourcekit-lsp",
            LSPServerType::DartAnalysisServer => "dart",
            LSPServerType::Jdtls => "jdtls",
            LSPServerType::KotlinLanguageServer => "kotlin-language-server",
            LSPServerType::Metals => "metals",
            LSPServerType::OmniSharp => "OmniSharp",
            LSPServerType::FsAutoComplete => "fsautocomplete",
            LSPServerType::Solargraph => "solargraph",
            LSPServerType::Intelephense => "intelephense",
            LSPServerType::PerlNavigator => "perlnavigator",
            LSPServerType::LuaLanguageServer => "lua-language-server",
            LSPServerType::BashLanguageServer => "bash-language-server",
            LSPServerType::SvelteLanguageServer => "svelteserver",
            LSPServerType::VueLanguageServer => "vue-language-server",
            LSPServerType::ElixirLs => "elixir-ls",
            LSPServerType::ErlangLs => "erlang_ls",
            LSPServerType::Hls => "haskell-language-server-wrapper",
            LSPServerType::OcamlLsp => "ocamllsp",
            LSPServerType::HtmlLanguageServer => "vscode-html-language-server",
            LSPServerType::CssLanguageServer => "vscode-css-language-server",
            LSPServerType::JsonLanguageServer => "vscode-json-language-server",
            LSPServerType::YamlLanguageServer => "yaml-language-server",
            LSPServerType::Taplo => "taplo",
            LSPServerType::Sqls => "sqls",
            LSPServerType::GraphQLLs => "graphql-lsp",
            LSPServerType::Lemminx => "lemminx",
            LSPServerType::Marksman => "marksman",
            LSPServerType::Texlab => "texlab",
            LSPServerType::SolidityLanguageServer => "nomicfoundation-solidity-language-server",
            LSPServerType::TerraformLs => "terraform-ls",
            LSPServerType::DockerfileLs => "docker-langserver",
            LSPServerType::CmakeLanguageServer => "cmake-language-server",
        }
    }

    /// Arguments for running the server found on the PATH.
    pub fn args(&self) -> (r: Vec<&'static str>)
        ensures
            r@ == args_spec(*self),
    {
        let r = match self {
            LSPServerType::RustAnalyzer => Vec::new(),
            LSPServerType::GoPls => Vec::new(),
            LSPServerType::Pyright => vec!["--stdio"],
            LSPServerType::TypeScriptLanguageServer => vec!["--stdio"],
            LSPServerType::Clangd => Vec::new(),
            LSPServerType::Zls => Vec::new(),
            LSPServerType::NimLangServer => Vec::new(),
            LSPServerType::SourceKitLsp => Vec::new(),
            LSPServerType::DartAnalysisServer => vec!["language-server", "--protocol=lsp"],
            LSPServerType::Jdtls => Vec::new(),
            LSPServerType::KotlinLanguageServer => Vec::new(),
            LSPServerType::Metals => Vec::new(),
            LSPServerType::OmniSharp => vec!["-lsp"],
            LSPServerType::FsAutoComplete => vec!["--stdio"],
            LSPServerType::Solargraph => vec!["stdio"],
            LSPServerType::Intelephense => vec!["--stdio"],
            LSPServerType::PerlNavigator => vec!["--stdio"],
            LSPServerType::LuaLanguageServer => vec!["--stdio"],
            LSPServerType::BashLanguageServer => vec!["start"],
            LSPServerType::SvelteLanguageServer => vec!["--stdio"],
            LSPServerType::VueLanguageServer => vec!["--stdio"],
            LSPServerType::ElixirLs => Vec::new(),
            LSPServerType::ErlangLs => Vec::new(),
            LSPServerType::Hls => vec!["--lsp"],
            LSPServerType::OcamlLsp => Vec::new(),
            LSPServerType::HtmlLanguageServer => vec!["--stdio"],
            LSPServerType::CssLanguageServer => vec!["--stdio"],
            LSPServerType::JsonLanguageServer => vec!["--stdio"],
            LSPServerType::YamlLanguageServer => vec!["--stdio"],
            LSPServerType::Taplo => vec!["lsp", "stdio"],
            LSPServerType::Sqls => Vec::new(),
            LSPServerType::GraphQLLs => vec!["server", "-m", "stream"],
            LSPServerType::Lemminx => Vec::new(),
            LSPServerType::Marksman => vec!["server"],
            LSPServerType::Texlab => Vec::new(),
            LSPServerType::SolidityLanguageServer => vec!["--stdio"],
            LSPServerType::TerraformLs => vec!["serve"],
            LSPServerType::DockerfileLs => vec!["--stdio"],
            LSPServerType::CmakeLanguageServer => Vec::new(),
        };
        assert(r@ =~= args_spec(*self));
        r
    }

    /// The program and arguments that start this server: a custom
    /// installation's binary with its prepended arguments and then the
    /// custom-installation arguments, else the binary on the PATH with
    /// its usual arguments.
    pub fn create_command(&self, custom_config: Option<CustomBinaryConfig>) -> (r: CommandLine)
        ensures
            match custom_config {
                Some(c) => r.program@ == c.binary_path@ && strs_view(r.args@) == strs_view(c.prepend_args@)
                    + statics_view(custom_args_spec(*self)),
                None => r.program@ == binary_spec(*self) && strs_view(r.args@) == statics_view(args_spec(*self)),
            },
    {
        match custom_config {
            Some(config) => {
                let mut args: Vec<String> = Vec::new();
                let ghost prepend = config.prepend_args@;
                for i in 0..config.prepend_args.len()
                    invariant
                        prepend == config.prepend_args@,
                        strs_view(args@) == strs_view(prepend.take(i as int)),
                {
                    args.push(string_of(&chars_of(config.prepend_args[i].as_str())));
                    let ghost n = i + 1;
                    assert(strs_view(prepend.take(n)) =~= strs_view(prepend.take(i as int)).push(prepend[i as int]@));
                    assert(strs_view(args@) =~= strs_view(prepend.take(n)));
                }
                assert(prepend.take(prepend.len() as int) =~= prepend);
                let extra = self.custom_install_args();
                let ghost before = strs_view(args@);
                for j in 0..extra.len()
                    invariant
                        strs_view(args@) == before + statics_view(extra@.take(j as int)),
                {
                    args.push(string_of(&chars_of(extra[j])));
                    let ghost n = j + 1;
                    assert(statics_view(extra@.take(n)) =~= statics_view(extra@.take(j as int)).push(extra[j as int]@));
                    assert(before + statics_view(extra@.take(n)) =~= (before + statics_view(extra@.take(j as int))).push(extra[j as int]@));
                    assert(strs_view(args@) =~= before + statics_view(extra@.take(n)));
                }
                assert(extra@.take(extra@.len() as int) =~= extra@);
                CommandLine { program: config.binary_path, args }
            },
            None => {
                let base = self.args();
                let mut args: Vec<String> = Vec::new();
                for j in 0..base.len()
                    invariant
                        strs_view(args@) == statics_view(base@.take(j as int)),
                {
                    args.push(string_of(&chars_of(base[j])));
                    let ghost n = j + 1;
                    assert(statics_view(base@.take(n)) =~= statics_view(base@.take(j as int)).push(base[j as int]@));
                    assert(strs_view(args@) =~= statics_view(base@.take(n)));
                }
                assert(base@.take(base@.len() as int) =~= base@);
                CommandLine { program: string_of(&chars_of(self.binary_name())), args }
            },
        }
    }

    /// Arguments for running the server from a custom installation,
    /// after the installation's own prepended arguments.
    pub fn custom_install_args(&self) -> (r: Vec<&'static str>)
        ensures
            r@ == custom_args_spec(*self),
    {
        match self {
            LSPServerType::RustAnalyzer => {
                let r = Vec::new();
                assert(r@ =~= custom_args_spec(*self));
                r
            },
            LSPServerType::GoPls => {
                let r = Vec::new();
                assert(r@ =~= custom_args_spec(*self));
                r
            },
            LSPServerType::Pyright => {
                let r = vec!["--stdio"];
                assert(r@ =~= custom_args_spec(*self));
                r
            },
            LSPServerType::TypeScriptLanguageServer => {
                let r = vec!["--stdio"];
                assert(r@ =~= custom_args_spec(*self));
                r
            },
            LSPServerType::Clangd => {
                let r = Vec::new();
                assert(r@ =~= custom_args_spec(*self));
                r
            },
            _ => self.args(),
        }
    }

    /// The languages this server handles.
    pub fn languages(&self) -> (r: Vec<LanguageId>)
        ensures
            r@ == languages_spec(*self),
    {
        let r = match self {
            LSPServerType::RustAnalyzer => vec![LanguageId::Rust],
            LSPServerType::GoPls => vec![LanguageId::Go],
            LSPServerType::Pyright => vec![LanguageId::Python],
            LSPServerType::TypeScriptLanguageServer => vec![LanguageId::TypeScript, LanguageId::TypeScriptReact, LanguageId::JavaScript, LanguageId::JavaScriptReact],
            LSPServerType::Clangd => vec![LanguageId::C, LanguageId::Cpp],
            LSPServerType::Zls => vec![LanguageId::Zig],
            LSPServerType::NimLangServer => vec![LanguageId::Nim],
            LSPServerType::SourceKitLsp => vec![LanguageId::Swift],
            LSPServerType::DartAnalysisServer => vec![LanguageId::Dart],
            LSPServerType::Jdtls => vec![LanguageId::Java],
            LSPServerType::KotlinLanguageServer => vec![LanguageId::Kotlin],
            LSPServerType::Metals => vec![LanguageId::Scala],
            LSPServerType::OmniSharp => vec![LanguageId::CSharp],
            LSPServerType::FsAutoComplete => vec![LanguageId::FSharp],
            LSPServerType::Solargraph => vec![LanguageId::Ruby],
            LSPServerType::Intelephense => vec![LanguageId::PHP],
            LSPServerType::PerlNavigator => vec![LanguageId::Perl],
            LSPServerType::LuaLanguageServer => vec![LanguageId::Lua],
            LSPServerType::BashLanguageServer => vec![LanguageId::Bash],
            LSPServerType::SvelteLanguageServer => vec![LanguageId::Svelte],
            LSPServerType::VueLanguageServer => vec![LanguageId::Vue],
            LSPServerType::ElixirLs => vec![LanguageId::Elixir],
            LSPServerType::ErlangLs => vec![LanguageId::Erlang],
            LSPServerType::Hls => vec![LanguageId::Haskell],
            LSPServerType::OcamlLsp => vec![LanguageId::OCaml],
            LSPServerType::HtmlLanguageServer => vec![LanguageId::Html],
            LSPServerType::CssLanguageServer => vec![LanguageId::Css, LanguageId::Scss, LanguageId::Less],
            LSPServerType::JsonLanguageServer => vec![LanguageId::Json, LanguageId::Jsonc],
            LSPServerType::YamlLanguageServer => vec![LanguageId::Yaml],
            LSPServerType::Taplo => vec![LanguageId::Toml],
            LSPServerType::Sqls => vec![LanguageId::Sql],
            LSPServerType::GraphQLLs => vec![LanguageId::GraphQL],
            LSPServerType::Lemminx => vec![LanguageId::Xml],
            LSPServerType::Marksman => vec![LanguageId::Markdown],
            LSPServerType::Texlab => vec![LanguageId::LaTeX],
            LSPServerType::SolidityLanguageServer => vec![LanguageId::Solidity],
            LSPServerType::TerraformLs => vec![LanguageId::Terraform],
            LSPServerType::DockerfileLs => vec![LanguageId::Dockerfile],
            LSPServerType::CmakeLanguageServer => vec![LanguageId::CMake],
        };
        assert(r@ =~= languages_spec(*self));
        r
    }

    /// Display name of the languages this server handles.
    pub fn language_name(&self) -> (r: String)
        ensures
            r@ == language_name_spec(*self),
    {
        match self {
            LSPServerType::TypeScriptLanguageServer => string_of(&chars_of("TypeScript/JavaScript")),
            LSPServerType::CssLanguageServer => string_of(&chars_of("CSS/SCSS/Less")),
            LSPServerType::JsonLanguageServer => string_of(&chars_of("JSON")),
            LSPServerType::Clangd => string_of(&chars_of("C/C++")),
            _ => {
                let langs = self.languages();
                string_of(&join_capitalized(&langs))
            },
        }
    }

    /// How this server is detected.
    pub fn candidate(&self) -> (r: LspCandidate)
        ensures
            match r {
                LspCandidate::Dedicated(t) => t == *self && generic_spec(*self) is None,
                LspCandidate::Generic(g) => generic_spec(*self) == Some(
                    (g.binary_name, g.version_args@, g.project_markers@, g.source_extensions@),
                ),
            },
    {
        match self {
            LSPServerType::RustAnalyzer => LspCandidate::Dedicated(*self),
            LSPServerType::GoPls => LspCandidate::Dedicated(*self),
            LSPServerType::Pyright => LspCandidate::Dedicated(*self),
            LSPServerType::TypeScriptLanguageServer => LspCandidate::Dedicated(*self),
            LSPServerType::Clangd => LspCandidate::Dedicated(*self),
            LSPServerType::Zls => {
                let g = GenericLspCandidate::new("zls", vec!["--version"], vec!["build.zig", "build.zig.zon"], vec!["zig"]);
                assert(g.version_args@ =~= seq!["--version"]);
                assert(g.project_markers@ =~= seq!["build.zig", "build.zig.zon"]);
                assert(g.source_extensions@ =~= seq!["zig"]);
                LspCandidate::Generic(g)
            },
            LSPServerType::NimLangServer => {
                let g = GenericLspCandidate::new("nimlangserver", vec!["--version"], Vec::new(), vec!["nim", "nims", "nimble"]);
                assert(g.version_args@ =~= seq!["--version"]);
                assert(g.project_markers@ =~= seq![]);
                assert(g.source_extensions@ =~= seq!["nim", "nims", "nimble"]);
                LspCandidate::Generic(g)
            },
            LSPServerType::SourceKitLsp => {
                let g = GenericLspCandidate::new("sourcekit-lsp", vec!["--help"], vec!["Package.swift"], vec!["swift"]);
                assert(g.version_args@ =~= seq!["--help"]);
                assert(g.project_markers@ =~= seq!["Package.swift"]);
                assert(g.source_extensions@ =~= seq!["swift"]);
                LspCandidate::Generic(g)
            },
            LSPServerType::DartAnalysisServer => {
                let g = GenericLspCandidate::new("dart", vec!["--version"], vec!["pubspec.yaml"], vec!["dart"]);
                assert(g.version_args@ =~= seq!["--version"]);
                assert(g.project_markers@ =~= seq!["pubspec.yaml"]);
                assert(g.source_extensions@ =~= seq!["dart"]);
                LspCandidate::Generic(g)
            },
            LSPServerType::Jdtls => {
                let g = GenericLspCandidate::new("jdtls", vec!["--version"], vec!["pom.xml", "build.gradle", "build.gradle.kts", ".classpath"], vec!["java"]);
                assert(g.version_args@ =~= seq!["--version"]);
                assert(g.project_markers@ =~= seq!["pom.xml", "build.gradle", "build.gradle.kts", ".classpath"]);
                assert(g.source_extensions@ =~= seq!["java"]);
                LspCandidate::Generic(g)
            },
            LSPServerType::KotlinLanguageServer => {
                let g = GenericLspCandidate::new("kotlin-language-server", vec!["--version"], vec!["build.gradle.kts", "build.gradle"], vec!["kt", "kts"]);
                assert(g.version_args@ =~= seq!["--version"]);
                assert(g.project_markers@ =~= seq!["build.gradle.kts", "build.gradle"]);
                assert(g.source_extensions@ =~= seq!["kt", "kts"]);
                LspCandidate::Generic(g)
            },
            LSPServerType::Metals => {
                let g = GenericLspCandidate::new("metals", vec!["--version"], vec!["build.sbt", "build.sc"], vec!["scala", "sc"]);
                assert(g.version_args@ =~= seq!["--version"]);
                assert(g.project_markers@ =~= seq!["build.sbt", "build.sc"]);
                assert(g.source_extensions@ =~= seq!["scala", "sc"]);
                LspCandidate::Generic(g)
            },
            LSPServerType::OmniSharp => {
                let g = GenericLspCandidate::new("OmniSharp", vec!["--version"], Vec::new(), vec!["cs"]);
                assert(g.version_args@ =~= seq!["--version"]);
                assert(g.project_markers@ =~= seq![]);
                assert(g.source_extensions@ =~= seq!["cs"]);
                LspCandidate::Generic(g)
            },
            LSPServerType::FsAutoComplete => {
                let g = GenericLspCandidate::new("fsautocomplete", vec!["--version"], Vec::new(), vec!["fs", "fsx", "fsi"]);
                assert(g.version_args@ =~= seq!["--version"]);
                assert(g.project_markers@ =~= seq![]);
                assert(g.source_extensions@ =~= seq!["fs", "fsx", "fsi"]);
                LspCandidate::Generic(g)
            },
            LSPServerType::Solargraph => {
                let g = GenericLspCandidate::new("solargraph", vec!["--version"], vec!["Gemfile", ".ruby-version"], vec!["rb"]);
                assert(g.version_args@ =~= seq!["--version"]);
                assert(g.project_markers@ =~= seq!["Gemfile", ".ruby-version"]);
                assert(g.source_extensions@ =~= seq!["rb"]);
                LspCandidate::Generic(g)
            },
            LSPServerType::Intelephense => {
                let g = GenericLspCandidate::new("intelephense", vec!["--version"], vec!["composer.json"], vec!["php"]);
                assert(g.version_args@ =~= seq!["--version"]);
                assert(g.project_markers@ =~= seq!["composer.json"]);
                assert(g.source_extensions@ =~= seq!["php"]);
                LspCandidate::Generic(g)
            },
            LSPServerType::PerlNavigator => {
                let g = GenericLspCandidate::new("perlnavigator", vec!["--version"], vec!["Makefile.PL", "Build.PL", "cpanfile"], vec!["pl", "pm"]);
                assert(g.version_args@ =~= seq!["--version"]);
                assert(g.project_markers@ =~= seq!["Makefile.PL", "Build.PL", "cpanfile"]);
                assert(g.source_extensions@ =~= seq!["pl", "pm"]);
                LspCandidate::Generic(g)
            },
            LSPServerType::LuaLanguageServer => {
                let g = GenericLspCandidate::new("lua-language-server", vec!["--version"], vec![".luarc.json", ".luacheckrc"], vec!["lua"]);
                assert(g.version_args@ =~= seq!["--version"]);
                assert(g.project_markers@ =~= seq![".luarc.json", ".luacheckrc"]);
                assert(g.source_extensions@ =~= seq!["lua"]);
                LspCandidate::Generic(g)
            },
            LSPServerType::BashLanguageServer => {
                let g = GenericLspCandidate::new("bash-language-server", vec!["--version"], Vec::new(), vec!["sh", "bash", "zsh"]);
                assert(g.version_args@ =~= seq!["--version"]);
                assert(g.project_markers@ =~= seq![]);
                assert(g.source_extensions@ =~= seq!["sh", "bash", "zsh"]);
                LspCandidate::Generic(g)
            },
            LSPServerType::SvelteLanguageServer => {
                let g = GenericLspCandidate::new("svelteserver", vec!["--version"], vec!["svelte.config.js", "svelte.config.ts"], vec!["svelte"]);
                assert(g.version_args@ =~= seq!["--version"]);
                assert(g.project_markers@ =~= seq!["svelte.config.js", "svelte.config.ts"]);
                assert(g.source_extensions@ =~= seq!["svelte"]);
                LspCandidate::Generic(g)
            },
            LSPServerType::VueLanguageServer => {
                let g = GenericLspCandidate::new("vue-language-server", vec!["--version"], vec!["vue.config.js", "vite.config.ts", "vite.config.js"], vec!["vue"]);
                assert(g.version_args@ =~= seq!["--version"]);
                assert(g.project_markers@ =~= seq!["vue.config.js", "vite.config.ts", "vite.config.js"]);
                assert(g.source_extensions@ =~= seq!["vue"]);
                LspCandidate::Generic(g)
            },
            LSPServerType::ElixirLs => {
                let g = GenericLspCandidate::new("elixir-ls", vec!["--version"], vec!["mix.exs"], vec!["ex", "exs"]);
                assert(g.version_args@ =~= seq!["--version"]);
                assert(g.project_markers@ =~= seq!["mix.exs"]);
                assert(g.source_extensions@ =~= seq!["ex", "exs"]);
                LspCandidate::Generic(g)
            },
            LSPServerType::ErlangLs => {
                let g = GenericLspCandidate::new("erlang_ls", vec!["--version"], vec!["rebar.config", "erlang.mk"], vec!["erl", "hrl"]);
                assert(g.version_args@ =~= seq!["--version"]);
                assert(g.project_markers@ =~= seq!["rebar.config", "erlang.mk"]);
                assert(g.source_extensions@ =~= seq!["erl", "hrl"]);
                LspCandidate::Generic(g)
            },
            LSPServerType::Hls => {
                let g = GenericLspCandidate::new("haskell-language-server-wrapper", vec!["--version"], vec!["stack.yaml", "cabal.project"], vec!["hs", "lhs"]);
                assert(g.version_args@ =~= seq!["--version"]);
                assert(g.project_markers@ =~= seq!["stack.yaml", "cabal.project"]);
                assert(g.source_extensions@ =~= seq!["hs", "lhs"]);
                LspCandidate::Generic(g)
            },
            LSPServerType::OcamlLsp => {
                let g = GenericLspCandidate::new("ocamllsp", vec!["--version"], vec!["dune-project"], vec!["ml", "mli"]);
                assert(g.version_args@ =~= seq!["--version"]);
                assert(g.project_markers@ =~= seq!["dune-project"]);
                assert(g.source_extensions@ =~= seq!["ml", "mli"]);
                LspCandidate::Generic(g)
            },
            LSPServerType::HtmlLanguageServer => {
                let g = GenericLspCandidate::new("vscode-html-language-server", vec!["--version"], Vec::new(), vec!["html", "htm"]);
                assert(g.version_args@ =~= seq!["--version"]);
                assert(g.project_markers@ =~= seq![]);
                assert(g.source_extensions@ =~= seq!["html", "htm"]);
                LspCandidate::Generic(g)
            },
            LSPServerType::CssLanguageServer => {
                let g = GenericLspCandidate::new("vscode-css-language-server", vec!["--version"], Vec::new(), vec!["css", "scss", "less"]);
                assert(g.version_args@ =~= seq!["--version"]);
                assert(g.project_markers@ =~= seq![]);
                assert(g.source_extensions@ =~= seq!["css", "scss", "less"]);
                LspCandidate::Generic(g)
            },
            LSPServerType::JsonLanguageServer => {
                let g = GenericLspCandidate::new("vscode-json-language-server", vec!["--version"], Vec::new(), vec!["json", "jsonc"]);
                assert(g.version_args@ =~= seq!["--version"]);
                assert(g.project_markers@ =~= seq![]);
                assert(g.source_extensions@ =~= seq!["json", "jsonc"]);
                LspCandidate::Generic(g)
            },
            LSPServerType::YamlLanguageServer => {
                let g = GenericLspCandidate::new("yaml-language-server", vec!["--version"], Vec::new(), vec!["yaml", "yml"]);
                assert(g.version_args@ =~= seq!["--version"]);
                assert(g.project_markers@ =~= seq![]);
                assert(g.source_extensions@ =~= seq!["yaml", "yml"]);
                LspCandidate::Generic(g)
            },
            LSPServerType::Taplo => {
                let g = GenericLspCandidate::new("taplo", vec!["--version"], Vec::new(), vec!["toml"]);
                assert(g.version_args@ =~= seq!["--version"]);
                assert(g.project_markers@ =~= seq![]);
                assert(g.source_extensions@ =~= seq!["toml"]);
                LspCandidate::Generic(g)
            },
            LSPServerType::Sqls => {
                let g = GenericLspCandidate::new("sqls", vec!["--version"], Vec::new(), vec!["sql"]);
                assert(g.version_args@ =~= seq!["--version"]);
                assert(g.project_markers@ =~= seq![]);
                assert(g.source_extensions@ =~= seq!["sql"]);
                LspCandidate::Generic(g)
            },
            LSPServerType::GraphQLLs => {
                let g = GenericLspCandidate::new("graphql-lsp", vec!["--version"], vec![".graphqlrc", ".graphqlconfig", ".graphqlrc.yml"], vec!["graphql", "gql"]);
                assert(g.version_args@ =~= seq!["--version"]);
                assert(g.project_markers@ =~= seq![".graphqlrc", ".graphqlconfig", ".graphqlrc.yml"]);
                assert(g.source_extensions@ =~= seq!["graphql", "gql"]);
                LspCandidate::Generic(g)
            },
            LSPServerType::Lemminx => {
                let g = GenericLspCandidate::new("lemminx", vec!["--version"], Vec::new(), vec!["xml", "xsl", "xsd"]);
                assert(g.version_args@ =~= seq!["--version"]);
                assert(g.project_markers@ =~= seq![]);
                assert(g.source_extensions@ =~= seq!["xml", "xsl", "xsd"]);
                LspCandidate::Generic(g)
            },
            LSPServerType::Marksman => {
                let g = GenericLspCandidate::new("marksman", vec!["--version"], Vec::new(), vec!["md", "markdown"]);
                assert(g.version_args@ =~= seq!["--version"]);
                assert(g.project_markers@ =~= seq![]);
                assert(g.source_extensions@ =~= seq!["md", "markdown"]);
                LspCandidate::Generic(g)
            },
            LSPServerType::Texlab => {
                let g = GenericLspCandidate::new("texlab", vec!["--version"], Vec::new(), vec!["tex", "bib"]);
                assert(g.version_args@ =~= seq!["--version"]);
                assert(g.project_markers@ =~= seq![]);
                assert(g.source_extensions@ =~= seq!["tex", "bib"]);
                LspCandidate::Generic(g)
            },
            LSPServerType::SolidityLanguageServer => {
                let g = GenericLspCandidate::new("nomicfoundation-solidity-language-server", vec!["--version"], vec!["hardhat.config.js", "hardhat.config.ts", "foundry.toml", "truffle-config.js", "brownie-config.yaml"], vec!["sol"]);
                assert(g.version_args@ =~= seq!["--version"]);
                assert(g.project_markers@ =~= seq!["hardhat.config.js", "hardhat.config.ts", "foundry.toml", "truffle-config.js", "brownie-config.yaml"]);
                assert(g.source_extensions@ =~= seq!["sol"]);
                LspCandidate::Generic(g)
            },
            LSPServerType::TerraformLs => {
                let g = GenericLspCandidate::new("terraform-ls", vec!["--version"], Vec::new(), vec!["tf", "tfvars"]);
                assert(g.version_args@ =~= seq!["--version"]);
                assert(g.project_markers@ =~= seq![]);
                assert(g.source_extensions@ =~= seq!["tf", "tfvars"]);
                LspCandidate::Generic(g)
            },
            LSPServerType::DockerfileLs => {
                let g = GenericLspCandidate::new("docker-langserver", vec!["--version"], vec!["Dockerfile", "dockerfile", "Containerfile"], Vec::new());
                assert(g.version_args@ =~= seq!["--version"]);
                assert(g.project_markers@ =~= seq!["Dockerfile", "dockerfile", "Containerfile"]);
                assert(g.source_extensions@ =~= seq![]);
                LspCandidate::Generic(g)
            },
            LSPServerType::CmakeLanguageServer => {
                let g = GenericLspCandidate::new("cmake-language-server", vec!["--version"], vec!["CMakeLists.txt"], vec!["cmake"]);
                assert(g.version_args@ =~= seq!["--version"]);
                assert(g.project_markers@ =~= seq!["CMakeLists.txt"]);
                assert(g.source_extensions@ =~= seq!["cmake"]);
                LspCandidate::Generic(g)
            },
        }
    }
}

/// A generic candidate checks for the very binary the server runs.
pub proof fn lemma_generic_candidate_checks_server_binary(t: LSPServerType)
    ensures
        generic_spec(t) matches Some(g) ==> g.0@ == binary_spec(t),
{
}

} // verus!
