use wish_core::languages::{extract_functions, Language};

#[test]
fn rust_extractor_handles_visibility_async_test() {
    let src = "pub fn a() {}\nasync fn b() {}\n#[test]\nfn c() {}\n";
    let f = extract_functions(Language::Rust, src);
    assert_eq!(f.len(), 3);
    assert!(f[0].is_pub);
    assert!(f[1].is_async);
    assert!(f[2].is_test);
}

#[test]
fn python_extractor_handles_def_class_async_and_test() {
    let src = "
def alpha():
    pass

async def beta(x):
    return x

class Gamma:
    def method(self):
        pass

def test_delta():
    assert True

def _private():
    pass

@pytest.mark.parametrize('x', [1,2])
def epsilon(x):
    pass
";
    let f = extract_functions(Language::Python, src);
    let names: Vec<&str> = f.iter().map(|p| p.name.as_str()).collect();
    assert_eq!(
        names,
        vec!["alpha", "beta", "Gamma", "method", "test_delta", "_private", "epsilon"]
    );
    let beta = f.iter().find(|p| p.name == "beta").unwrap();
    assert!(beta.is_async);
    let delta = f.iter().find(|p| p.name == "test_delta").unwrap();
    assert!(delta.is_test);
    let private = f.iter().find(|p| p.name == "_private").unwrap();
    assert!(!private.is_pub);
    let eps = f.iter().find(|p| p.name == "epsilon").unwrap();
    assert!(eps.is_test, "@pytest.mark decorator should set is_test");
}

#[test]
fn ts_extractor_handles_function_arrow_class_interface_type() {
    let src = "
export function alpha() {}
export async function beta() {}
export const gamma = () => 1;
export const delta = async (x) => x;
class Epsilon {}
interface Zeta { x: number }
type Eta = { y: string };
let _internal = () => 0;
function test_thing() {}
";
    let f = extract_functions(Language::TypeScript, src);
    let names: Vec<&str> = f.iter().map(|p| p.name.as_str()).collect();
    assert_eq!(
        names,
        vec!["alpha", "beta", "gamma", "delta", "Epsilon", "Zeta", "Eta", "_internal", "test_thing"]
    );
    assert!(f.iter().find(|p| p.name == "beta").unwrap().is_async);
    assert!(f.iter().find(|p| p.name == "delta").unwrap().is_async);
    assert!(f.iter().find(|p| p.name == "test_thing").unwrap().is_test);
}

#[test]
fn go_extractor_handles_func_method_struct_interface() {
    let src = "
package x

func Alpha() {}
func (r *T) Beta(x int) int { return x }
func gamma() {}
type Delta struct { x int }
type Epsilon interface { Read() }
func TestZeta(t *testing.T) {}
";
    let f = extract_functions(Language::Go, src);
    let names: Vec<&str> = f.iter().map(|p| p.name.as_str()).collect();
    assert_eq!(names, vec!["Alpha", "Beta", "gamma", "Delta", "Epsilon", "TestZeta"]);
    assert!(f.iter().find(|p| p.name == "Alpha").unwrap().is_pub);
    assert!(!f.iter().find(|p| p.name == "gamma").unwrap().is_pub);
    assert!(f.iter().find(|p| p.name == "TestZeta").unwrap().is_test);
}

#[test]
fn language_from_path_covers_common_extensions() {
    assert_eq!(Language::from_path("a.rs"), Some(Language::Rust));
    assert_eq!(Language::from_path("a.py"), Some(Language::Python));
    assert_eq!(Language::from_path("a.pyi"), Some(Language::Python));
    assert_eq!(Language::from_path("a.ts"), Some(Language::TypeScript));
    assert_eq!(Language::from_path("a.tsx"), Some(Language::TypeScript));
    assert_eq!(Language::from_path("a.js"), Some(Language::JavaScript));
    assert_eq!(Language::from_path("a.go"), Some(Language::Go));
    assert_eq!(Language::from_path("a.txt"), None);
}

#[test]
fn extract_functions_from_text_finds_pub_async_test_and_plain_fns() {
    let src = r#"
//! A doc comment
use std::fmt;

pub fn alpha() {}

async fn beta(x: i32) -> i32 { x }

pub(crate) async fn gamma<T>(t: T) -> T { t }

#[test]
fn delta_test() {
    assert_eq!(1, 1);
}

// pub fn commented_out() {}     <-- must NOT be detected

fn epsilon(
    arg: i32,
) -> i32 {
    arg
}
"#;
    let funcs = extract_functions(Language::Rust, src);
    let names: Vec<&str> = funcs.iter().map(|f| f.name.as_str()).collect();
    assert_eq!(names, vec!["alpha", "beta", "gamma", "delta_test", "epsilon"]);
    let alpha = funcs.iter().find(|f| f.name == "alpha").unwrap();
    assert!(alpha.is_pub);
    assert!(!alpha.is_async);
    assert!(!alpha.is_test);
    let beta = funcs.iter().find(|f| f.name == "beta").unwrap();
    assert!(!beta.is_pub);
    assert!(beta.is_async);
    let gamma = funcs.iter().find(|f| f.name == "gamma").unwrap();
    assert!(gamma.is_pub);
    assert!(gamma.is_async);
    let delta = funcs.iter().find(|f| f.name == "delta_test").unwrap();
    assert!(delta.is_test);
}

#[test]
fn extraction_reports_one_based_lines_and_handles_crlf() {
    let src = "fn a() {}\r\n\r\nfn b() {}\r\n";
    let f = extract_functions(Language::Rust, src);
    assert_eq!(f.len(), 2);
    assert_eq!(f[0].line, 1);
    assert_eq!(f[1].line, 3);
    assert_eq!(Language::from_path("dir.v2/Makefile"), None);
    assert_eq!(Language::from_path("src/.hidden"), None);
    assert_eq!(Language::from_path("src/MAIN.RS"), Some(Language::Rust));
    assert_eq!(Language::Go.label(), "go");
}
