//! Multi-language function and symbol extractors.
//!
//! Line-based recognisers for Rust, Python, TypeScript/JavaScript and
//! Go. Each catches the shape of a declaration (name, visibility,
//! asyncness, test-ness) without resolving call sites, and every
//! language yields the same `ParsedFn`.
use vstd::prelude::*;
use crate::text::{
    ascii_lower, ascii_lower_chars, chars_eq_str, lower_char,
    char_is_alphanumeric, chars_of, contains, contains_str, find_char, find_char_in, is_ascii_upper,
    lemma_find_char_range, lemma_name_len_range, lines, lines_of, name_len, name_len_of, skip_chars,
    slice_chars, starts_with, starts_with_str, string_of, strip_prefix_str, trim, trim_chars,
    trim_start, trim_start_chars, is_name_char, is_ws,
};

verus! {

/// Source language detected from a file extension.
#[derive(Debug, Clone, Copy, PartialEq, Eq, Hash, Structural)]
pub enum Language {
    Rust,
    Python,
    TypeScript,
    JavaScript,
    Go,
}

/// A parsed declaration. Language quirks (decorators, exports,
/// receivers) collapse into the three flags.
#[derive(Debug, Clone)]
pub struct ParsedFn {
    pub name: String,
    pub line: u32,
    pub is_test: bool,
    pub is_pub: bool,
    pub is_async: bool,
}

/// (name, 1-based line, is_test, is_pub, is_async)
pub type DeclSpec = (Seq<char>, u32, bool, bool, bool);

pub open spec fn decl_of(p: ParsedFn) -> DeclSpec {
    (p.name@, p.line, p.is_test, p.is_pub, p.is_async)
}

pub open spec fn decls_match(v: Seq<ParsedFn>, s: Seq<DeclSpec>) -> bool {
    v.len() == s.len() && forall|i: int| 0 <= i < v.len() ==> #[trigger] decl_of(v[i]) == s[i]
}

/// The language an extension (without the dot) names, ignoring ASCII case.
pub open spec fn language_of_extension(ext: Seq<char>) -> Option<Language> {
    let e = ascii_lower(ext);
    if e == "rs"@ {
        Some(Language::Rust)
    } else if e == "py"@ || e == "pyi"@ {
        Some(Language::Python)
    } else if e == "ts"@ || e == "tsx"@ {
        Some(Language::TypeScript)
    } else if e == "js"@ || e == "jsx"@ || e == "mjs"@ || e == "cjs"@ {
        Some(Language::JavaScript)
    } else if e == "go"@ {
        Some(Language::Go)
    } else {
        None
    }
}

/// Last position of `c` in `s`, if any.
pub open spec fn rfind_char(s: Seq<char>, c: char) -> Option<int>
    decreases s.len(),
{
    if s.len() == 0 {
        None
    } else if s.last() == c {
        Some(s.len() - 1)
    } else {
        rfind_char(s.drop_last(), c)
    }
}

/// The final path component (after the last `/`).
pub open spec fn file_name(path: Seq<char>) -> Seq<char> {
    match rfind_char(path, '/') {
        Some(i) => path.skip(i + 1),
        None => path,
    }
}

/// The extension of a path: what follows the last `.` of its file
/// name, unless that dot opens the name.
pub open spec fn extension(path: Seq<char>) -> Option<Seq<char>> {
    let name = file_name(path);
    match rfind_char(name, '.') {
        Some(i) => if i > 0 {
            Some(name.skip(i + 1))
        } else {
            None
        },
        None => None,
    }
}

pub proof fn lemma_rfind_char_range(s: Seq<char>, c: char)
    ensures
        rfind_char(s, c) matches Some(i) ==> 0 <= i < s.len() && s[i] == c && forall|j: int|
            i < j < s.len() ==> s[j] != c,
        rfind_char(s, c) is None ==> forall|j: int| 0 <= j < s.len() ==> s[j] != c,
    decreases s.len(),
{
    if s.len() > 0 {
        lemma_rfind_char_range(s.drop_last(), c);
        assert forall|j: int| 0 <= j < s.len() - 1 implies s.drop_last()[j] == s[j] by {}
    }
}

fn rfind_char_in(s: &Vec<char>, c: char) -> (r: Option<usize>)
    ensures
        r == (match rfind_char(s@, c) {
            Some(i) => Some(i as usize),
            None => None::<usize>,
        }),
{
    let mut j: usize = s.len();
    assert(s@.take(j as int) =~= s@);
    while j > 0
        invariant
            j <= s.len(),
            rfind_char(s@, c) == rfind_char(s@.take(j as int), c),
        decreases j,
    {
        if s[j - 1] == c {
            return Some(j - 1);
        }
        assert(s@.take(j as int).drop_last() =~= s@.take(j - 1));
        j = j - 1;
    }
    None
}

/// The extension of a path, as `extension` defines it.
pub fn extension_of(p: &Vec<char>) -> (r: Option<Vec<char>>)
    ensures
        match r {
            Some(e) => extension(p@) == Some(e@),
            None => extension(p@) is None,
        },
{
    let _n = p.len();
    let name = match rfind_char_in(p, '/') {
        Some(i) => {
            proof {
                lemma_rfind_char_range(p@, '/');
            }
            skip_chars(p, i + 1)
        },
        None => p.clone(),
    };
    assert(name@ == file_name(p@));
    match rfind_char_in(&name, '.') {
        Some(i) => {
            proof {
                lemma_rfind_char_range(name@, '.');
            }
            if i > 0 {
                Some(skip_chars(&name, i + 1))
            } else {
                None
            }
        },
        None => None,
    }
}

impl Language {
    /// Detect a language from an extension (without the dot), ignoring
    /// ASCII case.
    pub fn from_extension(ext: &str) -> (r: Option<Language>)
        ensures
            r == language_of_extension(ext@),
    {
        let e = ascii_lower_chars(&chars_of(ext));
        if chars_eq_str(&e, "rs") {
            Some(Language::Rust)
        } else if chars_eq_str(&e, "py") || chars_eq_str(&e, "pyi") {
            Some(Language::Python)
        } else if chars_eq_str(&e, "ts") || chars_eq_str(&e, "tsx") {
            Some(Language::TypeScript)
        } else if chars_eq_str(&e, "js") || chars_eq_str(&e, "jsx") || chars_eq_str(&e, "mjs")
            || chars_eq_str(&e, "cjs") {
            Some(Language::JavaScript)
        } else if chars_eq_str(&e, "go") {
            Some(Language::Go)
        } else {
            None
        }
    }

    /// Detect a language from a `/`-separated path's extension. `None`
    /// for unknown or missing extensions.
    pub fn from_path(path: &str) -> (r: Option<Language>)
        ensures
            r == (match extension(path@) {
                Some(e) => language_of_extension(e),
                None => None::<Language>,
            }),
    {
        let p = chars_of(path);
        match extension_of(&p) {
            Some(ext) => {
                let s = string_of(&ext);
                Language::from_extension(s.as_str())
            },
            None => None,
        }
    }

    pub fn label(self) -> (s: &'static str)
        ensures
            s@ == (match self {
                Language::Rust => "rust"@,
                Language::Python => "python"@,
                Language::TypeScript => "typescript"@,
                Language::JavaScript => "javascript"@,
                Language::Go => "go"@,
            }),
    {
        match self {
            Language::Rust => "rust",
            Language::Python => "python",
            Language::TypeScript => "typescript",
            Language::JavaScript => "javascript",
            Language::Go => "go",
        }
    }
}

// ─────────────────────────────────────────────────────────────────────
// Shared pieces
// ─────────────────────────────────────────────────────────────────────

/// Strip `p` and the whitespace after it, when `s` starts with `p`.
pub open spec fn strip_then_trim(s: Seq<char>, p: Seq<char>) -> Seq<char> {
    if starts_with(s, p) {
        trim_start(s.skip(p.len() as int))
    } else {
        s
    }
}

fn strip_then_trim_chars(s: Vec<char>, p: &str) -> (r: Vec<char>)
    ensures
        r@ == strip_then_trim(s@, p@),
{
    match strip_prefix_str(&s, p) {
        Some(rest) => trim_start_chars(&rest),
        None => s,
    }
}

fn make_fn(name: &Vec<char>, line: u32, is_test: bool, is_pub: bool, is_async: bool) -> (p: ParsedFn)
    ensures
        decl_of(p) == (name@, line, is_test, is_pub, is_async),
{
    ParsedFn { name: string_of(name), line, is_test, is_pub, is_async }
}

fn first_is(s: &Vec<char>, c: char) -> (b: bool)
    ensures
        b == (s@.len() > 0 && s@[0] == c),
{
    s.len() > 0 && s[0] == c
}

// ─────────────────────────────────────────────────────────────────────
// Rust
// ─────────────────────────────────────────────────────────────────────

/// Recognise one Rust `fn` declaration line.
pub open spec fn rust_signature(line: Seq<char>, line_no: u32, prev: Seq<char>) -> Option<DeclSpec> {
    let s = trim_start(line);
    let is_pub = starts_with(s, "pub "@) || starts_with(s, "pub("@);
    let r0: Option<Seq<char>> = if !is_pub {
        Some(s)
    } else if starts_with(s, "pub("@) {
        match find_char(s, ')') {
            Some(end) => Some(s.skip(end + 1)),
            None => None,
        }
    } else {
        Some(s.skip(3))
    };
    match r0 {
        None => None,
        Some(r0) => {
            let r1 = trim_start(r0);
            let is_async = starts_with(r1, "async "@);
            let r2 = if is_async {
                trim_start(r1.skip("async "@.len() as int))
            } else {
                r1
            };
            let r3 = strip_then_trim(
                strip_then_trim(strip_then_trim(strip_then_trim(r2, "const "@), "unsafe "@), "extern \"C\" "@),
                "extern "@,
            );
            if !starts_with(r3, "fn "@) {
                None
            } else {
                let rest = r3.skip("fn "@.len() as int);
                let n = name_len(rest, false);
                let after = trim_start(rest.skip(n));
                if n == 0 {
                    None
                } else if !(after.len() > 0 && (after[0] == '(' || after[0] == '<')) {
                    None
                } else {
                    Some((rest.take(n), (line_no + 1) as u32, contains(prev, "#[test]"@), is_pub, is_async))
                }
            }
        },
    }
}

/// Parse one Rust declaration line (`line_no` is 0-based).
pub fn parse_rust_signature(line: &Vec<char>, line_no: u32, prev_line: &Vec<char>) -> (r: Option<ParsedFn>)
    requires
        line_no < u32::MAX,
    ensures
        match r {
            Some(p) => rust_signature(line@, line_no, prev_line@) == Some(decl_of(p)),
            None => rust_signature(line@, line_no, prev_line@) is None,
        },
{
    let s = trim_start_chars(line);
    let is_pub = starts_with_str(&s, "pub ") || starts_with_str(&s, "pub(");
    let r0 = if !is_pub {
        s
    } else if starts_with_str(&s, "pub(") {
        match find_char_in(&s, ')') {
            Some(end) => {
                proof {
                    lemma_find_char_range(s@, ')');
                    assert(find_char(s@, ')') is Some);
                    assert(end < s@.len());
                }
                skip_chars(&s, end + 1)
            },
            None => {
                return None;
            },
        }
    } else {
        proof {
            reveal_strlit("pub ");
        }
        skip_chars(&s, 3)
    };
    let r1 = trim_start_chars(&r0);
    let is_async = starts_with_str(&r1, "async ");
    let r2 = if is_async {
        match strip_prefix_str(&r1, "async ") {
            Some(t) => trim_start_chars(&t),
            None => r1,
        }
    } else {
        r1
    };
    let r3 = strip_then_trim_chars(r2, "const ");
    let r3 = strip_then_trim_chars(r3, "unsafe ");
    let r3 = strip_then_trim_chars(r3, "extern \"C\" ");
    let r3 = strip_then_trim_chars(r3, "extern ");
    let rest = match strip_prefix_str(&r3, "fn ") {
        Some(t) => t,
        None => {
            return None;
        },
    };
    let n = name_len_of(&rest, false);
    proof {
        lemma_name_len_range(rest@, false);
    }
    if n == 0 {
        return None;
    }
    let after = trim_start_chars(&skip_chars(&rest, n));
    if !(first_is(&after, '(') || first_is(&after, '<')) {
        return None;
    }
    let is_test = contains_str(prev_line, "#[test]");
    let name = slice_chars(&rest, 0, n);
    Some(make_fn(&name, line_no + 1, is_test, is_pub, is_async))
}

/// The line a Rust declaration on line `i` sees above it: the trimmed
/// previous line, or nothing on the first line.
pub open spec fn prev_trimmed(ls: Seq<Seq<char>>, i: int) -> Seq<char> {
    if i <= 0 {
        Seq::empty()
    } else {
        trim(ls[i - 1])
    }
}

/// Declarations found in the first `n` lines.
pub open spec fn rust_decls(ls: Seq<Seq<char>>, n: int) -> Seq<DeclSpec>
    decreases n,
{
    if n <= 0 {
        Seq::empty()
    } else {
        let before = rust_decls(ls, n - 1);
        let line = trim_start(ls[n - 1]);
        if starts_with(line, "//"@) {
            before
        } else {
            match rust_signature(line, (n - 1) as u32, trim(prev_trimmed(ls, n - 1))) {
                Some(d) => before.push(d),
                None => before,
            }
        }
    }
}

fn extract_rust(text: &Vec<char>) -> (out: Vec<ParsedFn>)
    requires
        lines(text@).len() < u32::MAX,
    ensures
        decls_match(out@, rust_decls(lines(text@), lines(text@).len() as int)),
{
    let ls = lines_of(text);
    let ghost L = lines(text@);
    let mut out: Vec<ParsedFn> = Vec::new();
    let mut prev: Vec<char> = Vec::new();
    let mut idx: usize = 0;
    while idx < ls.len()
        invariant
            L == lines(text@),
            ls@.len() == L.len(),
            L.len() < u32::MAX,
            forall|i: int| 0 <= i < ls@.len() ==> #[trigger] ls@[i]@ == L[i],
            idx <= ls@.len(),
            prev@ == prev_trimmed(L, idx as int),
            decls_match(out@, rust_decls(L, idx as int)),
        decreases ls.len() - idx,
    {
        let line = trim_start_chars(&ls[idx]);
        if !starts_with_str(&line, "//") {
            let pt = trim_chars(&prev);
            match parse_rust_signature(&line, idx as u32, &pt) {
                Some(p) => {
                    out.push(p);
                },
                None => {},
            }
        }
        proof {
            assert(ls@[idx as int]@ == L[idx as int]);
        }
        prev = trim_chars(&ls[idx]);
        idx = idx + 1;
    }
    out
}

// ─────────────────────────────────────────────────────────────────────
// Python
// ─────────────────────────────────────────────────────────────────────

/// Recognise a Python `def` / `async def` / `class` line.
pub open spec fn python_signature(line: Seq<char>, line_no: u32, prev_test_decorator: bool) -> Option<DeclSpec> {
    let s = trim_start(line);
    let head: Option<(Seq<char>, bool)> = if starts_with(s, "async def "@) {
        Some((s.skip("async def "@.len() as int), true))
    } else if starts_with(s, "def "@) {
        Some((s.skip("def "@.len() as int), false))
    } else if starts_with(s, "class "@) {
        Some((s.skip("class "@.len() as int), false))
    } else {
        None
    };
    match head {
        None => None,
        Some((rest, is_async)) => {
            let n = name_len(rest, false);
            let name = rest.take(n);
            let next = trim_start(rest.skip(n));
            if n == 0 {
                None
            } else if !(next.len() > 0 && (next[0] == '(' || next[0] == ':')) {
                None
            } else {
                Some(
                    (
                        name,
                        (line_no + 1) as u32,
                        prev_test_decorator || starts_with(name, "test_"@),
                        !(name[0] == '_'),
                        is_async,
                    ),
                )
            }
        },
    }
}

fn parse_python_signature(line: &Vec<char>, line_no: u32, prev_test_decorator: bool) -> (r: Option<ParsedFn>)
    requires
        line_no < u32::MAX,
    ensures
        match r {
            Some(p) => python_signature(line@, line_no, prev_test_decorator) == Some(decl_of(p)),
            None => python_signature(line@, line_no, prev_test_decorator) is None,
        },
{
    let s = trim_start_chars(line);
    let (rest, is_async) = match strip_prefix_str(&s, "async def ") {
        Some(t) => (t, true),
        None => match strip_prefix_str(&s, "def ") {
            Some(t) => (t, false),
            None => match strip_prefix_str(&s, "class ") {
                Some(t) => (t, false),
                None => {
                    return None;
                },
            },
        },
    };
    let n = name_len_of(&rest, false);
    proof {
        lemma_name_len_range(rest@, false);
    }
    if n == 0 {
        return None;
    }
    let name = slice_chars(&rest, 0, n);
    let next = trim_start_chars(&skip_chars(&rest, n));
    if !(first_is(&next, '(') || first_is(&next, ':')) {
        return None;
    }
    let is_pub = !(name[0] == '_');
    let is_test = prev_test_decorator || starts_with_str(&name, "test_");
    Some(make_fn(&name, line_no + 1, is_test, is_pub, is_async))
}

/// Declarations and the pending-test-decorator flag after `n` lines.
pub open spec fn python_scan(ls: Seq<Seq<char>>, n: int) -> (Seq<DeclSpec>, bool)
    decreases n,
{
    if n <= 0 {
        (Seq::empty(), false)
    } else {
        let (before, flag) = python_scan(ls, n - 1);
        let line = trim_start(ls[n - 1]);
        if line.len() > 0 && line[0] == '@' {
            (before, flag || contains(line, "test"@) || contains(line, ".mark."@))
        } else {
            match python_signature(line, (n - 1) as u32, flag) {
                Some(d) => (before.push(d), false),
                None => (before, if line.len() > 0 && line[0] != '#' {
                    false
                } else {
                    flag
                }),
            }
        }
    }
}

fn extract_python(text: &Vec<char>) -> (out: Vec<ParsedFn>)
    requires
        lines(text@).len() < u32::MAX,
    ensures
        decls_match(out@, python_scan(lines(text@), lines(text@).len() as int).0),
{
    let ls = lines_of(text);
    let ghost L = lines(text@);
    let mut out: Vec<ParsedFn> = Vec::new();
    let mut flag = false;
    let mut idx: usize = 0;
    while idx < ls.len()
        invariant
            L == lines(text@),
            ls@.len() == L.len(),
            L.len() < u32::MAX,
            forall|i: int| 0 <= i < ls@.len() ==> #[trigger] ls@[i]@ == L[i],
            idx <= ls@.len(),
            decls_match(out@, python_scan(L, idx as int).0),
            flag == python_scan(L, idx as int).1,
        decreases ls.len() - idx,
    {
        let line = trim_start_chars(&ls[idx]);
        proof {
            assert(ls@[idx as int]@ == L[idx as int]);
        }
        if first_is(&line, '@') {
            if contains_str(&line, "test") || contains_str(&line, ".mark.") {
                flag = true;
            }
        } else {
            match parse_python_signature(&line, idx as u32, flag) {
                Some(p) => {
                    out.push(p);
                    flag = false;
                },
                None => {
                    if line.len() > 0 && !first_is(&line, '#') {
                        flag = false;
                    }
                },
            }
        }
        idx = idx + 1;
    }
    out
}

// ─────────────────────────────────────────────────────────────────────
// TypeScript / JavaScript
// ─────────────────────────────────────────────────────────────────────

/// `kw name`: the name after a keyword, when non-empty.
pub open spec fn ts_keyword_name(s: Seq<char>, kw: Seq<char>) -> Option<Seq<char>> {
    if !starts_with(s, kw) {
        None
    } else {
        let rest = trim_start(s.skip(kw.len() as int));
        let n = name_len(rest, true);
        if n > 0 {
            Some(rest.take(n))
        } else {
            None
        }
    }
}

/// `const|let|var name = …` bound to an arrow function or a function.
pub open spec fn ts_binding(s: Seq<char>, kw: Seq<char>, line_no: u32, is_pub: bool, is_async: bool) -> Option<DeclSpec> {
    if !starts_with(s, kw) {
        None
    } else {
        let rest = trim_start(s.skip(kw.len() as int));
        let n = name_len(rest, true);
        let name = rest.take(n);
        let after = trim_start(rest.skip(n));
        if n == 0 || !(after.len() > 0 && after[0] == '=') {
            None
        } else {
            let after_eq = trim_start(after.skip(1));
            if contains(after_eq, "=>"@) || starts_with(after_eq, "function"@) || starts_with(after_eq, "async"@) {
                Some(
                    (
                        name,
                        (line_no + 1) as u32,
                        starts_with(name, "test"@) || starts_with(name, "it"@),
                        is_pub,
                        is_async || starts_with(after_eq, "async"@),
                    ),
                )
            } else {
                None
            }
        }
    }
}

/// Recognise a TypeScript/JavaScript declaration line.
pub open spec fn ts_signature(line: Seq<char>, line_no: u32) -> Option<DeclSpec> {
    let s0 = trim_start(line);
    let (s1, is_pub) = if starts_with(s0, "export default "@) {
        (trim_start(s0.skip("export default "@.len() as int)), true)
    } else if starts_with(s0, "export "@) {
        (trim_start(s0.skip("export "@.len() as int)), true)
    } else {
        (s0, false)
    };
    let s2 = strip_then_trim(
        strip_then_trim(strip_then_trim(strip_then_trim(s1, "public "@), "private "@), "protected "@),
        "static "@,
    );
    let is_async = starts_with(s2, "async "@);
    let s = if is_async {
        trim_start(s2.skip("async "@.len() as int))
    } else {
        s2
    };
    let f = ts_keyword_name(s, "function "@);
    if f is Some {
        let name = f->0;
        Some(
            (
                name,
                (line_no + 1) as u32,
                starts_with(name, "test"@) || starts_with(name, "it"@) || starts_with(name, "describe"@),
                is_pub || !contains(line, "private "@),
                is_async,
            ),
        )
    } else if ts_keyword_name(s, "class "@) is Some {
        Some((ts_keyword_name(s, "class "@)->0, (line_no + 1) as u32, false, true, false))
    } else if ts_keyword_name(s, "interface "@) is Some {
        Some((ts_keyword_name(s, "interface "@)->0, (line_no + 1) as u32, false, true, false))
    } else if ts_keyword_name(s, "type "@) is Some {
        Some((ts_keyword_name(s, "type "@)->0, (line_no + 1) as u32, false, true, false))
    } else if ts_binding(s, "const "@, line_no, is_pub, is_async) is Some {
        ts_binding(s, "const "@, line_no, is_pub, is_async)
    } else if ts_binding(s, "let "@, line_no, is_pub, is_async) is Some {
        ts_binding(s, "let "@, line_no, is_pub, is_async)
    } else {
        ts_binding(s, "var "@, line_no, is_pub, is_async)
    }
}

fn ts_keyword_name_of(s: &Vec<char>, kw: &str) -> (r: Option<Vec<char>>)
    ensures
        match r {
            Some(v) => ts_keyword_name(s@, kw@) == Some(v@),
            None => ts_keyword_name(s@, kw@) is None,
        },
{
    match strip_prefix_str(s, kw) {
        None => None,
        Some(t) => {
            let rest = trim_start_chars(&t);
            let n = name_len_of(&rest, true);
            proof {
                lemma_name_len_range(rest@, true);
            }
            if n > 0 {
                Some(slice_chars(&rest, 0, n))
            } else {
                None
            }
        },
    }
}

fn ts_binding_of(s: &Vec<char>, kw: &str, line_no: u32, is_pub: bool, is_async: bool) -> (r: Option<ParsedFn>)
    requires
        line_no < u32::MAX,
    ensures
        match r {
            Some(p) => ts_binding(s@, kw@, line_no, is_pub, is_async) == Some(decl_of(p)),
            None => ts_binding(s@, kw@, line_no, is_pub, is_async) is None,
        },
{
    let t = match strip_prefix_str(s, kw) {
        None => {
            return None;
        },
        Some(t) => t,
    };
    let rest = trim_start_chars(&t);
    let n = name_len_of(&rest, true);
    proof {
        lemma_name_len_range(rest@, true);
    }
    if n == 0 {
        return None;
    }
    let name = slice_chars(&rest, 0, n);
    let after = trim_start_chars(&skip_chars(&rest, n));
    if !first_is(&after, '=') {
        return None;
    }
    let after_eq = trim_start_chars(&skip_chars(&after, 1));
    let starts_async = starts_with_str(&after_eq, "async");
    if contains_str(&after_eq, "=>") || starts_with_str(&after_eq, "function") || starts_async {
        let is_test = starts_with_str(&name, "test") || starts_with_str(&name, "it");
        Some(make_fn(&name, line_no + 1, is_test, is_pub, is_async || starts_async))
    } else {
        None
    }
}

/// Parse one TypeScript/JavaScript declaration line (0-based `line_no`).
pub fn parse_ts_signature(line: &Vec<char>, line_no: u32) -> (r: Option<ParsedFn>)
    requires
        line_no < u32::MAX,
    ensures
        match r {
            Some(p) => ts_signature(line@, line_no) == Some(decl_of(p)),
            None => ts_signature(line@, line_no) is None,
        },
{
    let s0 = trim_start_chars(line);
    let (s1, is_pub) = match strip_prefix_str(&s0, "export default ") {
        Some(t) => (trim_start_chars(&t), true),
        None => match strip_prefix_str(&s0, "export ") {
            Some(t) => (trim_start_chars(&t), true),
            None => (s0, false),
        },
    };
    let s2 = strip_then_trim_chars(s1, "public ");
    let s2 = strip_then_trim_chars(s2, "private ");
    let s2 = strip_then_trim_chars(s2, "protected ");
    let s2 = strip_then_trim_chars(s2, "static ");
    let (s, is_async) = match strip_prefix_str(&s2, "async ") {
        Some(t) => (trim_start_chars(&t), true),
        None => (s2, false),
    };
    if let Some(name) = ts_keyword_name_of(&s, "function ") {
        let is_test = starts_with_str(&name, "test") || starts_with_str(&name, "it") || starts_with_str(
            &name,
            "describe",
        );
        let pubv = is_pub || !contains_str(line, "private ");
        return Some(make_fn(&name, line_no + 1, is_test, pubv, is_async));
    }
    if let Some(name) = ts_keyword_name_of(&s, "class ") {
        return Some(make_fn(&name, line_no + 1, false, true, false));
    }
    if let Some(name) = ts_keyword_name_of(&s, "interface ") {
        return Some(make_fn(&name, line_no + 1, false, true, false));
    }
    if let Some(name) = ts_keyword_name_of(&s, "type ") {
        return Some(make_fn(&name, line_no + 1, false, true, false));
    }
    if let Some(p) = ts_binding_of(&s, "const ", line_no, is_pub, is_async) {
        return Some(p);
    }
    if let Some(p) = ts_binding_of(&s, "let ", line_no, is_pub, is_async) {
        return Some(p);
    }
    ts_binding_of(&s, "var ", line_no, is_pub, is_async)
}

/// Declarations found in the first `n` lines by a recogniser that skips
/// `//` comment lines.
pub open spec fn ts_decls(ls: Seq<Seq<char>>, n: int) -> Seq<DeclSpec>
    decreases n,
{
    if n <= 0 {
        Seq::empty()
    } else {
        let before = ts_decls(ls, n - 1);
        let line = trim_start(ls[n - 1]);
        if starts_with(line, "//"@) {
            before
        } else {
            match ts_signature(line, (n - 1) as u32) {
                Some(d) => before.push(d),
                None => before,
            }
        }
    }
}

fn extract_ts(text: &Vec<char>) -> (out: Vec<ParsedFn>)
    requires
        lines(text@).len() < u32::MAX,
    ensures
        decls_match(out@, ts_decls(lines(text@), lines(text@).len() as int)),
{
    let ls = lines_of(text);
    let ghost L = lines(text@);
    let mut out: Vec<ParsedFn> = Vec::new();
    let mut idx: usize = 0;
    while idx < ls.len()
        invariant
            L == lines(text@),
            ls@.len() == L.len(),
            L.len() < u32::MAX,
            forall|i: int| 0 <= i < ls@.len() ==> #[trigger] ls@[i]@ == L[i],
            idx <= ls@.len(),
            decls_match(out@, ts_decls(L, idx as int)),
        decreases ls.len() - idx,
    {
        let line = trim_start_chars(&ls[idx]);
        proof {
            assert(ls@[idx as int]@ == L[idx as int]);
        }
        if !starts_with_str(&line, "//") {
            match parse_ts_signature(&line, idx as u32) {
                Some(p) => {
                    out.push(p);
                },
                None => {},
            }
        }
        idx = idx + 1;
    }
    out
}

// ─────────────────────────────────────────────────────────────────────
// Go
// ─────────────────────────────────────────────────────────────────────

/// Recognise a Go `func` (method receivers skipped) or `type … struct|interface` line.
pub open spec fn go_signature(line: Seq<char>, line_no: u32) -> Option<DeclSpec> {
    let s = trim_start(line);
    if starts_with(s, "func "@) {
        let r0 = trim_start(s.skip("func "@.len() as int));
        let r1: Option<Seq<char>> = if r0.len() > 0 && r0[0] == '(' {
            match find_char(r0, ')') {
                Some(end) => Some(trim_start(r0.skip(end + 1))),
                None => None,
            }
        } else {
            Some(r0)
        };
        match r1 {
            None => None,
            Some(rest) => {
                let n = name_len(rest, false);
                let name = rest.take(n);
                let after = trim_start(rest.skip(n));
                if n == 0 {
                    None
                } else if !(after.len() > 0 && (after[0] == '(' || after[0] == '[')) {
                    None
                } else {
                    Some(
                        (
                            name,
                            (line_no + 1) as u32,
                            starts_with(name, "Test"@) || starts_with(name, "Benchmark"@),
                            is_ascii_upper(name[0]),
                            false,
                        ),
                    )
                }
            },
        }
    } else if starts_with(s, "type "@) {
        let rest = trim_start(s.skip("type "@.len() as int));
        let n = name_len(rest, false);
        let name = rest.take(n);
        let after = trim_start(rest.skip(n));
        if n == 0 {
            None
        } else if starts_with(after, "struct"@) || starts_with(after, "interface"@) {
            Some((name, (line_no + 1) as u32, false, is_ascii_upper(name[0]), false))
        } else {
            None
        }
    } else {
        None
    }
}

fn parse_go_signature(line: &Vec<char>, line_no: u32) -> (r: Option<ParsedFn>)
    requires
        line_no < u32::MAX,
    ensures
        match r {
            Some(p) => go_signature(line@, line_no) == Some(decl_of(p)),
            None => go_signature(line@, line_no) is None,
        },
{
    let s = trim_start_chars(line);
    if let Some(t) = strip_prefix_str(&s, "func ") {
        let r0 = trim_start_chars(&t);
        let rest = if first_is(&r0, '(') {
            match find_char_in(&r0, ')') {
                Some(end) => {
                    proof {
                        lemma_find_char_range(r0@, ')');
                    }
                    trim_start_chars(&skip_chars(&r0, end + 1))
                },
                None => {
                    return None;
                },
            }
        } else {
            r0
        };
        let n = name_len_of(&rest, false);
        proof {
            lemma_name_len_range(rest@, false);
        }
        if n == 0 {
            return None;
        }
        let name = slice_chars(&rest, 0, n);
        let after = trim_start_chars(&skip_chars(&rest, n));
        if !(first_is(&after, '(') || first_is(&after, '[')) {
            return None;
        }
        let is_pub = 'A' <= name[0] && name[0] <= 'Z';
        let is_test = starts_with_str(&name, "Test") || starts_with_str(&name, "Benchmark");
        return Some(make_fn(&name, line_no + 1, is_test, is_pub, false));
    }
    if let Some(t) = strip_prefix_str(&s, "type ") {
        let rest = trim_start_chars(&t);
        let n = name_len_of(&rest, false);
        proof {
            lemma_name_len_range(rest@, false);
        }
        if n == 0 {
            return None;
        }
        let name = slice_chars(&rest, 0, n);
        let after = trim_start_chars(&skip_chars(&rest, n));
        if starts_with_str(&after, "struct") || starts_with_str(&after, "interface") {
            let is_pub = 'A' <= name[0] && name[0] <= 'Z';
            return Some(make_fn(&name, line_no + 1, false, is_pub, false));
        }
        return None;
    }
    None
}

pub open spec fn go_decls(ls: Seq<Seq<char>>, n: int) -> Seq<DeclSpec>
    decreases n,
{
    if n <= 0 {
        Seq::empty()
    } else {
        let before = go_decls(ls, n - 1);
        let line = trim_start(ls[n - 1]);
        if starts_with(line, "//"@) {
            before
        } else {
            match go_signature(line, (n - 1) as u32) {
                Some(d) => before.push(d),
                None => before,
            }
        }
    }
}

fn extract_go(text: &Vec<char>) -> (out: Vec<ParsedFn>)
    requires
        lines(text@).len() < u32::MAX,
    ensures
        decls_match(out@, go_decls(lines(text@), lines(text@).len() as int)),
{
    let ls = lines_of(text);
    let ghost L = lines(text@);
    let mut out: Vec<ParsedFn> = Vec::new();
    let mut idx: usize = 0;
    while idx < ls.len()
        invariant
            L == lines(text@),
            ls@.len() == L.len(),
            L.len() < u32::MAX,
            forall|i: int| 0 <= i < ls@.len() ==> #[trigger] ls@[i]@ == L[i],
            idx <= ls@.len(),
            decls_match(out@, go_decls(L, idx as int)),
        decreases ls.len() - idx,
    {
        let line = trim_start_chars(&ls[idx]);
        proof {
            assert(ls@[idx as int]@ == L[idx as int]);
        }
        if !starts_with_str(&line, "//") {
            match parse_go_signature(&line, idx as u32) {
                Some(p) => {
                    out.push(p);
                },
                None => {},
            }
        }
        idx = idx + 1;
    }
    out
}

// ─────────────────────────────────────────────────────────────────────
// Dispatch
// ─────────────────────────────────────────────────────────────────────

/// What `extract_functions` yields for a language and a text.
pub open spec fn extracted(lang: Language, text: Seq<char>) -> Seq<DeclSpec> {
    let ls = lines(text);
    match lang {
        Language::Rust => rust_decls(ls, ls.len() as int),
        Language::Python => python_scan(ls, ls.len() as int).0,
        Language::TypeScript | Language::JavaScript => ts_decls(ls, ls.len() as int),
        Language::Go => go_decls(ls, ls.len() as int),
    }
}

/// Extract declarations from a source text in the given language, in
/// line order.
pub fn extract_functions(lang: Language, text: &str) -> (out: Vec<ParsedFn>)
    requires
        lines(text@).len() < u32::MAX,
    ensures
        decls_match(out@, extracted(lang, text@)),
{
    let t = chars_of(text);
    match lang {
        Language::Rust => extract_rust(&t),
        Language::Python => extract_python(&t),
        Language::TypeScript | Language::JavaScript => extract_ts(&t),
        Language::Go => extract_go(&t),
    }
}

proof fn lemma_name_len_of_name(name: Seq<char>, tail: Seq<char>)
    requires
        forall|j: int| 0 <= j < name.len() ==> is_name_char(#[trigger] name[j], false),
        tail.len() > 0,
        !is_name_char(tail[0], false),
    ensures
        name_len(name + tail, false) == name.len(),
    decreases name.len(),
{
    if name.len() == 0 {
        assert((name + tail)[0] == tail[0]);
    } else {
        assert((name + tail)[0] == name[0]);
        assert((name + tail).drop_first() =~= name.drop_first() + tail);
        assert forall|j: int| 0 <= j < name.drop_first().len() implies is_name_char(
            #[trigger] name.drop_first()[j],
            false,
        ) by {
            assert(name.drop_first()[j] == name[j + 1]);
        }
        lemma_name_len_of_name(name.drop_first(), tail);
    }
}

/// `p + q` starts with `p`.
proof fn lemma_starts_with_prefix(p: Seq<char>, q: Seq<char>)
    ensures
        starts_with(p + q, p),
{
    assert((p + q).take(p.len() as int) =~= p);
}

/// Once past its qualifiers, a declaration `fn NAME` followed by `(` or
/// `<` is recognised with that name.
proof fn lemma_fn_head(name: Seq<char>, tail: Seq<char>, line_no: u32, prev: Seq<char>, is_pub: bool, is_async: bool)
    requires
        name.len() > 0,
        forall|j: int| 0 <= j < name.len() ==> is_name_char(#[trigger] name[j], false),
        tail.len() > 0,
        tail[0] == '(' || tail[0] == '<',
        !is_name_char(tail[0], false),
    ensures
        ({
            let r3 = "fn "@ + name + tail;
            &&& starts_with(r3, "fn "@)
            &&& r3.skip("fn "@.len() as int) == name + tail
            &&& name_len(name + tail, false) == name.len()
            &&& (name + tail).take(name.len() as int) == name
            &&& trim_start((name + tail).skip(name.len() as int)) == tail
        }),
{
    reveal_strlit("fn ");
    lemma_starts_with_prefix("fn "@, name + tail);
    assert(("fn "@ + name + tail) =~= "fn "@ + (name + tail));
    assert(("fn "@ + (name + tail)).skip(3) =~= name + tail);
    lemma_name_len_of_name(name, tail);
    assert((name + tail).take(name.len() as int) =~= name);
    assert((name + tail).skip(name.len() as int) =~= tail);
    assert(!is_ws(tail[0]));
}

/// `s` does not start with `p` when they differ at `k`.
proof fn lemma_not_prefix(s: Seq<char>, p: Seq<char>, k: int)
    requires
        0 <= k < p.len(),
        k < s.len(),
        s[k] != p[k],
    ensures
        !starts_with(s, p),
{
    if starts_with(s, p) {
        assert(s.take(p.len() as int)[k] == s[k]);
    }
}

/// `trim_start` leaves alone a text that begins with no whitespace.
proof fn lemma_trim_start_keeps(s: Seq<char>)
    requires
        s.len() > 0,
        !is_ws(s[0]),
    ensures
        trim_start(s) == s,
{
}

/// One space, then `s`, trims to `s` when `s` begins with no whitespace.
proof fn lemma_trim_one_space(s: Seq<char>)
    requires
        s.len() > 0,
        !is_ws(s[0]),
    ensures
        trim_start(seq![' '] + s) == s,
{
    let t = seq![' '] + s;
    assert(t[0] == ' ');
    assert(is_ws(t[0]));
    assert(t.drop_first() =~= s);
    lemma_trim_start_keeps(s);
}

/// The qualifier chain reduces `q f` to `f` for `q` one of `unsafe `,
/// `const unsafe `, `unsafe extern "C" `, when `f` starts with `fn `.
proof fn lemma_strip_qualifiers(f: Seq<char>)
    requires
        f.len() > 3,
        f[0] == 'f',
        f[1] == 'n',
        f[2] == ' ',
    ensures
        strip_then_trim(strip_then_trim(strip_then_trim(strip_then_trim("unsafe "@ + f, "const "@), "unsafe "@), "extern \"C\" "@), "extern "@) == f,
        strip_then_trim(strip_then_trim(strip_then_trim(strip_then_trim("const unsafe "@ + f, "const "@), "unsafe "@), "extern \"C\" "@), "extern "@) == f,
        strip_then_trim(strip_then_trim(strip_then_trim(strip_then_trim("unsafe extern \"C\" "@ + f, "const "@), "unsafe "@), "extern \"C\" "@), "extern "@) == f,
{
    reveal_strlit("unsafe ");
    reveal_strlit("const ");
    reveal_strlit("const unsafe ");
    reveal_strlit("unsafe extern \"C\" ");
    reveal_strlit("extern \"C\" ");
    reveal_strlit("extern ");
    lemma_trim_start_keeps(f);
    lemma_not_prefix(f, "extern \"C\" "@, 0);
    lemma_not_prefix(f, "extern "@, 0);
    lemma_not_prefix(f, "unsafe "@, 0);
    lemma_not_prefix(f, "const "@, 0);
    // unsafe f
    let a = "unsafe "@ + f;
    lemma_not_prefix(a, "const "@, 0);
    lemma_starts_with_prefix("unsafe "@, f);
    assert(a.skip(7) =~= f);
    // const unsafe f
    let c = "const unsafe "@ + f;
    assert(c =~= "const "@ + a);
    lemma_starts_with_prefix("const "@, a);
    assert(c.skip(6) =~= a);
    lemma_trim_start_keeps(a);
    // unsafe extern "C" f
    let e = "unsafe extern \"C\" "@ + f;
    let ef = "extern \"C\" "@ + f;
    assert(e =~= "unsafe "@ + ef);
    lemma_not_prefix(e, "const "@, 0);
    lemma_starts_with_prefix("unsafe "@, ef);
    assert(e.skip(7) =~= ef);
    lemma_trim_start_keeps(ef);
    lemma_starts_with_prefix("extern \"C\" "@, f);
    assert(ef.skip(11) =~= f);
}

/// The prefix before the qualifiers: the visibility and asyncness seen,
/// and what is left, for a line `v q f` where `v` is one of ``,
/// `pub `, `pub async ` and `q` starts with `u` or `c`.
proof fn lemma_visibility(q: Seq<char>)
    requires
        q.len() > 6,
        q[0] == 'u' || q[0] == 'c',
    ensures
        ({
            let s = q;
            &&& trim_start(s) == s
            &&& !starts_with(s, "pub "@) && !starts_with(s, "pub("@) && !starts_with(s, "async "@)
        }),
        ({
            let s = "pub "@ + q;
            &&& trim_start(s) == s
            &&& starts_with(s, "pub "@) && !starts_with(s, "pub("@)
            &&& trim_start(s.skip(3)) == q
            &&& !starts_with(q, "async "@)
        }),
        ({
            let s = "pub async "@ + q;
            let r0 = s.skip(3);
            &&& trim_start(s) == s
            &&& starts_with(s, "pub "@) && !starts_with(s, "pub("@)
            &&& starts_with(trim_start(r0), "async "@)
            &&& trim_start(trim_start(r0).skip(6)) == q
        }),
{
    reveal_strlit("pub ");
    reveal_strlit("pub(");
    reveal_strlit("async ");
    reveal_strlit("pub async ");
    lemma_trim_start_keeps(q);
    lemma_not_prefix(q, "pub "@, 0);
    lemma_not_prefix(q, "pub("@, 0);
    lemma_not_prefix(q, "async "@, 0);
    let b = "pub "@ + q;
    lemma_starts_with_prefix("pub "@, q);
    lemma_not_prefix(b, "pub("@, 3);
    lemma_trim_start_keeps(b);
    assert(b.skip(3) =~= seq![' '] + q);
    lemma_trim_one_space(q);
    let aq = "async "@ + q;
    let c = "pub async "@ + q;
    assert(c =~= "pub "@ + aq);
    lemma_starts_with_prefix("pub "@, aq);
    lemma_not_prefix(c, "pub("@, 3);
    lemma_trim_start_keeps(c);
    assert(c.skip(3) =~= seq![' '] + aq);
    lemma_trim_one_space(aq);
    lemma_starts_with_prefix("async "@, q);
    assert(aq.skip(6) =~= q);
}

#[verifier::rlimit(50)]
proof fn lemma_rust_unsafe_fn(name: Seq<char>, tail: Seq<char>, line_no: u32, prev: Seq<char>)
    requires
        name.len() > 0,
        forall|j: int| 0 <= j < name.len() ==> is_name_char(#[trigger] name[j], false),
        tail.len() > 0,
        tail[0] == '(' || tail[0] == '<',
        !is_name_char(tail[0], false),
    ensures
        rust_signature("unsafe fn "@ + name + tail, line_no, prev) == Some(
            (name, (line_no + 1) as u32, contains(prev, "#[test]"@), false, false),
        ),
{
    lemma_fn_head(name, tail, line_no, prev, false, false);
    reveal_strlit("fn ");
    reveal_strlit("unsafe ");
    reveal_strlit("unsafe fn ");
    let f = "fn "@ + name + tail;
    assert(f[0] == 'f' && f[1] == 'n' && f[2] == ' ');
    lemma_strip_qualifiers(f);
    let q = "unsafe "@ + f;
    lemma_visibility(q);
    assert("unsafe fn "@ + name + tail =~= q);
}

#[verifier::rlimit(50)]
proof fn lemma_rust_pub_unsafe_fn(name: Seq<char>, tail: Seq<char>, line_no: u32, prev: Seq<char>)
    requires
        name.len() > 0,
        forall|j: int| 0 <= j < name.len() ==> is_name_char(#[trigger] name[j], false),
        tail.len() > 0,
        tail[0] == '(' || tail[0] == '<',
        !is_name_char(tail[0], false),
    ensures
        rust_signature("pub unsafe fn "@ + name + tail, line_no, prev) == Some(
            (name, (line_no + 1) as u32, contains(prev, "#[test]"@), true, false),
        ),
{
    lemma_fn_head(name, tail, line_no, prev, false, false);
    reveal_strlit("fn ");
    reveal_strlit("unsafe ");
    reveal_strlit("pub unsafe fn ");
    reveal_strlit("pub ");
    let f = "fn "@ + name + tail;
    assert(f[0] == 'f' && f[1] == 'n' && f[2] == ' ');
    lemma_strip_qualifiers(f);
    let q = "unsafe "@ + f;
    lemma_visibility(q);
    assert("pub unsafe fn "@ + name + tail =~= "pub "@ + q);
}

#[verifier::rlimit(50)]
proof fn lemma_rust_pub_async_unsafe_fn(name: Seq<char>, tail: Seq<char>, line_no: u32, prev: Seq<char>)
    requires
        name.len() > 0,
        forall|j: int| 0 <= j < name.len() ==> is_name_char(#[trigger] name[j], false),
        tail.len() > 0,
        tail[0] == '(' || tail[0] == '<',
        !is_name_char(tail[0], false),
    ensures
        rust_signature("pub async unsafe fn "@ + name + tail, line_no, prev) == Some(
            (name, (line_no + 1) as u32, contains(prev, "#[test]"@), true, true),
        ),
{
    lemma_fn_head(name, tail, line_no, prev, false, false);
    reveal_strlit("fn ");
    reveal_strlit("async ");
    reveal_strlit("unsafe ");
    reveal_strlit("pub async unsafe fn ");
    reveal_strlit("pub async ");
    let f = "fn "@ + name + tail;
    assert(f[0] == 'f' && f[1] == 'n' && f[2] == ' ');
    lemma_strip_qualifiers(f);
    let q = "unsafe "@ + f;
    lemma_visibility(q);
    assert("pub async unsafe fn "@ + name + tail =~= "pub async "@ + q);
}

#[verifier::rlimit(50)]
proof fn lemma_rust_const_unsafe_fn(name: Seq<char>, tail: Seq<char>, line_no: u32, prev: Seq<char>)
    requires
        name.len() > 0,
        forall|j: int| 0 <= j < name.len() ==> is_name_char(#[trigger] name[j], false),
        tail.len() > 0,
        tail[0] == '(' || tail[0] == '<',
        !is_name_char(tail[0], false),
    ensures
        rust_signature("const unsafe fn "@ + name + tail, line_no, prev) == Some(
            (name, (line_no + 1) as u32, contains(prev, "#[test]"@), false, false),
        ),
{
    lemma_fn_head(name, tail, line_no, prev, false, false);
    reveal_strlit("fn ");
    reveal_strlit("const unsafe ");
    reveal_strlit("const unsafe fn ");
    let f = "fn "@ + name + tail;
    assert(f[0] == 'f' && f[1] == 'n' && f[2] == ' ');
    lemma_strip_qualifiers(f);
    let q = "const unsafe "@ + f;
    lemma_visibility(q);
    assert("const unsafe fn "@ + name + tail =~= q);
}

#[verifier::rlimit(50)]
proof fn lemma_rust_unsafe_extern_fn(name: Seq<char>, tail: Seq<char>, line_no: u32, prev: Seq<char>)
    requires
        name.len() > 0,
        forall|j: int| 0 <= j < name.len() ==> is_name_char(#[trigger] name[j], false),
        tail.len() > 0,
        tail[0] == '(' || tail[0] == '<',
        !is_name_char(tail[0], false),
    ensures
        rust_signature("unsafe extern \"C\" fn "@ + name + tail, line_no, prev) == Some(
            (name, (line_no + 1) as u32, contains(prev, "#[test]"@), false, false),
        ),
{
    lemma_fn_head(name, tail, line_no, prev, false, false);
    reveal_strlit("fn ");
    reveal_strlit("unsafe extern \"C\" ");
    reveal_strlit("unsafe extern \"C\" fn ");
    let f = "fn "@ + name + tail;
    assert(f[0] == 'f' && f[1] == 'n' && f[2] == ' ');
    lemma_strip_qualifiers(f);
    let q = "unsafe extern \"C\" "@ + f;
    lemma_visibility(q);
    assert("unsafe extern \"C\" fn "@ + name + tail =~= q);
}

/// `const`, `unsafe` and `extern` before `fn` do not hide a Rust
/// declaration: for every name (a run of name characters) followed by
/// `(` or `<`, `unsafe fn NAME`, `pub unsafe fn NAME`,
/// `pub async unsafe fn NAME`, `const unsafe fn NAME` and
/// `unsafe extern "C" fn NAME` are each recognised with that name, the
/// 1-based line, `#[test]` on the line before as the test mark, and
/// the `pub` and `async` they carry.
pub proof fn lemma_rust_qualified_fns_are_recognised(name: Seq<char>, tail: Seq<char>, line_no: u32, prev: Seq<char>)
    requires
        name.len() > 0,
        forall|j: int| 0 <= j < name.len() ==> is_name_char(#[trigger] name[j], false),
        tail.len() > 0,
        tail[0] == '(' || tail[0] == '<',
        !is_name_char(tail[0], false),
    ensures
        ({
            let t = contains(prev, "#[test]"@);
            let l = (line_no + 1) as u32;
            &&& rust_signature("unsafe fn "@ + name + tail, line_no, prev) == Some((name, l, t, false, false))
            &&& rust_signature("pub unsafe fn "@ + name + tail, line_no, prev) == Some((name, l, t, true, false))
            &&& rust_signature("pub async unsafe fn "@ + name + tail, line_no, prev) == Some((name, l, t, true, true))
            &&& rust_signature("const unsafe fn "@ + name + tail, line_no, prev) == Some((name, l, t, false, false))
            &&& rust_signature("unsafe extern \"C\" fn "@ + name + tail, line_no, prev) == Some(
                (name, l, t, false, false),
            )
        }),
{
    lemma_rust_unsafe_fn(name, tail, line_no, prev);
    lemma_rust_pub_unsafe_fn(name, tail, line_no, prev);
    lemma_rust_pub_async_unsafe_fn(name, tail, line_no, prev);
    lemma_rust_const_unsafe_fn(name, tail, line_no, prev);
    lemma_rust_unsafe_extern_fn(name, tail, line_no, prev);
}

} // verus!
