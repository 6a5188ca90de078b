//! Repository structure: crates, source files, function declarations
//! and heuristic call edges.
//!
//! Paths are `/`-separated strings. Walking the file system is left to
//! the caller: `walk_action` decides what to do with each directory
//! entry, `parse_cargo_toml_text` reads a manifest's text, and
//! `extract_repo_graph_with` assembles the graph from what was read.
use vstd::prelude::*;
use vstd::string::StringSliceAdditionalSpecFns;
use crate::text::{
    append_chars, append_str, chars_of, find_char, find_char_in, is_ws, lemma_find_char_range, lines, lines_of,
    skip_chars, slice_chars, starts_with, starts_with_str, ends_with, ends_with_chars, string_of, trim,
    trim_chars, is_whitespace, trim_start, trim_end,
};
use crate::languages::{file_name, rfind_char, lemma_rfind_char_range, Language, extension, language_of_extension};

verus! {

// ─────────────────────────────────────────────────────────────────────
// Graph types
// ─────────────────────────────────────────────────────────────────────

#[derive(Debug, Clone)]
pub struct RepoCrate {
    pub name: String,
    pub path: String,
}

#[derive(Debug, Clone)]
pub struct RepoFile {
    pub path: String,
    pub crate_name: Option<String>,
}

/// A declaration found inside a source file.
#[derive(Debug, Clone)]
pub struct RepoFunction {
    pub crate_name: Option<String>,
    pub file_path: String,
    pub name: String,
    pub line: u32,
    pub is_test: bool,
    pub is_pub: bool,
    pub is_async: bool,
}

#[derive(Debug, Clone)]
pub struct RepoGraph {
    pub root: String,
    pub crates: Vec<RepoCrate>,
    pub files: Vec<RepoFile>,
    /// (from_crate, to_crate)
    pub deps: Vec<(String, String)>,
    pub functions: Vec<RepoFunction>,
    /// (caller qualified name, callee qualified name)
    pub calls: Vec<(String, String)>,
}

/// Knobs for repository extraction.
#[derive(Debug, Clone, Copy, PartialEq, Eq, Structural)]
pub struct ExtractOptions {
    pub extract_functions: bool,
    /// Cap on functions per file; 0 means no cap.
    pub max_functions_per_file: usize,
    /// Files larger than this many bytes are not scanned for functions.
    pub max_file_bytes: u64,
    /// Only look for call edges between functions of the same file.
    pub same_file_calls_only: bool,
}

impl Default for ExtractOptions {
    fn default() -> (r: Self)
        ensures
            r == (ExtractOptions {
                extract_functions: false,
                max_functions_per_file: 200,
                max_file_bytes: 262144,
                same_file_calls_only: true,
            }),
    {
        ExtractOptions {
            extract_functions: false,
            max_functions_per_file: 200,
            max_file_bytes: 262144,
            same_file_calls_only: true,
        }
    }
}

impl ExtractOptions {
    pub fn with_functions(self, on: bool) -> (r: Self)
        ensures
            r == (ExtractOptions { extract_functions: on, ..self }),
    {
        ExtractOptions { extract_functions: on, ..self }
    }

    pub fn with_same_file_calls_only(self, on: bool) -> (r: Self)
        ensures
            r == (ExtractOptions { same_file_calls_only: on, ..self }),
    {
        ExtractOptions { same_file_calls_only: on, ..self }
    }
}

impl Default for RepoCrate {
    fn default() -> (r: Self)
        ensures
            r.name@ == Seq::<char>::empty(),
            r.path@ == Seq::<char>::empty(),
    {
        RepoCrate { name: String::new(), path: String::new() }
    }
}

pub open spec fn opt_view(o: Option<String>) -> Option<Seq<char>> {
    match o {
        Some(s) => Some(s@),
        None => None,
    }
}

// ─────────────────────────────────────────────────────────────────────
// Qualified names
// ─────────────────────────────────────────────────────────────────────

/// File name without its final extension.
pub open spec fn file_stem(path: Seq<char>) -> Seq<char> {
    let name = file_name(path);
    match rfind_char(name, '.') {
        Some(i) => if i > 0 {
            name.take(i)
        } else {
            name
        },
        None => name,
    }
}

/// `crate::stem::name`, or `crate::name` for `lib`, `main` and `mod`
/// files; `?` stands for an unknown crate.
pub open spec fn qualified_name_of(crate_name: Option<Seq<char>>, file_path: Seq<char>, name: Seq<char>) -> Seq<char> {
    let stem = file_stem(file_path);
    let prefix = match crate_name {
        Some(c) => c,
        None => "?"@,
    };
    if stem == "lib"@ || stem == "main"@ || stem == "mod"@ {
        prefix + "::"@ + name
    } else {
        prefix + "::"@ + stem + "::"@ + name
    }
}

fn file_stem_chars(path: &Vec<char>) -> (r: Vec<char>)
    ensures
        r@ == file_stem(path@),
{
    let _n = path.len();
    let r1 = rfind_in(path, '/');
    let name = match r1 {
        Some(i) => {
            assert(i < path@.len());
            skip_chars(path, i + 1)
        },
        None => slice_chars(path, 0, path.len()),
    };
    assert(path@.subrange(0, path@.len() as int) =~= path@);
    assert(name@ == file_name(path@));
    match rfind_in(&name, '.') {
        Some(i) => {
            if i > 0 {
                let r = slice_chars(&name, 0, i);
                assert(r@ =~= name@.take(i as int));
                r
            } else {
                name
            }
        },
        None => name,
    }
}

pub fn rfind_in(s: &Vec<char>, c: char) -> (r: Option<usize>)
    ensures
        match r {
            Some(i) => rfind_char(s@, c) == Some(i as int) && i < s@.len(),
            None => rfind_char(s@, c) is None,
        },
{
    proof {
        lemma_rfind_char_range(s@, c);
    }
    let mut j: usize = s.len();
    assert(s@.take(j as int) =~= s@);
    while j > 0
        invariant
            j <= s.len(),
            rfind_char(s@, c) == rfind_char(s@.take(j as int), c),
        decreases j,
    {
        if s[j - 1] == c {
            return Some(j - 1);
        }
        assert(s@.take(j as int).drop_last() =~= s@.take(j - 1));
        j = j - 1;
    }
    None
}

fn chars_equal_str(s: &Vec<char>, p: &str) -> (b: bool)
    ensures
        b == (s@ == p@),
{
    let pv = chars_of(p);
    if s.len() != pv.len() {
        return false;
    }
    let r = starts_with_str(s, p);
    assert(s@.take(pv@.len() as int) =~= s@);
    r
}

impl RepoFunction {
    /// Best-effort qualifier `crate::file_stem::name`.
    pub fn qualified_name(&self) -> (q: String)
        ensures
            q@ == qualified_name_of(opt_view(self.crate_name), self.file_path@, self.name@),
    {
        let stem = file_stem_chars(&chars_of(self.file_path.as_str()));
        let mut out: Vec<char> = Vec::new();
        match &self.crate_name {
            Some(c) => append_str(&mut out, c.as_str()),
            None => append_str(&mut out, "?"),
        }
        append_str(&mut out, "::");
        if !(chars_equal_str(&stem, "lib") || chars_equal_str(&stem, "main") || chars_equal_str(&stem, "mod")) {
            append_chars(&mut out, &stem);
            append_str(&mut out, "::");
        }
        append_str(&mut out, self.name.as_str());
        proof {
            assert(out@ =~= qualified_name_of(opt_view(self.crate_name), self.file_path@, self.name@));
        }
        string_of(&out)
    }
}

// ─────────────────────────────────────────────────────────────────────
// Walking decisions
// ─────────────────────────────────────────────────────────────────────

/// Directory names the walker never enters (and file names it ignores).
pub open spec fn skipped_name(name: Seq<char>) -> bool {
    name == "target"@ || name == "node_modules"@ || name == ".git"@ || name == "dist"@ || name == "build"@
        || name == "out"@ || name == ".cargo"@ || name == ".idea"@ || name == ".vscode"@
}

pub fn should_skip(name: &str) -> (b: bool)
    ensures
        b == skipped_name(name@),
{
    let n = chars_of(name);
    chars_equal_str(&n, "target") || chars_equal_str(&n, "node_modules") || chars_equal_str(&n, ".git")
        || chars_equal_str(&n, "dist") || chars_equal_str(&n, "build") || chars_equal_str(&n, "out")
        || chars_equal_str(&n, ".cargo") || chars_equal_str(&n, ".idea") || chars_equal_str(&n, ".vscode")
}

/// Deepest directory level the walker enters.
pub const MAX_WALK_DEPTH: usize = 12;

/// What the walker does with one directory entry.
#[derive(Debug, Clone, Copy, PartialEq, Eq, Structural)]
pub enum WalkAction {
    /// Ignore the entry.
    Skip,
    /// Walk into the directory, one level deeper.
    Descend,
    /// Read the entry as the crate manifest of its directory.
    Manifest,
    /// Record the entry as a source file.
    Source,
}

pub open spec fn walk_action_spec(name: Seq<char>, is_dir: bool, depth: int) -> WalkAction {
    if skipped_name(name) {
        WalkAction::Skip
    } else if is_dir {
        if depth + 1 > MAX_WALK_DEPTH {
            WalkAction::Skip
        } else {
            WalkAction::Descend
        }
    } else if name == "Cargo.toml"@ {
        WalkAction::Manifest
    } else if (match extension(name) {
        Some(e) => language_of_extension(e) is Some,
        None => false,
    }) {
        WalkAction::Source
    } else {
        WalkAction::Skip
    }
}

/// Decide what to do with the entry `name` found in a directory at
/// walk depth `depth`.
pub fn walk_action(name: &str, is_dir: bool, depth: usize) -> (a: WalkAction)
    ensures
        a == walk_action_spec(name@, is_dir, depth as int),
{
    if should_skip(name) {
        WalkAction::Skip
    } else if is_dir {
        if depth >= MAX_WALK_DEPTH {
            WalkAction::Skip
        } else {
            WalkAction::Descend
        }
    } else if chars_equal_str(&chars_of(name), "Cargo.toml") {
        WalkAction::Manifest
    } else if Language::from_path(name).is_some() {
        WalkAction::Source
    } else {
        WalkAction::Skip
    }
}

/// The crate a file belongs to: the name of the nearest directory, in
/// the order given (innermost first), that holds a manifest.
pub open spec fn nearest_crate_spec(ancestors: Seq<Seq<char>>, has_manifest: Seq<bool>) -> Option<Seq<char>>
    decreases ancestors.len(),
{
    if ancestors.len() == 0 || has_manifest.len() == 0 {
        None
    } else if has_manifest[0] {
        let n = file_name(ancestors[0]);
        if n.len() == 0 {
            None
        } else {
            Some(n)
        }
    } else {
        nearest_crate_spec(ancestors.drop_first(), has_manifest.drop_first())
    }
}

/// `ancestors` are the directories above a file, innermost first;
/// `has_manifest[i]` tells whether `ancestors[i]` holds a `Cargo.toml`.
pub fn nearest_crate_name(ancestors: &Vec<String>, has_manifest: &Vec<bool>) -> (r: Option<String>)
    ensures
        opt_view(r) == nearest_crate_spec(ancestors@.map_values(|s: String| s@), has_manifest@),
{
    let ghost A = ancestors@.map_values(|s: String| s@);
    let mut i: usize = 0;
    assert(A.skip(0) =~= A);
    assert(has_manifest@.skip(0) =~= has_manifest@);
    while i < ancestors.len() && i < has_manifest.len()
        invariant
            A == ancestors@.map_values(|s: String| s@),
            A.len() == ancestors@.len(),
            i <= ancestors.len(),
            i <= has_manifest.len(),
            nearest_crate_spec(A, has_manifest@) == nearest_crate_spec(A.skip(i as int), has_manifest@.skip(i as int)),
        decreases ancestors.len() - i,
    {
        if has_manifest[i] {
            let p = chars_of(ancestors[i].as_str());
            let _n = p.len();
            let name = match rfind_in(&p, '/') {
                Some(k) => skip_chars(&p, k + 1),
                None => p,
            };
            assert(A.skip(i as int)[0] == ancestors@[i as int]@);
            assert(has_manifest@.skip(i as int)[0]);
            assert(name@ == file_name(A.skip(i as int)[0]));
            if name.len() == 0 {
                return None;
            }
            return Some(string_of(&name));
        }
        assert(A.skip(i as int).drop_first() =~= A.skip(i + 1));
        assert(has_manifest@.skip(i as int).drop_first() =~= has_manifest@.skip(i + 1));
        i = i + 1;
    }
    assert(A.skip(i as int).len() == 0 || has_manifest@.skip(i as int).len() == 0);
    None
}

// ─────────────────────────────────────────────────────────────────────
// Word mentions
// ─────────────────────────────────────────────────────────────────────

pub open spec fn is_ident_byte(b: u8) -> bool {
    (48 <= b && b <= 57) || (65 <= b && b <= 90) || (97 <= b && b <= 122) || b == 95
}

/// ASCII alphanumeric or `_`.
pub fn is_ident_char(b: u8) -> (r: bool)
    ensures
        r == is_ident_byte(b),
{
    (48 <= b && b <= 57) || (65 <= b && b <= 90) || (97 <= b && b <= 122) || b == 95
}

/// `t` occurs at byte `i` of `body` with no identifier byte on either side.
pub open spec fn word_at(body: Seq<u8>, t: Seq<u8>, i: int) -> bool {
    &&& 0 <= i
    &&& i + t.len() <= body.len()
    &&& body.subrange(i, i + t.len()) == t
    &&& (i == 0 || !is_ident_byte(body[i - 1]))
    &&& (i + t.len() == body.len() || !is_ident_byte(body[i + t.len()]))
}

pub open spec fn mentions_word(body: Seq<u8>, t: Seq<u8>) -> bool {
    exists|i: int| #[trigger] word_at(body, t, i)
}

/// Does `body` mention `name` as a whole word (not inside a longer
/// identifier)?
pub fn mentions_function(body: &str, name: &str) -> (b: bool)
    ensures
        b == mentions_word(body.spec_bytes(), name.spec_bytes()),
{
    let target = name.as_bytes();
    let bytes = body.as_bytes();
    if target.len() > bytes.len() {
        return false;
    }
    let last = bytes.len() - target.len();
    let mut i: usize = 0;
    while i <= last
        invariant
            bytes@ == body.spec_bytes(),
            target@ == name.spec_bytes(),
            target.len() <= bytes.len(),
            last == bytes.len() - target.len(),
            i <= last,
            forall|k: int| 0 <= k < i ==> !#[trigger] word_at(bytes@, target@, k),
        decreases last - i,
    {
        let mut j: usize = 0;
        let mut same = true;
        while j < target.len()
            invariant
                i <= last,
                last == bytes.len() - target.len(),
                j <= target.len(),
                same == (forall|k: int| 0 <= k < j ==> bytes@[i + k] == target@[k]),
            decreases target.len() - j,
        {
            if bytes[i + j] != target[j] {
                same = false;
            }
            j = j + 1;
        }
        proof {
            if same {
                assert(bytes@.subrange(i as int, i + target.len()) =~= target@);
            } else {
                if bytes@.subrange(i as int, i + target.len()) == target@ {
                    assert forall|k: int| 0 <= k < target.len() implies bytes@[i + k] == target@[k] by {
                        assert(bytes@.subrange(i as int, i + target.len())[k] == target@[k]);
                    }
                }
            }
        }
        if same {
            let prev_ok = i == 0 || !is_ident_char(bytes[i - 1]);
            let next_ok = i + target.len() == bytes.len() || !is_ident_char(bytes[i + target.len()]);
            if prev_ok && next_ok {
                assert(word_at(bytes@, target@, i as int));
                return true;
            }
        }
        if i == last {
            proof {
                assert(!word_at(bytes@, target@, i as int));
                assert forall|k: int| !#[trigger] word_at(bytes@, target@, k) by {
                    if 0 <= k && k + target.len() <= bytes.len() {
                        assert(k <= last);
                    }
                }
            }
            return false;
        }
        assert(!word_at(bytes@, target@, i as int));
        i = i + 1;
    }
    false
}

// ─────────────────────────────────────────────────────────────────────
// Function bodies
// ─────────────────────────────────────────────────────────────────────

/// Where the declaration on (1-based) line `decl_line` starts: just
/// past its `decl_line - 1`-th newline, or the text's end when there are
/// fewer, counting from `offset` with `line_idx` newlines already seen.
pub open spec fn seek_line(t: Seq<char>, decl_line: int, line_idx: int, offset: int) -> int
    decreases t.len() - offset,
{
    if line_idx + 1 < decl_line && 0 <= offset < t.len() {
        seek_line(t, decl_line, if t[offset] == '\n' { line_idx + 1 } else { line_idx }, offset + 1)
    } else {
        offset
    }
}

/// Position of the first newline at or after `p` (or the length).
pub open spec fn newline_at_or_after(t: Seq<char>, p: int) -> int
    decreases t.len() - p,
{
    if p < 0 || p >= t.len() {
        t.len() as int
    } else if t[p] == '\n' {
        p
    } else {
        newline_at_or_after(t, p + 1)
    }
}

/// Scan from `i` for the `{` opening a body, stepping over string and
/// character literals (with `\` escapes) and `//` comments; a `;` first
/// means a declaration without body.
pub open spec fn find_body_open(t: Seq<char>, i: int, in_str: bool, delim: char) -> Option<int>
    decreases t.len() - i,
{
    if i < 0 || i >= t.len() {
        None
    } else if in_str {
        if t[i] == '\\' && i + 1 < t.len() {
            find_body_open(t, i + 2, true, delim)
        } else if t[i] == delim {
            find_body_open(t, i + 1, false, delim)
        } else {
            find_body_open(t, i + 1, true, delim)
        }
    } else if t[i] == '"' || t[i] == '\'' {
        find_body_open(t, i + 1, true, t[i])
    } else if t[i] == '/' && i + 1 < t.len() && t[i + 1] == '/' {
        proof {
            lemma_newline_at_or_after_range(t, i + 2);
        }
        find_body_open(t, newline_at_or_after(t, i + 2), false, delim)
    } else if t[i] == '{' {
        Some(i)
    } else if t[i] == ';' {
        None
    } else {
        find_body_open(t, i + 1, false, delim)
    }
}

/// Scan from `i` with brace depth `depth` for the `}` that brings the
/// depth back to zero, stepping over literals and comments.
pub open spec fn find_body_close(t: Seq<char>, i: int, depth: int, in_str: bool, delim: char) -> Option<int>
    decreases t.len() - i,
{
    if i < 0 || i >= t.len() {
        None
    } else if in_str {
        if t[i] == '\\' && i + 1 < t.len() {
            find_body_close(t, i + 2, depth, true, delim)
        } else if t[i] == delim {
            find_body_close(t, i + 1, depth, false, delim)
        } else {
            find_body_close(t, i + 1, depth, true, delim)
        }
    } else if t[i] == '"' || t[i] == '\'' {
        find_body_close(t, i + 1, depth, true, t[i])
    } else if t[i] == '/' && i + 1 < t.len() && t[i + 1] == '/' {
        proof {
            lemma_newline_at_or_after_range(t, i + 2);
        }
        find_body_close(t, newline_at_or_after(t, i + 2), depth, false, delim)
    } else if t[i] == '{' {
        find_body_close(t, i + 1, depth + 1, false, delim)
    } else if t[i] == '}' {
        if depth - 1 == 0 {
            Some(i)
        } else {
            find_body_close(t, i + 1, depth - 1, false, delim)
        }
    } else {
        find_body_close(t, i + 1, depth, false, delim)
    }
}

/// The body of the function declared on (1-based) line `decl_line`:
/// from its opening `{` to the matching `}`.
pub open spec fn body_of(t: Seq<char>, decl_line: nat) -> Option<Seq<char>> {
    let start = seek_line(t, decl_line as int, 0, 0);
    match find_body_open(t, start, false, '"') {
        None => None,
        Some(open) => match find_body_close(t, open, 0, false, '"') {
            None => None,
            Some(close) => Some(t.subrange(open, close + 1)),
        },
    }
}

pub proof fn lemma_newline_at_or_after_range(t: Seq<char>, p: int)
    requires
        0 <= p,
    ensures
        p <= newline_at_or_after(t, p) || newline_at_or_after(t, p) == t.len(),
        newline_at_or_after(t, p) <= t.len(),
        newline_at_or_after(t, p) >= 0,
    decreases t.len() - p,
{
    if p < t.len() && t[p] != '\n' {
        lemma_newline_at_or_after_range(t, p + 1);
    }
}

fn newline_from(t: &Vec<char>, p: usize) -> (r: usize)
    requires
        p <= t.len(),
    ensures
        r == newline_at_or_after(t@, p as int),
        p <= r <= t.len(),
{
    let mut i = p;
    while i < t.len() && t[i] != '\n'
        invariant
            p <= i <= t.len(),
            newline_at_or_after(t@, p as int) == newline_at_or_after(t@, i as int),
        decreases t.len() - i,
    {
        i = i + 1;
    }
    i
}

fn find_open_from(t: &Vec<char>, start: usize) -> (r: Option<usize>)
    requires
        start <= t.len(),
    ensures
        match r {
            Some(o) => find_body_open(t@, start as int, false, '"') == Some(o as int) && start <= o < t.len()
                && t@[o as int] == '{',
            None => find_body_open(t@, start as int, false, '"') is None,
        },
{
    let n = t.len();
    let mut i: usize = start;
    let mut in_str = false;
    let mut delim: char = '"';
    loop
        invariant
            n == t@.len(),
            start <= i <= n,
            find_body_open(t@, start as int, false, '"') == find_body_open(t@, i as int, in_str, delim),
        decreases n - i,
    {
        if i >= n {
            return None;
        }
        let c = t[i];
        if in_str {
            if c == '\\' && i + 1 < n {
                i = i + 2;
            } else {
                if c == delim {
                    in_str = false;
                }
                i = i + 1;
            }
        } else if c == '"' || c == '\'' {
            in_str = true;
            delim = c;
            i = i + 1;
        } else if c == '/' && i + 1 < n && t[i + 1] == '/' {
            i = newline_from(t, i + 2);
        } else if c == '{' {
            return Some(i);
        } else if c == ';' {
            return None;
        } else {
            i = i + 1;
        }
    }
}

fn find_close_from(t: &Vec<char>, open: usize) -> (r: Option<usize>)
    requires
        open < t.len(),
        t@[open as int] == '{',
    ensures
        match r {
            Some(c) => find_body_close(t@, open as int, 0, false, '"') == Some(c as int) && open <= c < t.len(),
            None => find_body_close(t@, open as int, 0, false, '"') is None,
        },
{
    let n = t.len();
    let mut i: usize = open;
    let mut depth: usize = 0;
    let mut in_str = false;
    let mut delim: char = '"';
    loop
        invariant
            n == t@.len(),
            open <= i <= n,
            open < n,
            t@[open as int] == '{',
            depth <= i - open,
            i == open ==> depth == 0 && !in_str,
            i > open ==> depth >= 1,
            find_body_close(t@, open as int, 0, false, '"') == find_body_close(t@, i as int, depth as int, in_str, delim),
        decreases n - i,
    {
        if i >= n {
            return None;
        }
        let c = t[i];
        if in_str {
            if c == '\\' && i + 1 < n {
                i = i + 2;
            } else {
                if c == delim {
                    in_str = false;
                }
                i = i + 1;
            }
        } else if c == '"' || c == '\'' {
            in_str = true;
            delim = c;
            i = i + 1;
        } else if c == '/' && i + 1 < n && t[i + 1] == '/' {
            i = newline_from(t, i + 2);
        } else if c == '{' {
            depth = depth + 1;
            i = i + 1;
        } else if c == '}' {
            if depth == 1 {
                return Some(i);
            }
            depth = depth - 1;
            i = i + 1;
        } else {
            i = i + 1;
        }
    }
}

/// The textual body of the function declared on (1-based) line
/// `decl_line`, braces included. `None` when no body opens before a `;`
/// or the braces never balance.
pub fn body_of_function(text: &str, decl_line: usize) -> (r: Option<String>)
    ensures
        opt_view(r) == body_of(text@, decl_line as nat),
{
    let t = chars_of(text);
    let n = t.len();
    let mut line_idx: usize = 0;
    let mut offset: usize = 0;
    while offset < n && line_idx + 1 < decl_line
        invariant
            n == t@.len(),
            offset <= n,
            line_idx <= offset,
            seek_line(t@, decl_line as int, 0, 0) == seek_line(t@, decl_line as int, line_idx as int, offset as int),
        decreases n - offset,
    {
        if t[offset] == '\n' {
            line_idx = line_idx + 1;
        }
        offset = offset + 1;
    }
    match find_open_from(&t, offset) {
        None => None,
        Some(open) => match find_close_from(&t, open) {
            None => None,
            Some(close) => {
                let body = slice_chars(&t, open, close + 1);
                Some(string_of(&body))
            },
        },
    }
}

// ─────────────────────────────────────────────────────────────────────
// Cargo manifests
// ─────────────────────────────────────────────────────────────────────

/// Drop every leading `c`.
pub open spec fn trim_start_char(s: Seq<char>, c: char) -> Seq<char>
    decreases s.len(),
{
    if s.len() > 0 && s[0] == c {
        trim_start_char(s.drop_first(), c)
    } else {
        s
    }
}

/// Drop every trailing `c`.
pub open spec fn trim_end_char(s: Seq<char>, c: char) -> Seq<char>
    decreases s.len(),
{
    if s.len() > 0 && s.last() == c {
        trim_end_char(s.drop_last(), c)
    } else {
        s
    }
}

/// `str::trim_matches` with a single character.
pub open spec fn trim_matches(s: Seq<char>, c: char) -> Seq<char> {
    trim_end_char(trim_start_char(s, c), c)
}

/// Trim whitespace, then double quotes, then single quotes, then whitespace.
pub open spec fn strip_quotes_spec(s: Seq<char>) -> Seq<char> {
    trim(trim_matches(trim_matches(trim(s), '"'), '\''))
}

/// What precedes the first `c` (everything when there is none).
pub open spec fn before_char(s: Seq<char>, c: char) -> Seq<char> {
    match find_char(s, c) {
        Some(i) => s.take(i),
        None => s,
    }
}

/// What follows the last `c` (everything when there is none).
pub open spec fn after_last_char(s: Seq<char>, c: char) -> Seq<char> {
    match rfind_char(s, c) {
        Some(i) => s.skip(i + 1),
        None => s,
    }
}

/// Split at the first `c`.
pub open spec fn split_once(s: Seq<char>, c: char) -> Option<(Seq<char>, Seq<char>)> {
    match find_char(s, c) {
        Some(i) => Some((s.take(i), s.skip(i + 1))),
        None => None,
    }
}

pub open spec fn has_ws(s: Seq<char>) -> bool {
    exists|i: int| 0 <= i < s.len() && is_ws(#[trigger] s[i])
}

/// Which manifest table the scanner is in.
#[derive(Debug, Clone, Copy, PartialEq, Eq, Structural)]
pub enum TomlSection {
    Package,
    Deps,
    Other,
}

/// The inside of a `[...]` table header line.
pub open spec fn header_of(line: Seq<char>) -> Option<Seq<char>> {
    if line.len() >= 2 && line[0] == '[' && line.last() == ']' {
        Some(line.subrange(1, line.len() - 1))
    } else {
        None
    }
}

pub open spec fn is_deps_header(h: Seq<char>) -> bool {
    h == "dependencies"@ || h == "dev-dependencies"@ || h == "build-dependencies"@ || (starts_with(
        h,
        "target."@,
    ) && ends_with(h, "dependencies"@))
}

pub open spec fn is_dep_subtable(h: Seq<char>) -> bool {
    starts_with(h, "dependencies."@) || starts_with(h, "dev-dependencies."@) || starts_with(
        h,
        "build-dependencies."@,
    )
}

/// The dependency name a `key = …` line declares (head of a dotted key).
pub open spec fn dep_key_head(key: Seq<char>) -> Seq<char> {
    trim_matches(trim(before_char(trim_matches(trim(key), '"'), '.')), '"')
}

/// (package name, dependency names, current table)
pub type CargoState = (Option<Seq<char>>, Seq<Seq<char>>, TomlSection);

/// One manifest line's effect on the scan.
pub open spec fn cargo_step(st: CargoState, raw: Seq<char>) -> CargoState {
    let (name, deps, sec) = st;
    let line = trim(before_char(raw, '#'));
    if line.len() == 0 {
        st
    } else {
        match header_of(line) {
            Some(inner) => {
                let h = trim(inner);
                if h == "package"@ {
                    (name, deps, TomlSection::Package)
                } else if is_deps_header(h) {
                    (name, deps, TomlSection::Deps)
                } else if is_dep_subtable(h) {
                    (name, deps.push(strip_quotes_spec(after_last_char(h, '.'))), TomlSection::Other)
                } else {
                    (name, deps, TomlSection::Other)
                }
            },
            None => match sec {
                TomlSection::Package => match split_once(line, '=') {
                    Some((k, v)) => if trim(k) == "name"@ {
                        (Some(strip_quotes_spec(v)), deps, sec)
                    } else {
                        st
                    },
                    None => st,
                },
                TomlSection::Deps => match split_once(line, '=') {
                    Some((k, _v)) => {
                        let head = dep_key_head(k);
                        if head.len() > 0 && !has_ws(head) {
                            (name, deps.push(head), sec)
                        } else {
                            st
                        }
                    },
                    None => st,
                },
                TomlSection::Other => st,
            },
        }
    }
}

pub open spec fn cargo_scan(ls: Seq<Seq<char>>, n: int) -> CargoState
    decreases n,
{
    if n <= 0 {
        (None, Seq::empty(), TomlSection::Other)
    } else {
        cargo_step(cargo_scan(ls, n - 1), ls[n - 1])
    }
}

/// `(package.name, every dependency key)` of a manifest; `None` without
/// a package name.
pub open spec fn cargo_manifest(text: Seq<char>) -> Option<(Seq<char>, Seq<Seq<char>>)> {
    let ls = lines(text);
    let st = cargo_scan(ls, ls.len() as int);
    match st.0 {
        Some(n) => Some((n, st.1)),
        None => None,
    }
}

fn trim_start_char_chars(s: &Vec<char>, c: char) -> (r: Vec<char>)
    ensures
        r@ == trim_start_char(s@, c),
{
    let mut i: usize = 0;
    assert(s@.skip(0) =~= s@);
    while i < s.len() && s[i] == c
        invariant
            i <= s.len(),
            trim_start_char(s@, c) == trim_start_char(s@.skip(i as int), c),
        decreases s.len() - i,
    {
        assert(s@.skip(i as int).drop_first() =~= s@.skip(i + 1));
        i = i + 1;
    }
    skip_chars(s, i)
}

pub fn trim_end_char_chars(s: &Vec<char>, c: char) -> (r: Vec<char>)
    ensures
        r@ == trim_end_char(s@, c),
{
    let mut j: usize = s.len();
    assert(s@.take(j as int) =~= s@);
    while j > 0 && s[j - 1] == c
        invariant
            j <= s.len(),
            trim_end_char(s@, c) == trim_end_char(s@.take(j as int), c),
        decreases j,
    {
        assert(s@.take(j as int).drop_last() =~= s@.take(j - 1));
        j = j - 1;
    }
    let r = slice_chars(s, 0, j);
    assert(r@ =~= s@.take(j as int));
    r
}

fn trim_matches_chars(s: &Vec<char>, c: char) -> (r: Vec<char>)
    ensures
        r@ == trim_matches(s@, c),
{
    let t = trim_start_char_chars(s, c);
    trim_end_char_chars(&t, c)
}

fn strip_quotes_chars(s: &Vec<char>) -> (r: Vec<char>)
    ensures
        r@ == strip_quotes_spec(s@),
{
    let a = trim_chars(s);
    let b = trim_matches_chars(&a, '"');
    let c = trim_matches_chars(&b, '\'');
    trim_chars(&c)
}

/// Trim whitespace and surrounding quotes.
pub fn strip_quotes(s: &str) -> (r: String)
    ensures
        r@ == strip_quotes_spec(s@),
{
    string_of(&strip_quotes_chars(&chars_of(s)))
}

fn before_char_chars(s: &Vec<char>, c: char) -> (r: Vec<char>)
    ensures
        r@ == before_char(s@, c),
{
    proof {
        lemma_find_char_range(s@, c);
    }
    match find_char_in(s, c) {
        Some(i) => {
            assert(find_char(s@, c) == Some(i as int));
            let r = slice_chars(s, 0, i);
            assert(r@ =~= s@.take(i as int));
            r
        },
        None => slice_all(s),
    }
}

fn slice_all(s: &Vec<char>) -> (r: Vec<char>)
    ensures
        r@ == s@,
{
    let r = slice_chars(s, 0, s.len());
    assert(r@ =~= s@);
    r
}

fn after_last_char_chars(s: &Vec<char>, c: char) -> (r: Vec<char>)
    ensures
        r@ == after_last_char(s@, c),
{
    let _n = s.len();
    match rfind_in(s, c) {
        Some(i) => skip_chars(s, i + 1),
        None => slice_all(s),
    }
}

fn split_once_chars(s: &Vec<char>, c: char) -> (r: Option<(Vec<char>, Vec<char>)>)
    ensures
        match r {
            Some((a, b)) => split_once(s@, c) == Some((a@, b@)),
            None => split_once(s@, c) is None,
        },
{
    match find_char_in(s, c) {
        Some(i) => {
            proof {
                lemma_find_char_range(s@, c);
            }
            let _n = s.len();
            let a = slice_chars(s, 0, i);
            assert(a@ =~= s@.take(i as int));
            Some((a, skip_chars(s, i + 1)))
        },
        None => None,
    }
}

fn has_ws_chars(s: &Vec<char>) -> (b: bool)
    ensures
        b == has_ws(s@),
{
    let mut i: usize = 0;
    while i < s.len()
        invariant
            i <= s.len(),
            forall|k: int| 0 <= k < i ==> !is_ws(#[trigger] s@[k]),
        decreases s.len() - i,
    {
        if is_whitespace(s[i]) {
            return true;
        }
        i = i + 1;
    }
    false
}

fn header_of_chars(line: &Vec<char>) -> (r: Option<Vec<char>>)
    ensures
        match r {
            Some(h) => header_of(line@) == Some(h@),
            None => header_of(line@) is None,
        },
{
    let n = line.len();
    if n >= 2 && line[0] == '[' && line[n - 1] == ']' {
        Some(slice_chars(line, 1, n - 1))
    } else {
        None
    }
}

fn is_deps_header_chars(h: &Vec<char>) -> (b: bool)
    ensures
        b == is_deps_header(h@),
{
    let deps = chars_of("dependencies");
    chars_equal_str(h, "dependencies") || chars_equal_str(h, "dev-dependencies") || chars_equal_str(
        h,
        "build-dependencies",
    ) || (starts_with_str(h, "target.") && ends_with_chars(h, &deps))
}

fn push_view(v: &mut Vec<String>, s: String, Ghost(spec): Ghost<Seq<Seq<char>>>)
    requires
        old(v)@.map_values(|x: String| x@) == spec,
    ensures
        final(v)@.map_values(|x: String| x@) == spec.push(s@),
{
    let ghost s_view = s@;
    v.push(s);
    assert(v@.map_values(|x: String| x@) =~= spec.push(s_view));
}

/// Read a manifest's text: `package.name` and every key of the
/// dependency tables (`[dependencies]`, `[dev-dependencies]`,
/// `[build-dependencies]`, `[target.….dependencies]`, and sub-tables
/// such as `[dependencies.foo]`). `None` without a package name.
pub fn parse_cargo_toml_text(text: &str) -> (r: Option<(String, Vec<String>)>)
    ensures
        match r {
            Some((n, d)) => cargo_manifest(text@) == Some((n@, d@.map_values(|s: String| s@))),
            None => cargo_manifest(text@) is None,
        },
{
    let t = chars_of(text);
    let ls = lines_of(&t);
    let ghost L = lines(text@);
    let mut name: Option<String> = None;
    let mut deps: Vec<String> = Vec::new();
    let mut sec = TomlSection::Other;
    let mut idx: usize = 0;
    assert(deps@.map_values(|x: String| x@) =~= Seq::<Seq<char>>::empty());
    while idx < ls.len()
        invariant
            L == lines(text@),
            ls@.len() == L.len(),
            forall|i: int| 0 <= i < ls@.len() ==> #[trigger] ls@[i]@ == L[i],
            idx <= ls@.len(),
            cargo_scan(L, idx as int) == (opt_view(name), deps@.map_values(|x: String| x@), sec),
        decreases ls.len() - idx,
    {
        let ghost st = cargo_scan(L, idx as int);
        let ghost dv = deps@.map_values(|x: String| x@);
        assert(ls@[idx as int]@ == L[idx as int]);
        let line = trim_chars(&before_char_chars(&ls[idx], '#'));
        if line.len() > 0 {
            match header_of_chars(&line) {
                Some(inner) => {
                    let h = trim_chars(&inner);
                    if chars_equal_str(&h, "package") {
                        sec = TomlSection::Package;
                    } else if is_deps_header_chars(&h) {
                        sec = TomlSection::Deps;
                    } else if starts_with_str(&h, "dependencies.") || starts_with_str(&h, "dev-dependencies.")
                        || starts_with_str(&h, "build-dependencies.") {
                        let last = strip_quotes_chars(&after_last_char_chars(&h, '.'));
                        push_view(&mut deps, string_of(&last), Ghost(dv));
                        sec = TomlSection::Other;
                    } else {
                        sec = TomlSection::Other;
                    }
                },
                None => {
                    match sec {
                        TomlSection::Package => {
                            if let Some((k, v)) = split_once_chars(&line, '=') {
                                if chars_equal_str(&trim_chars(&k), "name") {
                                    name = Some(string_of(&strip_quotes_chars(&v)));
                                }
                            }
                        },
                        TomlSection::Deps => {
                            if let Some((k, _v)) = split_once_chars(&line, '=') {
                                let a = trim_chars(&k);
                                let b = trim_matches_chars(&a, '"');
                                let c = before_char_chars(&b, '.');
                                let d = trim_chars(&c);
                                let head = trim_matches_chars(&d, '"');
                                if head.len() > 0 && !has_ws_chars(&head) {
                                    push_view(&mut deps, string_of(&head), Ghost(dv));
                                }
                            }
                        },
                        TomlSection::Other => {},
                    }
                },
            }
        }
        assert(cargo_scan(L, idx + 1) == cargo_step(st, L[idx as int]));
        idx = idx + 1;
    }
    match name {
        Some(n) => Some((n, deps)),
        None => None,
    }
}

// ─────────────────────────────────────────────────────────────────────
// Workspace dependencies
// ─────────────────────────────────────────────────────────────────────

/// Every `a` replaced by `b`.
pub open spec fn replace_char(s: Seq<char>, a: char, b: char) -> Seq<char> {
    Seq::new(s.len(), |i: int| if s[i] == a { b } else { s[i] })
}

pub open spec fn crate_names(crates: Seq<RepoCrate>) -> Seq<Seq<char>> {
    crates.map_values(|c: RepoCrate| c.name@)
}

/// A dependency name refers to a workspace crate, possibly spelled with
/// `-` and `_` swapped.
pub open spec fn is_workspace_dep(names: Seq<Seq<char>>, to: Seq<char>) -> bool {
    names.contains(to) || names.contains(replace_char(to, '-', '_')) || names.contains(replace_char(to, '_', '-'))
}

pub open spec fn dep_view(d: (String, String)) -> (Seq<char>, Seq<char>) {
    (d.0@, d.1@)
}

pub open spec fn deps_view(ds: Seq<(String, String)>) -> Seq<(Seq<char>, Seq<char>)> {
    ds.map_values(|d: (String, String)| dep_view(d))
}

/// The dependency pairs whose target is a workspace crate, in order.
pub open spec fn workspace_deps(ds: Seq<(Seq<char>, Seq<char>)>, names: Seq<Seq<char>>) -> Seq<(Seq<char>, Seq<char>)>
    decreases ds.len(),
{
    if ds.len() == 0 {
        Seq::empty()
    } else {
        let rest = workspace_deps(ds.drop_last(), names);
        if is_workspace_dep(names, ds.last().1) {
            rest.push(ds.last())
        } else {
            rest
        }
    }
}

fn replace_char_chars(s: &Vec<char>, a: char, b: char) -> (r: Vec<char>)
    ensures
        r@ == replace_char(s@, a, b),
{
    let mut r: Vec<char> = Vec::new();
    let mut i: usize = 0;
    while i < s.len()
        invariant
            i <= s.len(),
            r@.len() == i,
            forall|k: int| 0 <= k < i ==> r@[k] == (if s@[k] == a { b } else { s@[k] }),
        decreases s.len() - i,
    {
        if s[i] == a {
            r.push(b);
        } else {
            r.push(s[i]);
        }
        i = i + 1;
    }
    assert(r@ =~= replace_char(s@, a, b));
    r
}

fn names_contain(crates: &Vec<RepoCrate>, name: &Vec<char>) -> (b: bool)
    ensures
        b == crate_names(crates@).contains(name@),
{
    let ghost N = crate_names(crates@);
    let mut i: usize = 0;
    while i < crates.len()
        invariant
            N == crate_names(crates@),
            N.len() == crates@.len(),
            i <= crates.len(),
            forall|k: int| 0 <= k < i ==> N[k] != name@,
        decreases crates.len() - i,
    {
        let c = chars_of(crates[i].name.as_str());
        if c.len() == name.len() && starts_with_chars_eq(&c, name) {
            assert(N[i as int] == name@);
            return true;
        }
        assert(N[i as int] == crates@[i as int].name@);
        i = i + 1;
    }
    false
}

fn starts_with_chars_eq(a: &Vec<char>, b: &Vec<char>) -> (r: bool)
    requires
        a.len() == b.len(),
    ensures
        r == (a@ == b@),
{
    let mut i: usize = 0;
    while i < a.len()
        invariant
            a.len() == b.len(),
            i <= a.len(),
            forall|k: int| 0 <= k < i ==> a@[k] == b@[k],
        decreases a.len() - i,
    {
        if a[i] != b[i] {
            return false;
        }
        i = i + 1;
    }
    assert(a@ =~= b@);
    true
}

/// Does the dependency name `to` refer to one of `crates`?
pub fn is_workspace_dependency(crates: &Vec<RepoCrate>, to: &str) -> (b: bool)
    ensures
        b == is_workspace_dep(crate_names(crates@), to@),
{
    let t = chars_of(to);
    if names_contain(crates, &t) {
        return true;
    }
    let alt = replace_char_chars(&t, '-', '_');
    if names_contain(crates, &alt) {
        return true;
    }
    let alt = replace_char_chars(&t, '_', '-');
    names_contain(crates, &alt)
}

/// Keep only the dependency pairs whose target is a workspace crate.
pub fn retain_workspace_deps(graph: &mut RepoGraph)
    ensures
        deps_view(final(graph).deps@) == workspace_deps(deps_view(old(graph).deps@), crate_names(old(graph).crates@)),
        final(graph).crates == old(graph).crates,
        final(graph).files == old(graph).files,
        final(graph).functions == old(graph).functions,
        final(graph).calls == old(graph).calls,
        final(graph).root == old(graph).root,
{
    let ghost D = deps_view(graph.deps@);
    let ghost N = crate_names(graph.crates@);
    let mut kept: Vec<(String, String)> = Vec::new();
    let mut i: usize = 0;
    while i < graph.deps.len()
        invariant
            D == deps_view(graph.deps@),
            N == crate_names(graph.crates@),
            D.len() == graph.deps@.len(),
            i <= graph.deps.len(),
            deps_view(kept@) == workspace_deps(D.take(i as int), N),
        decreases graph.deps.len() - i,
    {
        assert(D.take(i + 1).drop_last() =~= D.take(i as int));
        assert(D[i as int] == dep_view(graph.deps@[i as int]));
        if is_workspace_dependency(&graph.crates, graph.deps[i].1.as_str()) {
            let pair = (graph.deps[i].0.clone(), graph.deps[i].1.clone());
            let ghost before = kept@;
            kept.push(pair);
            assert(deps_view(kept@) =~= deps_view(before).push(D[i as int]));
        }
        i = i + 1;
    }
    assert(D.take(graph.deps@.len() as int) =~= D);
    graph.deps = kept;
}

/// `c` does not occur in `s`.
pub open spec fn free_of(s: Seq<char>, c: char) -> bool {
    forall|i: int| 0 <= i < s.len() ==> #[trigger] s[i] != c
}

proof fn lemma_free_drop_first(s: Seq<char>, c: char)
    requires
        free_of(s, c),
        s.len() > 0,
    ensures
        free_of(s.drop_first(), c),
{
    assert forall|i: int| 0 <= i < s.drop_first().len() implies #[trigger] s.drop_first()[i] != c by {
        assert(s.drop_first()[i] == s[i + 1]);
    }
}

proof fn lemma_free_drop_last(s: Seq<char>, c: char)
    requires
        free_of(s, c),
        s.len() > 0,
    ensures
        free_of(s.drop_last(), c),
{
    assert forall|i: int| 0 <= i < s.drop_last().len() implies #[trigger] s.drop_last()[i] != c by {
        assert(s.drop_last()[i] == s[i]);
    }
}

proof fn lemma_free_trim_start(s: Seq<char>, c: char)
    requires
        free_of(s, c),
    ensures
        free_of(trim_start(s), c),
    decreases s.len(),
{
    if s.len() > 0 && is_ws(s[0]) {
        lemma_free_drop_first(s, c);
        lemma_free_trim_start(s.drop_first(), c);
    }
}

proof fn lemma_free_trim_end(s: Seq<char>, c: char)
    requires
        free_of(s, c),
    ensures
        free_of(trim_end(s), c),
    decreases s.len(),
{
    if s.len() > 0 && is_ws(s.last()) {
        lemma_free_drop_last(s, c);
        lemma_free_trim_end(s.drop_last(), c);
    }
}

proof fn lemma_free_trim_start_char(s: Seq<char>, d: char, c: char)
    requires
        free_of(s, c),
    ensures
        free_of(trim_start_char(s, d), c),
    decreases s.len(),
{
    if s.len() > 0 && s[0] == d {
        lemma_free_drop_first(s, c);
        lemma_free_trim_start_char(s.drop_first(), d, c);
    }
}

proof fn lemma_free_trim_end_char(s: Seq<char>, d: char, c: char)
    requires
        free_of(s, c),
    ensures
        free_of(trim_end_char(s, d), c),
    decreases s.len(),
{
    if s.len() > 0 && s.last() == d {
        lemma_free_drop_last(s, c);
        lemma_free_trim_end_char(s.drop_last(), d, c);
    }
}

proof fn lemma_free_trims(s: Seq<char>, c: char)
    requires
        free_of(s, c),
    ensures
        free_of(trim(s), c),
        free_of(trim_matches(s, '"'), c),
        free_of(trim_matches(s, '\''), c),
{
    lemma_free_trim_start(s, c);
    lemma_free_trim_end(trim_start(s), c);
    lemma_free_trim_start_char(s, '"', c);
    lemma_free_trim_end_char(trim_start_char(s, '"'), '"', c);
    lemma_free_trim_start_char(s, '\'', c);
    lemma_free_trim_end_char(trim_start_char(s, '\''), '\'', c);
}

/// A dependency name is a whole key: the head of a dotted key
/// (`serde.workspace = true` names `serde`) or the last part of a
/// `[dependencies.NAME]` table, so no name `cargo_step` records holds
/// a `.`.
proof fn lemma_step_keeps_deps_dotless(st: CargoState, raw: Seq<char>)
    requires
        forall|k: int| 0 <= k < st.1.len() ==> free_of(#[trigger] st.1[k], '.'),
    ensures
        forall|k: int| 0 <= k < cargo_step(st, raw).1.len() ==> free_of(#[trigger] cargo_step(st, raw).1[k], '.'),
{
    let line = trim(before_char(raw, '#'));
    if line.len() > 0 {
        match header_of(line) {
            Some(inner) => {
                let h = trim(inner);
                let last = after_last_char(h, '.');
                lemma_rfind_char_range(h, '.');
                assert(free_of(last, '.')) by {
                    match rfind_char(h, '.') {
                        Some(i) => {
                            assert forall|j: int| 0 <= j < last.len() implies #[trigger] last[j] != '.' by {
                                assert(last[j] == h[i + 1 + j]);
                            }
                        },
                        None => {},
                    }
                }
                lemma_free_trims(last, '.');
                lemma_free_trims(trim(last), '.');
                lemma_free_trims(trim_matches(trim(last), '"'), '.');
                lemma_free_trims(trim_matches(trim_matches(trim(last), '"'), '\''), '.');
                let st2 = cargo_step(st, raw);
                assert forall|k: int| 0 <= k < st2.1.len() implies free_of(#[trigger] st2.1[k], '.') by {
                    if k < st.1.len() {
                        assert(free_of(st.1[k], '.'));
                    }
                }
            },
            None => {
                match split_once(line, '=') {
                    Some((key, _v)) => {
                        let a = trim_matches(trim(key), '"');
                        let b = before_char(a, '.');
                        lemma_find_char_range(a, '.');
                        assert(free_of(b, '.'));
                        lemma_free_trims(b, '.');
                        lemma_free_trims(trim(b), '.');
                        let st2 = cargo_step(st, raw);
                        assert forall|k: int| 0 <= k < st2.1.len() implies free_of(#[trigger] st2.1[k], '.') by {
                            if k < st.1.len() {
                                assert(free_of(st.1[k], '.'));
                            }
                        }
                    },
                    None => {},
                }
            },
        }
    }
}

proof fn lemma_scan_keeps_deps_dotless(ls: Seq<Seq<char>>, n: int)
    ensures
        forall|k: int| 0 <= k < cargo_scan(ls, n).1.len() ==> free_of(#[trigger] cargo_scan(ls, n).1[k], '.'),
    decreases n,
{
    if n > 0 {
        lemma_scan_keeps_deps_dotless(ls, n - 1);
        lemma_step_keeps_deps_dotless(cargo_scan(ls, n - 1), ls[n - 1]);
    }
}

/// Every dependency a manifest yields is a bare crate name, never a
/// dotted key: `serde.workspace = true` and `[dependencies.serde]` both
/// name `serde`. So no recorded dependency holds a `.`.
pub proof fn lemma_manifest_deps_are_bare_names(text: Seq<char>)
    ensures
        cargo_manifest(text) matches Some((_n, deps)) ==> forall|k: int| 0 <= k < deps.len() ==> free_of(#[trigger] deps[k], '.'),
{
    let ls = lines(text);
    lemma_scan_keeps_deps_dotless(ls, ls.len() as int);
}

} // verus!
