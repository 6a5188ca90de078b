//! Function declarations and heuristic call edges of a repository
//! graph, and the assembly of the graph from a walk of the tree.
use vstd::prelude::*;
use vstd::string::StringSliceAdditionalSpecFns;
use vstd::utf8::encode_utf8;
use crate::codegraph::{
    body_of, body_of_function, cargo_manifest, crate_names, deps_view, mentions_function, mentions_word, opt_view,
    parse_cargo_toml_text, qualified_name_of, retain_workspace_deps, workspace_deps, ExtractOptions, RepoCrate,
    RepoFile, RepoFunction, RepoGraph,
};
use crate::languages::{decl_of, extension, extract_functions, extracted, language_of_extension, DeclSpec, Language};
use crate::text::{chars_eq, chars_of, lines, string_of};

verus! {

/// What reading one repository file gave: its size when its metadata
/// could be read, and its text when it could be read as UTF-8.
#[derive(Debug, Clone)]
pub struct FileSource {
    pub size: Option<u64>,
    pub text: Option<String>,
}

/// A function record as plain values: crate, file, name, line, and the
/// test / public / async flags.
pub type FnView = (Option<Seq<char>>, Seq<char>, Seq<char>, u32, bool, bool, bool);

pub open spec fn fn_view(f: RepoFunction) -> FnView {
    (opt_view(f.crate_name), f.file_path@, f.name@, f.line, f.is_test, f.is_pub, f.is_async)
}

pub open spec fn fns_view(fs: Seq<RepoFunction>) -> Seq<FnView> {
    fs.map_values(|f: RepoFunction| fn_view(f))
}

pub open spec fn qname(f: FnView) -> Seq<char> {
    qualified_name_of(f.0, f.1, f.2)
}

/// The language a path's extension names.
pub open spec fn language_of_path(p: Seq<char>) -> Option<Language> {
    match extension(p) {
        Some(e) => language_of_extension(e),
        None => None,
    }
}

/// A file over the size budget (0 means no budget; an unknown size
/// never counts as over).
pub open spec fn too_big(size: Option<u64>, opts: ExtractOptions) -> bool {
    match size {
        Some(n) => opts.max_file_bytes > 0 && n > opts.max_file_bytes,
        None => false,
    }
}

/// The text scanned for a file: only files in a known language, within
/// the size budget, that could be read.
pub open spec fn scanned_text(f: RepoFile, s: FileSource, opts: ExtractOptions) -> Option<Seq<char>> {
    match language_of_path(f.path@) {
        Some(_) => if too_big(s.size, opts) {
            None
        } else {
            opt_view(s.text)
        },
        None => None,
    }
}

/// At most `max` declarations (0 means no cap).
pub open spec fn capped(d: Seq<DeclSpec>, max: usize) -> Seq<DeclSpec> {
    if max > 0 && d.len() > max {
        d.take(max as int)
    } else {
        d
    }
}

pub open spec fn decl_fn(f: RepoFile, d: DeclSpec) -> FnView {
    (opt_view(f.crate_name), f.path@, d.0, d.1, d.2, d.3, d.4)
}

/// The functions declared in one file.
pub open spec fn file_fns(f: RepoFile, s: FileSource, opts: ExtractOptions) -> Seq<FnView> {
    match (language_of_path(f.path@), scanned_text(f, s, opts)) {
        (Some(lang), Some(t)) => capped(extracted(lang, t), opts.max_functions_per_file).map_values(
            |d: DeclSpec| decl_fn(f, d),
        ),
        _ => Seq::empty(),
    }
}

/// The functions of the first `n` files, file by file.
pub open spec fn new_fns(files: Seq<RepoFile>, srcs: Seq<FileSource>, opts: ExtractOptions, n: int) -> Seq<FnView>
    decreases n,
{
    if n <= 0 {
        Seq::empty()
    } else {
        new_fns(files, srcs, opts, n - 1) + file_fns(files[n - 1], srcs[n - 1], opts)
    }
}

pub open spec fn texts_fit(srcs: Seq<FileSource>) -> bool {
    forall|i: int| 0 <= i < srcs.len() ==> ((#[trigger] srcs[i]).text matches Some(t) ==> lines(t@).len() < u32::MAX)
}

fn scan_file<'a>(f: &RepoFile, s: &'a FileSource, opts: &ExtractOptions) -> (r: Option<(Language, &'a String)>)
    ensures
        match r {
            Some((lang, t)) => language_of_path(f.path@) == Some(lang) && scanned_text(*f, *s, *opts) == Some(
                t@,
            ),
            None => scanned_text(*f, *s, *opts) is None,
        },
{
    let lang = match Language::from_path(f.path.as_str()) {
        Some(l) => l,
        None => {
            return None;
        },
    };
    if let Some(n) = s.size {
        if opts.max_file_bytes > 0 && n > opts.max_file_bytes {
            return None;
        }
    }
    match &s.text {
        Some(t) => Some((lang, t)),
        None => None,
    }
}

fn clone_opt_string(o: &Option<String>) -> (r: Option<String>)
    ensures
        opt_view(r) == opt_view(*o),
{
    match o {
        Some(s) => Some(s.clone()),
        None => None,
    }
}

/// Append the declarations of every scannable file to `functions`;
/// `texts[i]` and the range `spans[i]` record what file `i` gave.
fn collect_functions(
    files: &Vec<RepoFile>,
    sources: &Vec<FileSource>,
    opts: &ExtractOptions,
    functions: &mut Vec<RepoFunction>,
) -> (r: (Vec<Option<String>>, Vec<(usize, usize)>))
    requires
        sources@.len() == files@.len(),
        texts_fit(sources@),
    ensures
        fns_view(final(functions)@) == fns_view(old(functions)@) + new_fns(files@, sources@, *opts, files@.len() as int),
        r.0@.len() == files@.len(),
        r.1@.len() == files@.len(),
        forall|i: int|
            0 <= i < files@.len() ==> opt_view(#[trigger] r.0@[i]) == scanned_text(files@[i], sources@[i], *opts),
        forall|i: int|
            #![trigger r.1@[i]]
            0 <= i < files@.len() ==> {
                &&& old(functions)@.len() <= r.1@[i].0 <= r.1@[i].1 <= final(functions)@.len()
                &&& fns_view(final(functions)@).subrange(r.1@[i].0 as int, r.1@[i].1 as int) == file_fns(
                    files@[i],
                    sources@[i],
                    *opts,
                )
                &&& r.1@[i].0 == old(functions)@.len() + new_fns(files@, sources@, *opts, i).len()
            },
{
    let ghost base = fns_view(functions@);
    let ghost n0 = functions@.len();
    let mut texts: Vec<Option<String>> = Vec::new();
    let mut spans: Vec<(usize, usize)> = Vec::new();
    let mut i: usize = 0;
    while i < files.len()
        invariant
            i <= files@.len(),
            sources@.len() == files@.len(),
            texts_fit(sources@),
            n0 <= functions@.len(),
            fns_view(functions@) == base + new_fns(files@, sources@, *opts, i as int),
            base.len() == n0,
            texts@.len() == i,
            spans@.len() == i,
            forall|k: int| 0 <= k < i ==> opt_view(#[trigger] texts@[k]) == scanned_text(files@[k], sources@[k], *opts),
            forall|k: int|
                #![trigger spans@[k]]
                0 <= k < i ==> {
                    &&& n0 <= spans@[k].0 <= spans@[k].1 <= functions@.len()
                    &&& fns_view(functions@).subrange(spans@[k].0 as int, spans@[k].1 as int) == file_fns(
                        files@[k],
                        sources@[k],
                        *opts,
                    )
                    &&& spans@[k].0 == n0 + new_fns(files@, sources@, *opts, k).len()
                },
        decreases files.len() - i,
    {
        let start = functions.len();
        let ghost before = fns_view(functions@);
        let file = &files[i];
        let found = scan_file(file, &sources[i], opts);
        match found {
            Some((lang, text)) => {
                proof {
                    assert(sources@[i as int].text matches Some(t) && t@ == text@);
                    assert(lines(text@).len() < u32::MAX);
                }
                let mut parsed = extract_functions(lang, text.as_str());
                let ghost decls = extracted(lang, text@);
                if opts.max_functions_per_file > 0 && parsed.len() > opts.max_functions_per_file {
                    parsed.truncate(opts.max_functions_per_file);
                }
                let ghost kept = capped(decls, opts.max_functions_per_file);
                assert(parsed@.len() == kept.len());
                assert forall|q: int| 0 <= q < kept.len() implies #[trigger] decl_of(parsed@[q]) == kept[q] by {}
                let mut j: usize = 0;
                assert(fns_view(functions@) =~= before + kept.take(0).map_values(|d: DeclSpec| decl_fn(*file, d)));
                while j < parsed.len()
                    invariant
                        j <= parsed@.len(),
                        parsed@.len() == kept.len(),
                        forall|q: int| 0 <= q < kept.len() ==> #[trigger] decl_of(parsed@[q]) == kept[q],
                        start == before.len(),
                        fns_view(functions@) == before + kept.take(j as int).map_values(
                            |d: DeclSpec| decl_fn(*file, d),
                        ),
                    decreases parsed.len() - j,
                {
                    let p = &parsed[j];
                    let rf = RepoFunction {
                        crate_name: clone_opt_string(&file.crate_name),
                        file_path: file.path.clone(),
                        name: p.name.clone(),
                        line: p.line,
                        is_test: p.is_test,
                        is_pub: p.is_pub,
                        is_async: p.is_async,
                    };
                    let ghost prev = fns_view(functions@);
                    functions.push(rf);
                    proof {
                        assert(decl_of(parsed@[j as int]) == kept[j as int]);
                        assert(fn_view(rf) == decl_fn(*file, kept[j as int]));
                        assert(fns_view(functions@) =~= prev.push(fn_view(rf)));
                        assert(kept.take(j + 1).map_values(|d: DeclSpec| decl_fn(*file, d)) =~= kept.take(
                            j as int,
                        ).map_values(|d: DeclSpec| decl_fn(*file, d)).push(decl_fn(*file, kept[j as int])));
                    }
                    j = j + 1;
                }
                proof {
                    assert(kept.take(kept.len() as int) =~= kept);
                }
                texts.push(Some(text.clone()));
            },
            None => {
                texts.push(None);
            },
        }
        let end = functions.len();
        proof {
            assert(file_fns(files@[i as int], sources@[i as int], *opts) =~= fns_view(functions@).subrange(
                start as int,
                end as int,
            ));
            assert(new_fns(files@, sources@, *opts, i + 1) == new_fns(files@, sources@, *opts, i as int)
                + file_fns(files@[i as int], sources@[i as int], *opts));
            assert(fns_view(functions@) =~= base + new_fns(files@, sources@, *opts, i + 1));
        }
        assert(fns_view(functions@).subrange(0, start as int) =~= before);
        let ghost prev_spans = spans@;
        spans.push((start, end));
        proof {
            assert forall|k: int| #![trigger spans@[k]] 0 <= k < i + 1 implies {
                &&& n0 <= spans@[k].0 <= spans@[k].1 <= functions@.len()
                &&& fns_view(functions@).subrange(spans@[k].0 as int, spans@[k].1 as int) == file_fns(
                    files@[k],
                    sources@[k],
                    *opts,
                )
                &&& spans@[k].0 == n0 + new_fns(files@, sources@, *opts, k).len()
            } by {
                if k < i {
                    assert(spans@[k] == prev_spans[k]);
                    assert(fns_view(functions@).subrange(spans@[k].0 as int, spans@[k].1 as int) =~= before.subrange(
                        spans@[k].0 as int,
                        spans@[k].1 as int,
                    ));
                }
            }
        }
        i = i + 1;
    }
    (texts, spans)
}

/// A call edge: caller and callee qualified names.
pub type Edge = (Seq<char>, Seq<char>);

pub open spec fn edges_view(v: Seq<(String, String)>) -> Seq<Edge> {
    v.map_values(|e: (String, String)| (e.0@, e.1@))
}

pub open spec fn has_name(cs: Seq<(Seq<char>, Seq<char>)>, n: Seq<char>) -> bool {
    exists|k: int| 0 <= k < cs.len() && (#[trigger] cs[k]).0 == n
}

/// One (name, qualified name) pair per distinct name of `fs`, in order
/// of first declaration; the first declaration of a name wins.
pub open spec fn callees_of(fs: Seq<FnView>) -> Seq<(Seq<char>, Seq<char>)>
    decreases fs.len(),
{
    if fs.len() == 0 {
        Seq::empty()
    } else {
        let prev = callees_of(fs.drop_last());
        if has_name(prev, fs.last().2) {
            prev
        } else {
            prev.push((fs.last().2, qname(fs.last())))
        }
    }
}

/// Edges from `caller`, whose body is `body`, to each callee the body
/// mentions as a whole word, the caller itself excepted.
pub open spec fn edges_from(caller: Seq<char>, body: Seq<char>, callees: Seq<(Seq<char>, Seq<char>)>) -> Seq<Edge>
    decreases callees.len(),
{
    if callees.len() == 0 {
        Seq::empty()
    } else {
        let rest = edges_from(caller, body, callees.drop_last());
        let c = callees.last();
        if c.1 != caller && mentions_word(encode_utf8(body), encode_utf8(c.0)) {
            rest.push((caller, c.1))
        } else {
            rest
        }
    }
}

/// The edges of one caller whose file text is `text`: none when the
/// text or the body cannot be found.
pub open spec fn caller_edges(c: FnView, text: Option<Seq<char>>, callees: Seq<(Seq<char>, Seq<char>)>) -> Seq<Edge> {
    match text {
        Some(t) => match body_of(t, c.3 as nat) {
            Some(b) => edges_from(qname(c), b, callees),
            None => Seq::empty(),
        },
        None => Seq::empty(),
    }
}

/// The edges of the first `n` callers of one file.
pub open spec fn block_edges(
    callers: Seq<FnView>,
    text: Option<Seq<char>>,
    callees: Seq<(Seq<char>, Seq<char>)>,
    n: int,
) -> Seq<Edge>
    decreases n,
{
    if n <= 0 {
        Seq::empty()
    } else {
        block_edges(callers, text, callees, n - 1) + caller_edges(callers[n - 1], text, callees)
    }
}

/// The functions of those of the first `n` files whose path is `p`,
/// file by file: repeated entries of one path make one group.
pub open spec fn group_fns(files: Seq<RepoFile>, srcs: Seq<FileSource>, opts: ExtractOptions, p: Seq<char>, n: int) -> Seq<
    FnView,
>
    decreases n,
{
    if n <= 0 {
        Seq::empty()
    } else {
        group_fns(files, srcs, opts, p, n - 1) + if files[n - 1].path@ == p {
            file_fns(files[n - 1], srcs[n - 1], opts)
        } else {
            Seq::empty()
        }
    }
}

/// The text kept for path `p` after the first `n` files: that of the
/// last file with that path whose text was scanned.
pub open spec fn last_text(files: Seq<RepoFile>, srcs: Seq<FileSource>, opts: ExtractOptions, p: Seq<char>, n: int) -> Option<
    Seq<char>,
>
    decreases n,
{
    if n <= 0 {
        None
    } else if files[n - 1].path@ == p && scanned_text(files[n - 1], srcs[n - 1], opts) is Some {
        scanned_text(files[n - 1], srcs[n - 1], opts)
    } else {
        last_text(files, srcs, opts, p, n - 1)
    }
}

/// The same-file edges of path `p`: each function of its group calls
/// the group's functions it mentions, bodies read from the path's text.
pub open spec fn path_edges(files: Seq<RepoFile>, srcs: Seq<FileSource>, opts: ExtractOptions, p: Seq<char>) -> Seq<Edge> {
    let g = group_fns(files, srcs, opts, p, files.len() as int);
    block_edges(g, last_text(files, srcs, opts, p, files.len() as int), callees_of(g), g.len() as int)
}

/// Same-file edges of the paths first met among the first `n` files,
/// in order of first appearance.
pub open spec fn same_file_edges(files: Seq<RepoFile>, srcs: Seq<FileSource>, opts: ExtractOptions, n: int) -> Seq<Edge>
    decreases n,
{
    if n <= 0 {
        Seq::empty()
    } else {
        same_file_edges(files, srcs, opts, n - 1) + if path_index(files, files[n - 1].path@, n - 1) is None {
            path_edges(files, srcs, opts, files[n - 1].path@)
        } else {
            Seq::empty()
        }
    }
}

/// How many of `fs` are named `n`.
pub open spec fn name_count(fs: Seq<FnView>, n: Seq<char>) -> nat
    decreases fs.len(),
{
    if fs.len() == 0 {
        0
    } else {
        name_count(fs.drop_last(), n) + if fs.last().2 == n {
            1nat
        } else {
            0nat
        }
    }
}

/// The callees of `cs` whose name is declared exactly once in `fs`.
pub open spec fn unique_callees(cs: Seq<(Seq<char>, Seq<char>)>, fs: Seq<FnView>) -> Seq<(Seq<char>, Seq<char>)>
    decreases cs.len(),
{
    if cs.len() == 0 {
        Seq::empty()
    } else {
        let rest = unique_callees(cs.drop_last(), fs);
        if name_count(fs, cs.last().0) == 1 {
            rest.push(cs.last())
        } else {
            rest
        }
    }
}

/// Index of the first of the first `n` files with path `p`.
pub open spec fn path_index(files: Seq<RepoFile>, p: Seq<char>, n: int) -> Option<int>
    decreases n,
{
    if n <= 0 {
        None
    } else {
        match path_index(files, p, n - 1) {
            Some(k) => Some(k),
            None => if files[n - 1].path@ == p {
                Some(n - 1)
            } else {
                None
            },
        }
    }
}

/// Edges of the first `n` of `callers`, each read from its own file,
/// towards the names declared once among the new functions.
pub open spec fn global_edges(
    callers: Seq<FnView>,
    files: Seq<RepoFile>,
    srcs: Seq<FileSource>,
    opts: ExtractOptions,
    callees: Seq<(Seq<char>, Seq<char>)>,
    n: int,
) -> Seq<Edge>
    decreases n,
{
    if n <= 0 {
        Seq::empty()
    } else {
        global_edges(callers, files, srcs, opts, callees, n - 1) + caller_edges(
            callers[n - 1],
            last_text(files, srcs, opts, callers[n - 1].1, files.len() as int),
            callees,
        )
    }
}

fn push_edges_from(
    calls: &mut Vec<(String, String)>,
    caller_qn: &String,
    body: &String,
    callees: &Vec<(String, String)>,
)
    ensures
        edges_view(final(calls)@) == edges_view(old(calls)@) + edges_from(
            caller_qn@,
            body@,
            edges_view(callees@),
        ),
{
    let ghost base = edges_view(calls@);
    let ghost cs = edges_view(callees@);
    let caller_chars = chars_of(caller_qn.as_str());
    let mut k: usize = 0;
    assert(cs.take(0) =~= Seq::<(Seq<char>, Seq<char>)>::empty());
    assert(edges_view(calls@) =~= base + edges_from(caller_qn@, body@, cs.take(0)));
    while k < callees.len()
        invariant
            k <= callees@.len(),
            cs == edges_view(callees@),
            caller_chars@ == caller_qn@,
            edges_view(calls@) == base + edges_from(caller_qn@, body@, cs.take(k as int)),
        decreases callees.len() - k,
    {
        assert(cs.take(k + 1).drop_last() =~= cs.take(k as int));
        let (name, qn) = (&callees[k].0, &callees[k].1);
        assert(cs[k as int] == (name@, qn@));
        let same = chars_eq(&chars_of(qn.as_str()), &caller_chars);
        if !same && mentions_function(body.as_str(), name.as_str()) {
            let ghost prev = edges_view(calls@);
            calls.push((caller_qn.clone(), qn.clone()));
            assert(edges_view(calls@) =~= prev.push((caller_qn@, qn@)));
        }
        k = k + 1;
    }
    assert(cs.take(callees@.len() as int) =~= cs);
}

fn push_caller_edges(
    calls: &mut Vec<(String, String)>,
    caller: &RepoFunction,
    text: &Option<String>,
    callees: &Vec<(String, String)>,
)
    ensures
        edges_view(final(calls)@) == edges_view(old(calls)@) + caller_edges(
            fn_view(*caller),
            opt_view(*text),
            edges_view(callees@),
        ),
{
    match text {
        Some(t) => {
            let body = body_of_function(t.as_str(), caller.line as usize);
            match body {
                Some(b) => {
                    let qn = caller.qualified_name();
                    push_edges_from(calls, &qn, &b, callees);
                },
                None => {
                    assert(edges_view(calls@) =~= edges_view(old(calls)@) + Seq::<Edge>::empty());
                },
            }
        },
        None => {
            assert(edges_view(calls@) =~= edges_view(old(calls)@) + Seq::<Edge>::empty());
        },
    }
}

fn name_index(cs: &Vec<(String, String)>, name: &String) -> (r: bool)
    ensures
        r == has_name(edges_view(cs@), name@),
{
    let n = chars_of(name.as_str());
    let mut k: usize = 0;
    while k < cs.len()
        invariant
            k <= cs@.len(),
            n@ == name@,
            forall|q: int| 0 <= q < k ==> (#[trigger] edges_view(cs@)[q]).0 != name@,
        decreases cs.len() - k,
    {
        assert(edges_view(cs@)[k as int] == (cs@[k as int].0@, cs@[k as int].1@));
        if chars_eq(&chars_of(cs[k].0.as_str()), &n) {
            return true;
        }
        k = k + 1;
    }
    false
}

/// The callees of `fs[from..to]`.
fn collect_callees(fs: &Vec<RepoFunction>, from: usize, to: usize) -> (r: Vec<(String, String)>)
    requires
        from <= to <= fs@.len(),
    ensures
        edges_view(r@) == callees_of(fns_view(fs@).subrange(from as int, to as int)),
{
    let ghost all = fns_view(fs@);
    let mut r: Vec<(String, String)> = Vec::new();
    let mut i: usize = from;
    assert(all.subrange(from as int, from as int) =~= Seq::<FnView>::empty());
    while i < to
        invariant
            from <= i <= to <= fs@.len(),
            all == fns_view(fs@),
            edges_view(r@) == callees_of(all.subrange(from as int, i as int)),
        decreases to - i,
    {
        let f = &fs[i];
        assert(all.subrange(from as int, i + 1).drop_last() =~= all.subrange(from as int, i as int));
        assert(all.subrange(from as int, i + 1).last() == fn_view(*f));
        if !name_index(&r, &f.name) {
            let qn = f.qualified_name();
            let ghost prev = edges_view(r@);
            r.push((f.name.clone(), qn));
            assert(edges_view(r@) =~= prev.push((f.name@, qname(fn_view(*f)))));
        }
        i = i + 1;
    }
    r
}

fn count_named(fs: &Vec<RepoFunction>, from: usize, to: usize, name: &String) -> (r: usize)
    requires
        from <= to <= fs@.len(),
    ensures
        r == name_count(fns_view(fs@).subrange(from as int, to as int), name@),
{
    let ghost all = fns_view(fs@);
    let n = chars_of(name.as_str());
    let mut c: usize = 0;
    let mut i: usize = from;
    assert(all.subrange(from as int, from as int) =~= Seq::<FnView>::empty());
    while i < to
        invariant
            from <= i <= to <= fs@.len(),
            all == fns_view(fs@),
            n@ == name@,
            c == name_count(all.subrange(from as int, i as int), name@),
            c <= i - from,
        decreases to - i,
    {
        assert(all.subrange(from as int, i + 1).drop_last() =~= all.subrange(from as int, i as int));
        assert(all.subrange(from as int, i + 1).last() == fn_view(fs@[i as int]));
        if chars_eq(&chars_of(fs[i].name.as_str()), &n) {
            c = c + 1;
        }
        i = i + 1;
    }
    c
}

fn unique_of(cs: &Vec<(String, String)>, fs: &Vec<RepoFunction>, from: usize, to: usize) -> (r: Vec<(String, String)>)
    requires
        from <= to <= fs@.len(),
    ensures
        edges_view(r@) == unique_callees(edges_view(cs@), fns_view(fs@).subrange(from as int, to as int)),
{
    let ghost c = edges_view(cs@);
    let ghost block = fns_view(fs@).subrange(from as int, to as int);
    let mut r: Vec<(String, String)> = Vec::new();
    let mut k: usize = 0;
    assert(c.take(0) =~= Seq::<(Seq<char>, Seq<char>)>::empty());
    while k < cs.len()
        invariant
            k <= cs@.len(),
            c == edges_view(cs@),
            from <= to <= fs@.len(),
            block == fns_view(fs@).subrange(from as int, to as int),
            edges_view(r@) == unique_callees(c.take(k as int), block),
        decreases cs.len() - k,
    {
        assert(c.take(k + 1).drop_last() =~= c.take(k as int));
        assert(c.take(k + 1).last() == (cs@[k as int].0@, cs@[k as int].1@));
        if count_named(fs, from, to, &cs[k].0) == 1 {
            let ghost prev = edges_view(r@);
            r.push((cs[k].0.clone(), cs[k].1.clone()));
            assert(edges_view(r@) =~= prev.push(c[k as int]));
        }
        k = k + 1;
    }
    assert(c.take(cs@.len() as int) =~= c);
    r
}

/// Whether no file before `i` has the path of file `i`.
fn first_of_path(files: &Vec<RepoFile>, i: usize) -> (r: bool)
    requires
        i < files@.len(),
    ensures
        r == (path_index(files@, files@[i as int].path@, i as int) is None),
{
    let pc = chars_of(files[i].path.as_str());
    let mut k: usize = 0;
    while k < i
        invariant
            k <= i < files@.len(),
            pc@ == files@[i as int].path@,
            path_index(files@, pc@, k as int) is None,
        decreases i - k,
    {
        if chars_eq(&chars_of(files[k].path.as_str()), &pc) {
            proof {
                lemma_path_index_extends(files@, pc@, k as int + 1, i as int);
            }
            return false;
        }
        k = k + 1;
    }
    true
}

proof fn lemma_path_index_extends(files: Seq<RepoFile>, p: Seq<char>, m: int, n: int)
    requires
        0 <= m <= n,
        path_index(files, p, m) is Some,
    ensures
        path_index(files, p, n) == path_index(files, p, m),
    decreases n - m,
{
    if m < n {
        lemma_path_index_extends(files, p, m, n - 1);
    }
}

/// The text kept for path `p`: the last scanned text of a file with
/// that path.
fn text_for(
    files: &Vec<RepoFile>,
    sources: &Vec<FileSource>,
    opts: &ExtractOptions,
    texts: &Vec<Option<String>>,
    p: &String,
) -> (r: Option<String>)
    requires
        sources@.len() == files@.len(),
        texts@.len() == files@.len(),
        forall|k: int| 0 <= k < files@.len() ==> opt_view(#[trigger] texts@[k]) == scanned_text(files@[k], sources@[k], *opts),
    ensures
        opt_view(r) == last_text(files@, sources@, *opts, p@, files@.len() as int),
{
    let pc = chars_of(p.as_str());
    let mut r: Option<String> = None;
    let mut k: usize = 0;
    while k < files.len()
        invariant
            k <= files@.len(),
            sources@.len() == files@.len(),
            texts@.len() == files@.len(),
            forall|q: int| 0 <= q < files@.len() ==> opt_view(#[trigger] texts@[q]) == scanned_text(files@[q], sources@[q], *opts),
            pc@ == p@,
            opt_view(r) == last_text(files@, sources@, *opts, p@, k as int),
        decreases files.len() - k,
    {
        assert(opt_view(texts@[k as int]) == scanned_text(files@[k as int], sources@[k as int], *opts));
        if chars_eq(&chars_of(files[k].path.as_str()), &pc) && texts[k].is_some() {
            r = clone_opt_string(&texts[k]);
        }
        k = k + 1;
    }
    r
}

fn copy_fn(f: &RepoFunction) -> (r: RepoFunction)
    ensures
        fn_view(r) == fn_view(*f),
{
    RepoFunction {
        crate_name: clone_opt_string(&f.crate_name),
        file_path: f.file_path.clone(),
        name: f.name.clone(),
        line: f.line,
        is_test: f.is_test,
        is_pub: f.is_pub,
        is_async: f.is_async,
    }
}

/// The functions of every file with path `p`, file by file.
fn group_of(
    files: &Vec<RepoFile>,
    sources: &Vec<FileSource>,
    opts: &ExtractOptions,
    functions: &Vec<RepoFunction>,
    spans: &Vec<(usize, usize)>,
    p: &String,
) -> (g: Vec<RepoFunction>)
    requires
        sources@.len() == files@.len(),
        spans@.len() == files@.len(),
        forall|k: int|
            #![trigger spans@[k]]
            0 <= k < files@.len() ==> {
                &&& spans@[k].0 <= spans@[k].1 <= functions@.len()
                &&& fns_view(functions@).subrange(spans@[k].0 as int, spans@[k].1 as int) == file_fns(
                    files@[k],
                    sources@[k],
                    *opts,
                )
            },
    ensures
        fns_view(g@) == group_fns(files@, sources@, *opts, p@, files@.len() as int),
{
    let ghost all = fns_view(functions@);
    let pc = chars_of(p.as_str());
    let mut g: Vec<RepoFunction> = Vec::new();
    let mut k: usize = 0;
    assert(fns_view(g@) =~= Seq::<FnView>::empty());
    while k < files.len()
        invariant
            k <= files@.len(),
            sources@.len() == files@.len(),
            spans@.len() == files@.len(),
            all == fns_view(functions@),
            pc@ == p@,
            forall|q: int|
                #![trigger spans@[q]]
                0 <= q < files@.len() ==> {
                    &&& spans@[q].0 <= spans@[q].1 <= functions@.len()
                    &&& all.subrange(spans@[q].0 as int, spans@[q].1 as int) == file_fns(
                        files@[q],
                        sources@[q],
                        *opts,
                    )
                },
            fns_view(g@) == group_fns(files@, sources@, *opts, p@, k as int),
        decreases files.len() - k,
    {
        let ghost before = fns_view(g@);
        if chars_eq(&chars_of(files[k].path.as_str()), &pc) {
            let (from, to) = spans[k];
            assert(spans@[k as int] == (from, to));
            let ghost block = all.subrange(from as int, to as int);
            let mut j: usize = from;
            assert(block.take(0) =~= Seq::<FnView>::empty());
            assert(fns_view(g@) =~= before + block.take(0));
            while j < to
                invariant
                    from <= j <= to <= functions@.len(),
                    all == fns_view(functions@),
                    block == all.subrange(from as int, to as int),
                    fns_view(g@) == before + block.take(j - from),
                decreases to - j,
            {
                let ghost prev = fns_view(g@);
                g.push(copy_fn(&functions[j]));
                let ghost n = j + 1 - from;
                assert(block.take(n) =~= block.take(j - from).push(all[j as int]));
                assert(fns_view(g@) =~= prev.push(all[j as int]));
                j = j + 1;
            }
            assert(block.take(to - from) =~= block);
        } else {
            assert(fns_view(g@) =~= before + Seq::<FnView>::empty());
        }
        k = k + 1;
    }
    g
}

/// Scan every file of `graph` for declarations and add them to its
/// functions, then add heuristic call edges between them. `sources[i]`
/// is what reading `graph.files[i]` gave.
///
/// Files in no known language, over the size budget or unreadable are
/// skipped; each file gives at most `max_functions_per_file`
/// declarations (0: no cap). With `same_file_calls_only`, a function
/// calls each function of its own file whose name its body mentions
/// as a whole word (the first declaration of a name stands for it).
/// Otherwise every function of the graph calls each new function
/// whose name is declared once among the new functions and appears
/// in its body.
pub fn extract_functions_into(graph: &mut RepoGraph, opts: &ExtractOptions, sources: &Vec<FileSource>)
    requires
        sources@.len() == old(graph).files@.len(),
        texts_fit(sources@),
    ensures
        final(graph).root == old(graph).root,
        final(graph).crates == old(graph).crates,
        final(graph).files == old(graph).files,
        final(graph).deps == old(graph).deps,
        fns_view(final(graph).functions@) == fns_view(old(graph).functions@) + new_fns(
            old(graph).files@,
            sources@,
            *opts,
            old(graph).files@.len() as int,
        ),
        edges_view(final(graph).calls@) == edges_view(old(graph).calls@) + (if opts.same_file_calls_only {
            same_file_edges(old(graph).files@, sources@, *opts, old(graph).files@.len() as int)
        } else {
            let nf = new_fns(old(graph).files@, sources@, *opts, old(graph).files@.len() as int);
            global_edges(
                fns_view(final(graph).functions@),
                old(graph).files@,
                sources@,
                *opts,
                unique_callees(callees_of(nf), nf),
                final(graph).functions@.len() as int,
            )
        }),
{
    let ghost files0 = graph.files@;
    let ghost old_fns = fns_view(graph.functions@);
    let n0 = graph.functions.len();
    let (texts, spans) = collect_functions(&graph.files, sources, opts, &mut graph.functions);
    let ghost all = fns_view(graph.functions@);
    let mut calls: Vec<(String, String)> = Vec::new();
    std::mem::swap(&mut calls, &mut graph.calls);
    let ghost base = edges_view(calls@);
    assert(all.len() == graph.functions@.len());
    assert(old_fns.len() == n0);
    let nfiles = graph.files.len();
    if opts.same_file_calls_only {
        let mut i: usize = 0;
        while i < nfiles
            invariant
                nfiles == graph.files@.len(),
                graph.files@ == files0,
                sources@.len() == files0.len(),
                texts@.len() == nfiles,
                spans@.len() == nfiles,
                all == fns_view(graph.functions@),
                i <= nfiles,
                forall|k: int|
                    0 <= k < nfiles ==> opt_view(#[trigger] texts@[k]) == scanned_text(files0[k], sources@[k], *opts),
                forall|k: int|
                    #![trigger spans@[k]]
                    0 <= k < nfiles ==> {
                        &&& spans@[k].0 <= spans@[k].1 <= graph.functions@.len()
                        &&& fns_view(graph.functions@).subrange(spans@[k].0 as int, spans@[k].1 as int) == file_fns(
                            files0[k],
                            sources@[k],
                            *opts,
                        )
                    },
                edges_view(calls@) == base + same_file_edges(files0, sources@, *opts, i as int),
            decreases nfiles - i,
        {
            let ghost p = files0[i as int].path@;
            if first_of_path(&graph.files, i) {
                let group = group_of(&graph.files, sources, opts, &graph.functions, &spans, &graph.files[i].path);
                let text = text_for(&graph.files, sources, opts, &texts, &graph.files[i].path);
                let ghost gv = group_fns(files0, sources@, *opts, p, files0.len() as int);
                let ghost tv = last_text(files0, sources@, *opts, p, files0.len() as int);
                let callees = collect_callees(&group, 0, group.len());
                assert(fns_view(group@).subrange(0, group@.len() as int) =~= gv);
                let ghost mid = edges_view(calls@);
                let mut j: usize = 0;
                while j < group.len()
                    invariant
                        j <= group@.len(),
                        fns_view(group@) == gv,
                        edges_view(callees@) == callees_of(gv),
                        opt_view(text) == tv,
                        edges_view(calls@) == mid + block_edges(gv, tv, callees_of(gv), j as int),
                    decreases group.len() - j,
                {
                    assert(gv[j as int] == fn_view(group@[j as int]));
                    push_caller_edges(&mut calls, &group[j], &text, &callees);
                    j = j + 1;
                }
                proof {
                    assert(same_file_edges(files0, sources@, *opts, i + 1) == same_file_edges(
                        files0,
                        sources@,
                        *opts,
                        i as int,
                    ) + path_edges(files0, sources@, *opts, p));
                }
            } else {
                assert(same_file_edges(files0, sources@, *opts, i + 1) =~= same_file_edges(
                    files0,
                    sources@,
                    *opts,
                    i as int,
                ) + Seq::<Edge>::empty());
            }
            i = i + 1;
        }
    } else {
        let nall = graph.functions.len();
        let ghost nf = new_fns(files0, sources@, *opts, files0.len() as int);
        assert(all.subrange(n0 as int, nall as int) =~= nf);
        let named = collect_callees(&graph.functions, n0, nall);
        let callees = unique_of(&named, &graph.functions, n0, nall);
        let ghost cs = unique_callees(callees_of(nf), nf);
        let mut j: usize = 0;
        while j < nall
            invariant
                nall == graph.functions@.len(),
                all == fns_view(graph.functions@),
                graph.files@ == files0,
                sources@.len() == files0.len(),
                texts@.len() == files0.len(),
                forall|k: int|
                    0 <= k < files0.len() ==> opt_view(#[trigger] texts@[k]) == scanned_text(
                        files0[k],
                        sources@[k],
                        *opts,
                    ),
                edges_view(callees@) == cs,
                j <= nall,
                edges_view(calls@) == base + global_edges(all, files0, sources@, *opts, cs, j as int),
            decreases nall - j,
        {
            let caller = &graph.functions[j];
            assert(all[j as int] == fn_view(*caller));
            let text = text_for(&graph.files, sources, opts, &texts, &caller.file_path);
            push_caller_edges(&mut calls, &graph.functions[j], &text, &callees);
            j = j + 1;
        }
    }
    std::mem::swap(&mut calls, &mut graph.calls);
}

/// What a walk of the tree recorded, in visiting order: one crate per
/// manifest, one dependency pair per dependency key, one file per
/// source file.
#[derive(Debug)]
pub struct RepoWalk {
    crates: Vec<RepoCrate>,
    files: Vec<RepoFile>,
    deps: Vec<(String, String)>,
}

/// Every file is in a known language.
pub open spec fn known_languages(files: Seq<RepoFile>) -> bool {
    forall|i: int| 0 <= i < files.len() ==> (#[trigger] language_of_path(files[i].path@)) is Some
}

/// A walk as its crates, files and dependency pairs.
impl View for RepoWalk {
    type V = (Seq<RepoCrate>, Seq<RepoFile>, Seq<(String, String)>);

    closed spec fn view(&self) -> Self::V {
        (self.crates@, self.files@, self.deps@)
    }
}

/// The crate a manifest declares: its package name, else the name of
/// its directory, else `unknown`; and its dependency keys.
pub open spec fn manifest_crate(text: Option<Seq<char>>, dir_name: Option<Seq<char>>) -> (Seq<char>, Seq<Seq<char>>) {
    let parsed = match text {
        Some(t) => cargo_manifest(t),
        None => None,
    };
    match parsed {
        Some((n, deps)) => (n, deps),
        None => (
            match dir_name {
                Some(d) => d,
                None => "unknown"@,
            },
            Seq::empty(),
        ),
    }
}

impl RepoWalk {
    /// Only files in a known language are recorded.
    #[verifier::type_invariant]
    spec fn only_known_languages(self) -> bool {
        known_languages(self.files@)
    }

    /// Nothing recorded yet.
    pub fn new() -> (r: Self)
        ensures
            r@.0.len() == 0 && r@.1.len() == 0 && r@.2.len() == 0,
    {
        RepoWalk { crates: Vec::new(), files: Vec::new(), deps: Vec::new() }
    }

    /// Record the manifest of directory `dir` (named `dir_name`), whose
    /// text is `text` (`None` when it could not be read).
    pub fn add_manifest(&mut self, dir: &str, dir_name: Option<&str>, text: Option<&str>)
        ensures
            final(self)@.1 == old(self)@.1,
            ({
                let (name, deps) = manifest_crate(
                    match text {
                        Some(t) => Some(t@),
                        None => None,
                    },
                    match dir_name {
                        Some(d) => Some(d@),
                        None => None,
                    },
                );
                &&& final(self)@.0.len() == old(self)@.0.len() + 1
                &&& final(self)@.0.take(old(self)@.0.len() as int) == old(self)@.0
                &&& final(self)@.0.last().name@ == name
                &&& final(self)@.0.last().path@ == dir@
                &&& deps_view(final(self)@.2) == deps_view(old(self)@.2) + deps.map_values(
                    |d: Seq<char>| (name, d),
                )
            }),
    {
        let parsed = match text {
            Some(t) => parse_cargo_toml_text(t),
            None => None,
        };
        let (name, deps) = match parsed {
            Some((n, d)) => (n, d),
            None => (
                match dir_name {
                    Some(d) => string_of(&chars_of(d)),
                    None => string_of(&chars_of("unknown")),
                },
                Vec::new(),
            ),
        };
        proof {
            use_type_invariant(&*self);
        }
        let ghost dv = deps@.map_values(|s: String| s@);
        let mut crates: Vec<RepoCrate> = Vec::new();
        std::mem::swap(&mut crates, &mut self.crates);
        let mut pairs: Vec<(String, String)> = Vec::new();
        std::mem::swap(&mut pairs, &mut self.deps);
        let ghost before = deps_view(pairs@);
        let ghost crates0 = crates@;
        crates.push(RepoCrate { name: name.clone(), path: string_of(&chars_of(dir)) });
        assert(crates@.take(crates0.len() as int) =~= crates0);
        let mut i: usize = 0;
        assert(dv.take(0).map_values(|d: Seq<char>| (name@, d)) =~= Seq::<(Seq<char>, Seq<char>)>::empty());
        while i < deps.len()
            invariant
                i <= deps@.len(),
                dv == deps@.map_values(|s: String| s@),
                deps_view(pairs@) == before + dv.take(i as int).map_values(|d: Seq<char>| (name@, d)),
            decreases deps.len() - i,
        {
            let ghost prev = deps_view(pairs@);
            pairs.push((name.clone(), deps[i].clone()));
            assert(deps_view(pairs@) =~= prev.push((name@, deps@[i as int]@)));
            assert(dv.take(i + 1).map_values(|d: Seq<char>| (name@, d)) =~= dv.take(i as int).map_values(
                |d: Seq<char>| (name@, d),
            ).push((name@, dv[i as int])));
            i = i + 1;
        }
        assert(dv.take(deps@.len() as int) =~= dv);
        self.crates = crates;
        self.deps = pairs;
    }

    /// Record a source file and the crate it belongs to, when its
    /// extension names a known language; other files are left out.
    pub fn add_source(&mut self, path: &str, crate_name: Option<String>)
        ensures
            final(self)@.0 == old(self)@.0,
            final(self)@.2 == old(self)@.2,
            language_of_path(path@) is None ==> final(self)@.1 == old(self)@.1,
            language_of_path(path@) is Some ==> {
                &&& final(self)@.1.len() == old(self)@.1.len() + 1
                &&& final(self)@.1.take(old(self)@.1.len() as int) == old(self)@.1
                &&& final(self)@.1.last().path@ == path@
                &&& opt_view(final(self)@.1.last().crate_name) == opt_view(crate_name)
            },
    {
        proof {
            use_type_invariant(&*self);
        }
        if Language::from_path(path).is_some() {
            let mut files: Vec<RepoFile> = Vec::new();
            std::mem::swap(&mut files, &mut self.files);
            let ghost files0 = files@;
            let f = RepoFile { path: string_of(&chars_of(path)), crate_name };
            assert(language_of_path(f.path@) is Some);
            files.push(f);
            assert(files@.take(files0.len() as int) =~= files0);
            assert(known_languages(files@));
            self.files = files;
        }
    }

    /// The crates recorded, in walk order.
    pub fn crates(&self) -> (r: &Vec<RepoCrate>)
        ensures
            r@ == self@.0,
    {
        &self.crates
    }

    /// The source files recorded, in walk order.
    pub fn files(&self) -> (r: &Vec<RepoFile>)
        ensures
            r@ == self@.1,
            known_languages(r@),
    {
        proof {
            use_type_invariant(self);
        }
        &self.files
    }

    /// The dependency pairs recorded, in walk order.
    pub fn deps(&self) -> (r: &Vec<(String, String)>)
        ensures
            r@ == self@.2,
    {
        &self.deps
    }
}

/// The graph of a tree: what its walk recorded (`None` when the root
/// does not exist), the dependency pairs kept only where the target is
/// a crate of the tree (also under `-`/`_` spelling), and, with
/// `extract_functions`, the declarations and call edges of its files.
pub fn extract_repo_graph_with(root: &str, opts: &ExtractOptions, walked: Option<RepoWalk>, sources: &Vec<FileSource>) -> (g: RepoGraph)
    requires
        opts.extract_functions ==> (walked matches Some(w) ==> sources@.len() == w@.1.len() && texts_fit(
            sources@,
        )),
    ensures
        g.root@ == root@,
        known_languages(g.files@),
        match walked {
            None => g.crates@.len() == 0 && g.files@.len() == 0 && g.deps@.len() == 0 && g.functions@.len() == 0
                && g.calls@.len() == 0,
            Some(w) => {
                &&& g.crates@ == w@.0
                &&& g.files@ == w@.1
                &&& deps_view(g.deps@) == workspace_deps(deps_view(w@.2), crate_names(w@.0))
                &&& if opts.extract_functions {
                    &&& fns_view(g.functions@) == new_fns(w@.1, sources@, *opts, w@.1.len() as int)
                    &&& edges_view(g.calls@) == if opts.same_file_calls_only {
                        same_file_edges(w@.1, sources@, *opts, w@.1.len() as int)
                    } else {
                        let nf = new_fns(w@.1, sources@, *opts, w@.1.len() as int);
                        global_edges(
                            nf,
                            w@.1,
                            sources@,
                            *opts,
                            unique_callees(callees_of(nf), nf),
                            nf.len() as int,
                        )
                    }
                } else {
                    g.functions@.len() == 0 && g.calls@.len() == 0
                }
            },
        },
{
    let mut graph = RepoGraph {
        root: string_of(&chars_of(root)),
        crates: Vec::new(),
        files: Vec::new(),
        deps: Vec::new(),
        functions: Vec::new(),
        calls: Vec::new(),
    };
    match walked {
        None => graph,
        Some(w) => {
            proof {
                use_type_invariant(&w);
            }
            let RepoWalk { crates, files, deps } = w;
            graph.crates = crates;
            graph.files = files;
            graph.deps = deps;
            retain_workspace_deps(&mut graph);
            if opts.extract_functions {
                assert(fns_view(graph.functions@) =~= Seq::<FnView>::empty());
                assert(edges_view(graph.calls@) =~= Seq::<Edge>::empty());
                extract_functions_into(&mut graph, opts, sources);
                assert(fns_view(graph.functions@) =~= new_fns(graph.files@, sources@, *opts, graph.files@.len() as int));
            }
            graph
        },
    }
}

/// The graph of a tree with the default options: crates, files and
/// workspace dependencies, no functions.
pub fn extract_repo_graph(root: &str, walked: Option<RepoWalk>) -> (g: RepoGraph)
    ensures
        g.root@ == root@,
        g.functions@.len() == 0 && g.calls@.len() == 0,
        match walked {
            None => g.crates@.len() == 0 && g.files@.len() == 0 && g.deps@.len() == 0,
            Some(w) => g.crates@ == w@.0 && g.files@ == w@.1 && known_languages(g.files@) && deps_view(g.deps@)
                == workspace_deps(deps_view(w@.2), crate_names(w@.0)),
        },
{
    let opts = ExtractOptions::default();
    extract_repo_graph_with(root, &opts, walked, &Vec::new())
}

} // verus!
