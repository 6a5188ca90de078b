//! Architecture view: a repository graph rolled up to one node per
//! crate, rendered as a Mermaid `flowchart TD` document.
use vstd::prelude::*;
use crate::text::{
    append_chars, chars_eq, append_decimal, append_str, chars_of, decimal, name_len, starts_with, starts_with_str,
    string_of, slice_chars, is_name_char, char_is_alphanumeric,
};
use crate::codegraph::{deps_view, opt_view, RepoCrate, RepoFile, RepoFunction, RepoGraph};

verus! {

// ─────────────────────────────────────────────────────────────────────
// Ordering of names
// ─────────────────────────────────────────────────────────────────────

/// Lexicographic order on character sequences (the order of `String`).
pub open spec fn lex_lt(a: Seq<char>, b: Seq<char>) -> bool
    decreases a.len(),
{
    if a.len() == 0 {
        b.len() > 0
    } else if b.len() == 0 {
        false
    } else if a[0] != b[0] {
        a[0] < b[0]
    } else {
        lex_lt(a.drop_first(), b.drop_first())
    }
}

/// Lexicographic order on pairs of names.
pub open spec fn pair_lt(a: (Seq<char>, Seq<char>), b: (Seq<char>, Seq<char>)) -> bool {
    lex_lt(a.0, b.0) || (a.0 == b.0 && lex_lt(a.1, b.1))
}

/// Insert `x` into an ascending sequence unless it is already there.
pub open spec fn insert_sorted(s: Seq<Seq<char>>, x: Seq<char>) -> Seq<Seq<char>>
    decreases s.len(),
{
    if s.len() == 0 {
        seq![x]
    } else if s[0] == x {
        s
    } else if lex_lt(s[0], x) {
        seq![s[0]] + insert_sorted(s.drop_first(), x)
    } else {
        seq![x] + s
    }
}

/// The distinct names of `xs`, ascending.
pub open spec fn sorted_set(xs: Seq<Seq<char>>) -> Seq<Seq<char>>
    decreases xs.len(),
{
    if xs.len() == 0 {
        Seq::empty()
    } else {
        insert_sorted(sorted_set(xs.drop_last()), xs.last())
    }
}

pub open spec fn insert_sorted_pair(
    s: Seq<(Seq<char>, Seq<char>)>,
    x: (Seq<char>, Seq<char>),
) -> Seq<(Seq<char>, Seq<char>)>
    decreases s.len(),
{
    if s.len() == 0 {
        seq![x]
    } else if s[0] == x {
        s
    } else if pair_lt(s[0], x) {
        seq![s[0]] + insert_sorted_pair(s.drop_first(), x)
    } else {
        seq![x] + s
    }
}

/// The distinct pairs of `xs`, ascending.
pub open spec fn sorted_pair_set(xs: Seq<(Seq<char>, Seq<char>)>) -> Seq<(Seq<char>, Seq<char>)>
    decreases xs.len(),
{
    if xs.len() == 0 {
        Seq::empty()
    } else {
        insert_sorted_pair(sorted_pair_set(xs.drop_last()), xs.last())
    }
}

fn chars_lt(a: &Vec<char>, b: &Vec<char>) -> (r: bool)
    ensures
        r == lex_lt(a@, b@),
{
    let mut i: usize = 0;
    assert(a@.skip(0) =~= a@);
    assert(b@.skip(0) =~= b@);
    loop
        invariant
            i <= a.len(),
            i <= b.len(),
            lex_lt(a@, b@) == lex_lt(a@.skip(i as int), b@.skip(i as int)),
        decreases a.len() - i,
    {
        if i == a.len() {
            return i < b.len();
        }
        if i == b.len() {
            return false;
        }
        if a[i] != b[i] {
            return a[i] < b[i];
        }
        assert(a@.skip(i as int).drop_first() =~= a@.skip(i + 1));
        assert(b@.skip(i as int).drop_first() =~= b@.skip(i + 1));
        i = i + 1;
    }
}


fn views(v: &Vec<Vec<char>>) -> (ghost_seq: Ghost<Seq<Seq<char>>>)
    ensures
        ghost_seq@ == v@.map_values(|x: Vec<char>| x@),
{
    Ghost(v@.map_values(|x: Vec<char>| x@))
}

/// Insert `x` into the ascending, duplicate-free `s`.
fn insert_sorted_exec(s: &mut Vec<Vec<char>>, x: Vec<char>)
    ensures
        final(s)@.map_values(|y: Vec<char>| y@) == insert_sorted(old(s)@.map_values(|y: Vec<char>| y@), x@),
{
    let ghost S = s@.map_values(|y: Vec<char>| y@);
    let mut i: usize = 0;
    assert(S.skip(0) =~= S);
    assert(S.take(0) =~= Seq::<Seq<char>>::empty());
    while i < s.len()
        invariant
            S == old(s)@.map_values(|y: Vec<char>| y@),
            s@ == old(s)@,
            S.len() == s@.len(),
            i <= s.len(),
            insert_sorted(S, x@) == S.take(i as int) + insert_sorted(S.skip(i as int), x@),
        decreases s.len() - i,
    {
        assert(S.skip(i as int)[0] == s@[i as int]@);
        if chars_eq(&s[i], &x) {
            return;
        }
        if !chars_lt(&s[i], &x) {
            s.insert(i, x);
            proof {
                assert(s@.map_values(|y: Vec<char>| y@) =~= S.take(i as int) + (seq![x@] + S.skip(i as int)));
            }
            return;
        }
        assert(S.skip(i as int).drop_first() =~= S.skip(i + 1));
        assert(S.take(i + 1) =~= S.take(i as int) + seq![S[i as int]]);
        i = i + 1;
    }
    let ghost before = s@;
    s.push(x);
    assert(S.skip(i as int) =~= Seq::<Seq<char>>::empty());
    assert(S.take(i as int) =~= S);
    assert(s@.map_values(|y: Vec<char>| y@) =~= S + seq![x@]);
}

pub open spec fn pair_view(p: (Vec<char>, Vec<char>)) -> (Seq<char>, Seq<char>) {
    (p.0@, p.1@)
}

fn insert_sorted_pair_exec(s: &mut Vec<(Vec<char>, Vec<char>)>, x: (Vec<char>, Vec<char>))
    ensures
        final(s)@.map_values(|y: (Vec<char>, Vec<char>)| pair_view(y)) == insert_sorted_pair(
            old(s)@.map_values(|y: (Vec<char>, Vec<char>)| pair_view(y)),
            pair_view(x),
        ),
{
    let ghost S = s@.map_values(|y: (Vec<char>, Vec<char>)| pair_view(y));
    let ghost X = pair_view(x);
    let mut i: usize = 0;
    assert(S.skip(0) =~= S);
    assert(S.take(0) =~= Seq::<(Seq<char>, Seq<char>)>::empty());
    while i < s.len()
        invariant
            S == old(s)@.map_values(|y: (Vec<char>, Vec<char>)| pair_view(y)),
            X == pair_view(x),
            s@ == old(s)@,
            S.len() == s@.len(),
            i <= s.len(),
            insert_sorted_pair(S, X) == S.take(i as int) + insert_sorted_pair(S.skip(i as int), X),
        decreases s.len() - i,
    {
        assert(S.skip(i as int)[0] == pair_view(s@[i as int]));
        let same = chars_eq(&s[i].0, &x.0) && chars_eq(&s[i].1, &x.1);
        if same {
            return;
        }
        let lt = chars_lt(&s[i].0, &x.0) || (chars_eq(&s[i].0, &x.0) && chars_lt(&s[i].1, &x.1));
        if !lt {
            s.insert(i, x);
            proof {
                assert(s@.map_values(|y: (Vec<char>, Vec<char>)| pair_view(y)) =~= S.take(i as int) + (seq![X]
                    + S.skip(i as int)));
            }
            return;
        }
        assert(S.skip(i as int).drop_first() =~= S.skip(i + 1));
        assert(S.take(i + 1) =~= S.take(i as int) + seq![S[i as int]]);
        i = i + 1;
    }
    s.push(x);
    assert(S.skip(i as int) =~= Seq::<(Seq<char>, Seq<char>)>::empty());
    assert(S.take(i as int) =~= S);
    assert(s@.map_values(|y: (Vec<char>, Vec<char>)| pair_view(y)) =~= S + seq![X]);
}

// ─────────────────────────────────────────────────────────────────────
// Summary
// ─────────────────────────────────────────────────────────────────────

/// Per-crate counts.
#[derive(Debug, Clone)]
pub struct CrateSummary {
    pub name: String,
    pub file_count: usize,
    pub fn_count: usize,
    pub pub_fn_count: usize,
}

/// Crates ascending by name; edges ascending and deduplicated.
#[derive(Debug, Clone)]
pub struct ArchitectureSummary {
    pub crates: Vec<CrateSummary>,
    pub edges: Vec<(String, String)>,
}

pub open spec fn files_in(files: Seq<RepoFile>, name: Seq<char>) -> nat
    decreases files.len(),
{
    if files.len() == 0 {
        0
    } else {
        files_in(files.drop_last(), name) + if opt_view(files.last().crate_name) == Some(name) {
            1nat
        } else {
            0nat
        }
    }
}

pub open spec fn fns_in(fns: Seq<RepoFunction>, name: Seq<char>, only_pub: bool) -> nat
    decreases fns.len(),
{
    if fns.len() == 0 {
        0
    } else {
        fns_in(fns.drop_last(), name, only_pub) + if opt_view(fns.last().crate_name) == Some(name) && (!only_pub
            || fns.last().is_pub) {
            1nat
        } else {
            0nat
        }
    }
}

pub open spec fn summary_crate_names(g: RepoGraph) -> Seq<Seq<char>> {
    sorted_set(g.crates@.map_values(|c: RepoCrate| c.name@))
}

/// One row of the summary: the crate's name and its counts in `g`.
pub open spec fn row_of(c: CrateSummary, g: RepoGraph, name: Seq<char>) -> bool {
    &&& c.name@ == name
    &&& c.file_count == files_in(g.files@, name)
    &&& c.fn_count == fns_in(g.functions@, name, false)
    &&& c.pub_fn_count == fns_in(g.functions@, name, true)
}

/// What `summarize` owes: one entry per distinct crate name, ascending,
/// with its file, function and public-function counts; the distinct
/// dependency pairs, ascending.
pub open spec fn summarizes(s: ArchitectureSummary, g: RepoGraph) -> bool {
    let names = summary_crate_names(g);
    &&& s.crates@.len() == names.len()
    &&& forall|i: int| 0 <= i < names.len() ==> row_of(#[trigger] s.crates@[i], g, names[i])
    &&& s.edges@.map_values(|e: (String, String)| (e.0@, e.1@)) == sorted_pair_set(deps_view(g.deps@))
}

fn count_files(files: &Vec<RepoFile>, name: &Vec<char>) -> (n: usize)
    ensures
        n == files_in(files@, name@),
{
    let mut n: usize = 0;
    let mut i: usize = 0;
    while i < files.len()
        invariant
            i <= files.len(),
            n == files_in(files@.take(i as int), name@),
            n <= i,
        decreases files.len() - i,
    {
        assert(files@.take(i + 1).drop_last() =~= files@.take(i as int));
        let hit = match &files[i].crate_name {
            Some(c) => chars_eq(&chars_of(c.as_str()), name),
            None => false,
        };
        if hit {
            n = n + 1;
        }
        i = i + 1;
    }
    assert(files@.take(files.len() as int) =~= files@);
    n
}

fn count_fns(fns: &Vec<RepoFunction>, name: &Vec<char>, only_pub: bool) -> (n: usize)
    ensures
        n == fns_in(fns@, name@, only_pub),
{
    let mut n: usize = 0;
    let mut i: usize = 0;
    while i < fns.len()
        invariant
            i <= fns.len(),
            n == fns_in(fns@.take(i as int), name@, only_pub),
            n <= i,
        decreases fns.len() - i,
    {
        assert(fns@.take(i + 1).drop_last() =~= fns@.take(i as int));
        let hit = match &fns[i].crate_name {
            Some(c) => chars_eq(&chars_of(c.as_str()), name),
            None => false,
        };
        if hit && (!only_pub || fns[i].is_pub) {
            n = n + 1;
        }
        i = i + 1;
    }
    assert(fns@.take(fns.len() as int) =~= fns@);
    n
}

fn sorted_crate_names(graph: &RepoGraph) -> (names: Vec<Vec<char>>)
    ensures
        names@.map_values(|y: Vec<char>| y@) == summary_crate_names(*graph),
{
    let ghost C = graph.crates@.map_values(|c: RepoCrate| c.name@);
    let mut names: Vec<Vec<char>> = Vec::new();
    let mut i: usize = 0;
    assert(C.take(0) =~= Seq::<Seq<char>>::empty());
    assert(names@.map_values(|y: Vec<char>| y@) =~= Seq::<Seq<char>>::empty());
    while i < graph.crates.len()
        invariant
            C == graph.crates@.map_values(|c: RepoCrate| c.name@),
            C.len() == graph.crates@.len(),
            i <= graph.crates.len(),
            names@.map_values(|y: Vec<char>| y@) == sorted_set(C.take(i as int)),
        decreases graph.crates.len() - i,
    {
        assert(C.take(i + 1).drop_last() =~= C.take(i as int));
        assert(C[i as int] == graph.crates@[i as int].name@);
        insert_sorted_exec(&mut names, chars_of(graph.crates[i].name.as_str()));
        i = i + 1;
    }
    assert(C.take(graph.crates.len() as int) =~= C);
    names
}

fn crate_rows(graph: &RepoGraph, names: &Vec<Vec<char>>) -> (crates: Vec<CrateSummary>)
    ensures
        crates@.len() == names@.len(),
        forall|j: int|
            0 <= j < names@.len() ==> row_of(#[trigger] crates@[j], *graph, names@[j]@),
{
    let mut crates: Vec<CrateSummary> = Vec::new();
    let mut k: usize = 0;
    while k < names.len()
        invariant
            k <= names.len(),
            crates@.len() == k,
            forall|j: int|
                0 <= j < k ==> row_of(#[trigger] crates@[j], *graph, names@[j]@),
        decreases names.len() - k,
    {
        let summary = CrateSummary {
            name: string_of(&names[k]),
            file_count: count_files(&graph.files, &names[k]),
            fn_count: count_fns(&graph.functions, &names[k], false),
            pub_fn_count: count_fns(&graph.functions, &names[k], true),
        };
        let ghost before = crates@;
        crates.push(summary);
        assert forall|j: int| 0 <= j < k + 1 implies row_of(#[trigger] crates@[j], *graph, names@[j]@) by {
            if j < k {
                assert(crates@[j] == before[j]);
            }
        }
        k = k + 1;
    }
    crates
}

fn sorted_edges(graph: &RepoGraph) -> (edges: Vec<(String, String)>)
    ensures
        edges@.map_values(|e: (String, String)| (e.0@, e.1@)) == sorted_pair_set(deps_view(graph.deps@)),
{
    let ghost D = deps_view(graph.deps@);
    let mut pairs: Vec<(Vec<char>, Vec<char>)> = Vec::new();
    let mut i: usize = 0;
    assert(D.take(0) =~= Seq::<(Seq<char>, Seq<char>)>::empty());
    assert(pairs@.map_values(|y: (Vec<char>, Vec<char>)| pair_view(y)) =~= Seq::<(Seq<char>, Seq<char>)>::empty());
    while i < graph.deps.len()
        invariant
            D == deps_view(graph.deps@),
            D.len() == graph.deps@.len(),
            i <= graph.deps.len(),
            pairs@.map_values(|y: (Vec<char>, Vec<char>)| pair_view(y)) == sorted_pair_set(D.take(i as int)),
        decreases graph.deps.len() - i,
    {
        assert(D.take(i + 1).drop_last() =~= D.take(i as int));
        assert(D[i as int] == (graph.deps@[i as int].0@, graph.deps@[i as int].1@));
        let p = (chars_of(graph.deps[i].0.as_str()), chars_of(graph.deps[i].1.as_str()));
        insert_sorted_pair_exec(&mut pairs, p);
        i = i + 1;
    }
    assert(D.take(graph.deps.len() as int) =~= D);
    let ghost P = pairs@.map_values(|y: (Vec<char>, Vec<char>)| pair_view(y));
    let mut edges: Vec<(String, String)> = Vec::new();
    let mut j: usize = 0;
    while j < pairs.len()
        invariant
            P == pairs@.map_values(|y: (Vec<char>, Vec<char>)| pair_view(y)),
            P.len() == pairs@.len(),
            j <= pairs.len(),
            edges@.map_values(|e: (String, String)| (e.0@, e.1@)) == P.take(j as int),
        decreases pairs.len() - j,
    {
        let ghost before = edges@;
        let e = (string_of(&pairs[j].0), string_of(&pairs[j].1));
        assert(P[j as int] == pair_view(pairs@[j as int]));
        assert((e.0@, e.1@) == P[j as int]);
        edges.push(e);
        assert(edges@.map_values(|e: (String, String)| (e.0@, e.1@)) =~= before.map_values(
            |e: (String, String)| (e.0@, e.1@),
        ).push(P[j as int]));
        assert(P.take(j + 1) =~= P.take(j as int).push(P[j as int]));
        j = j + 1;
    }
    assert(P.take(pairs.len() as int) =~= P);
    edges
}

/// Roll the per-file and per-function tables up to crate level.
pub fn summarize(graph: &RepoGraph) -> (s: ArchitectureSummary)
    ensures
        summarizes(s, *graph),
{
    let names = sorted_crate_names(graph);
    let crates = crate_rows(graph, &names);
    let edges = sorted_edges(graph);
    let ghost N = summary_crate_names(*graph);
    assert forall|i: int| 0 <= i < N.len() implies N[i] == names@[i]@ by {
        assert(N[i] == names@.map_values(|y: Vec<char>| y@)[i]);
    }
    ArchitectureSummary { crates, edges }
}

// ─────────────────────────────────────────────────────────────────────
// Ordering laws
// ─────────────────────────────────────────────────────────────────────

proof fn lemma_lex_irrefl(a: Seq<char>)
    ensures
        !lex_lt(a, a),
    decreases a.len(),
{
    if a.len() > 0 {
        lemma_lex_irrefl(a.drop_first());
    }
}

proof fn lemma_lex_asym(a: Seq<char>, b: Seq<char>)
    ensures
        lex_lt(a, b) ==> !lex_lt(b, a),
    decreases a.len(),
{
    if a.len() > 0 && b.len() > 0 && a[0] == b[0] {
        lemma_lex_asym(a.drop_first(), b.drop_first());
    }
}

proof fn lemma_lex_trans(a: Seq<char>, b: Seq<char>, c: Seq<char>)
    requires
        lex_lt(a, b),
        lex_lt(b, c),
    ensures
        lex_lt(a, c),
    decreases a.len(),
{
    if a.len() > 0 && b.len() > 0 && c.len() > 0 && a[0] == b[0] && b[0] == c[0] {
        lemma_lex_trans(a.drop_first(), b.drop_first(), c.drop_first());
    }
}

proof fn lemma_lex_total(a: Seq<char>, b: Seq<char>)
    requires
        a != b,
    ensures
        lex_lt(a, b) || lex_lt(b, a),
    decreases a.len(),
{
    if a.len() > 0 && b.len() > 0 && a[0] == b[0] {
        if a.drop_first() == b.drop_first() {
            assert(a =~= seq![a[0]] + a.drop_first());
            assert(b =~= seq![b[0]] + b.drop_first());
        }
        lemma_lex_total(a.drop_first(), b.drop_first());
    } else if a.len() == 0 && b.len() == 0 {
        assert(a =~= b);
    } else if a.len() > 0 && b.len() > 0 {
    }
}

/// Strictly ascending.
pub open spec fn strictly_sorted(s: Seq<Seq<char>>) -> bool {
    forall|i: int, j: int| 0 <= i < j < s.len() ==> lex_lt(#[trigger] s[i], #[trigger] s[j])
}

proof fn lemma_insert_sorted(s: Seq<Seq<char>>, x: Seq<char>)
    requires
        strictly_sorted(s),
    ensures
        strictly_sorted(insert_sorted(s, x)),
        forall|y: Seq<char>| #[trigger] insert_sorted(s, x).contains(y) <==> (s.contains(y) || y == x),
    decreases s.len(),
{
    let r = insert_sorted(s, x);
    if s.len() == 0 {
        assert(r =~= seq![x]);
        assert forall|y: Seq<char>| #[trigger] r.contains(y) <==> (s.contains(y) || y == x) by {
            if r.contains(y) {
                assert(r[0] == y);
            }
            if y == x {
                assert(r[0] == x);
            }
        }
    } else if s[0] == x {
        assert forall|y: Seq<char>| #[trigger] r.contains(y) <==> (s.contains(y) || y == x) by {
            if y == x {
                assert(s[0] == x);
            }
        }
    } else if lex_lt(s[0], x) {
        let t = s.drop_first();
        assert(strictly_sorted(t)) by {
            assert forall|i: int, j: int| 0 <= i < j < t.len() implies lex_lt(#[trigger] t[i], #[trigger] t[j]) by {
                assert(t[i] == s[i + 1] && t[j] == s[j + 1]);
            }
        }
        lemma_insert_sorted(t, x);
        let it = insert_sorted(t, x);
        assert(r =~= seq![s[0]] + it);
        assert forall|k: int| 0 <= k < it.len() implies lex_lt(s[0], #[trigger] it[k]) by {
            assert(it.contains(it[k]));
            if it[k] == x {
            } else {
                assert(t.contains(it[k]));
                let m = choose|m: int| 0 <= m < t.len() && t[m] == it[k];
                assert(s[m + 1] == t[m]);
                assert(lex_lt(s[0], s[m + 1]));
            }
        }
        assert forall|i: int, j: int| 0 <= i < j < r.len() implies lex_lt(#[trigger] r[i], #[trigger] r[j]) by {
            if i == 0 {
                assert(r[j] == it[j - 1]);
            } else {
                assert(r[i] == it[i - 1] && r[j] == it[j - 1]);
            }
        }
        assert forall|y: Seq<char>| #[trigger] r.contains(y) <==> (s.contains(y) || y == x) by {
            if r.contains(y) {
                let k = choose|k: int| 0 <= k < r.len() && r[k] == y;
                if k > 0 {
                    assert(it[k - 1] == y);
                    assert(it.contains(y));
                    if t.contains(y) {
                        let m = choose|m: int| 0 <= m < t.len() && t[m] == y;
                        assert(s[m + 1] == y);
                    }
                } else {
                    assert(s[0] == y);
                }
            }
            if s.contains(y) {
                let m = choose|m: int| 0 <= m < s.len() && s[m] == y;
                if m == 0 {
                    assert(r[0] == y);
                } else {
                    assert(t[m - 1] == y);
                    assert(t.contains(y));
                    assert(it.contains(y));
                    let k = choose|k: int| 0 <= k < it.len() && it[k] == y;
                    assert(r[k + 1] == y);
                }
            }
            if y == x {
                assert(it.contains(x));
                let k = choose|k: int| 0 <= k < it.len() && it[k] == x;
                assert(r[k + 1] == x);
            }
        }
    } else {
        lemma_lex_total(s[0], x);
        assert(r =~= seq![x] + s);
        assert forall|i: int, j: int| 0 <= i < j < r.len() implies lex_lt(#[trigger] r[i], #[trigger] r[j]) by {
            if i == 0 {
                assert(r[j] == s[j - 1]);
                if j - 1 > 0 {
                    lemma_lex_trans(x, s[0], s[j - 1]);
                }
            } else {
                assert(r[i] == s[i - 1] && r[j] == s[j - 1]);
            }
        }
        assert forall|y: Seq<char>| #[trigger] r.contains(y) <==> (s.contains(y) || y == x) by {
            if r.contains(y) {
                let k = choose|k: int| 0 <= k < r.len() && r[k] == y;
                if k > 0 {
                    assert(s[k - 1] == y);
                }
            }
            if s.contains(y) {
                let m = choose|m: int| 0 <= m < s.len() && s[m] == y;
                assert(r[m + 1] == y);
            }
            if y == x {
                assert(r[0] == x);
            }
        }
    }
}

/// `sorted_set` lists each distinct name of its input exactly once, in
/// ascending order.
pub proof fn lemma_sorted_set(xs: Seq<Seq<char>>)
    ensures
        strictly_sorted(sorted_set(xs)),
        forall|y: Seq<char>| #[trigger] sorted_set(xs).contains(y) <==> xs.contains(y),
    decreases xs.len(),
{
    if xs.len() > 0 {
        let p = xs.drop_last();
        lemma_sorted_set(p);
        lemma_insert_sorted(sorted_set(p), xs.last());
        assert forall|y: Seq<char>| #[trigger] sorted_set(xs).contains(y) <==> xs.contains(y) by {
            if xs.contains(y) && y != xs.last() {
                let m = choose|m: int| 0 <= m < xs.len() && xs[m] == y;
                assert(p[m] == y);
                assert(p.contains(y));
            }
            if p.contains(y) {
                let m = choose|m: int| 0 <= m < p.len() && p[m] == y;
                assert(xs[m] == y);
            }
            if y == xs.last() {
                assert(xs[xs.len() - 1] == y);
            }
        }
    }
}

/// The architecture summary lists every crate name of the graph exactly
/// once, in ascending order.
pub proof fn lemma_summary_lists_each_crate_once(g: RepoGraph)
    ensures
        strictly_sorted(summary_crate_names(g)),
        forall|y: Seq<char>|
            #[trigger] summary_crate_names(g).contains(y) <==> (exists|i: int|
                0 <= i < g.crates@.len() && g.crates@[i].name@ == y),
{
    let names = g.crates@.map_values(|c: RepoCrate| c.name@);
    lemma_sorted_set(names);
    assert forall|y: Seq<char>| #[trigger] summary_crate_names(g).contains(y) <==> (exists|i: int|
        0 <= i < g.crates@.len() && g.crates@[i].name@ == y) by {
        if names.contains(y) {
            let i = choose|i: int| 0 <= i < names.len() && names[i] == y;
            assert(g.crates@[i].name@ == y);
        }
        if exists|i: int| 0 <= i < g.crates@.len() && g.crates@[i].name@ == y {
            let i = choose|i: int| 0 <= i < g.crates@.len() && g.crates@[i].name@ == y;
            assert(names[i] == y);
        }
    }
}

// ─────────────────────────────────────────────────────────────────────
// Mermaid rendering
// ─────────────────────────────────────────────────────────────────────

/// First position of `_` or `-`.
pub open spec fn find_sep(s: Seq<char>) -> Option<int>
    decreases s.len(),
{
    if s.len() == 0 {
        None
    } else if s[0] == '_' || s[0] == '-' {
        Some(0)
    } else {
        match find_sep(s.drop_first()) {
            Some(i) => Some(i + 1),
            None => None,
        }
    }
}

/// `wish-*` crates share the group `wish`; any other name is grouped by
/// its first `_`/`-`-separated segment.
pub open spec fn group_of_spec(name: Seq<char>) -> Seq<char> {
    if starts_with(name, "wish-"@) {
        "wish"@
    } else {
        match find_sep(name) {
            Some(i) => name.take(i),
            None => name,
        }
    }
}

/// Every character that is neither alphanumeric nor `_` becomes `_`.
pub open spec fn mermaid_id_spec(s: Seq<char>) -> Seq<char> {
    Seq::new(s.len(), |i: int| if is_name_char(s[i], false) { s[i] } else { '_' })
}

/// Every `"` becomes `\"`.
pub open spec fn escape_quotes(s: Seq<char>) -> Seq<char>
    decreases s.len(),
{
    if s.len() == 0 {
        Seq::empty()
    } else {
        escape_quotes(s.drop_last()) + if s.last() == '"' {
            seq!['\\', '"']
        } else {
            seq![s.last()]
        }
    }
}

fn find_sep_in(s: &Vec<char>) -> (r: Option<usize>)
    ensures
        match r {
            Some(i) => find_sep(s@) == Some(i as int) && i < s@.len(),
            None => find_sep(s@) is None,
        },
{
    let mut i: usize = 0;
    assert(s@.skip(0) =~= s@);
    while i < s.len()
        invariant
            i <= s.len(),
            find_sep(s@) == (match find_sep(s@.skip(i as int)) {
                Some(k) => Some(k + i),
                None => None::<int>,
            }),
        decreases s.len() - i,
    {
        if s[i] == '_' || s[i] == '-' {
            return Some(i);
        }
        assert(s@.skip(i as int).drop_first() =~= s@.skip(i + 1));
        i = i + 1;
    }
    assert(s@.skip(i as int) =~= Seq::<char>::empty());
    None
}

fn group_of_chars(name: &Vec<char>) -> (g: Vec<char>)
    ensures
        g@ == group_of_spec(name@),
{
    if starts_with_str(name, "wish-") {
        return chars_of("wish");
    }
    match find_sep_in(name) {
        Some(i) => {
            let r = slice_chars(name, 0, i);
            assert(r@ =~= name@.take(i as int));
            r
        },
        None => slice_chars_all(name),
    }
}

fn slice_chars_all(s: &Vec<char>) -> (r: Vec<char>)
    ensures
        r@ == s@,
{
    let r = slice_chars(s, 0, s.len());
    assert(r@ =~= s@);
    r
}

/// The group a crate belongs to in the rendered diagram.
pub fn group_of(crate_name: &str) -> (g: String)
    ensures
        g@ == group_of_spec(crate_name@),
{
    string_of(&group_of_chars(&chars_of(crate_name)))
}

fn mermaid_id_chars(s: &Vec<char>) -> (r: Vec<char>)
    ensures
        r@ == mermaid_id_spec(s@),
{
    let mut r: Vec<char> = Vec::new();
    let mut i: usize = 0;
    while i < s.len()
        invariant
            i <= s.len(),
            r@.len() == i,
            forall|k: int| 0 <= k < i ==> r@[k] == (if is_name_char(s@[k], false) { s@[k] } else { '_' }),
        decreases s.len() - i,
    {
        if char_is_alphanumeric(s[i]) || s[i] == '_' {
            r.push(s[i]);
        } else {
            r.push('_');
        }
        i = i + 1;
    }
    assert(r@ =~= mermaid_id_spec(s@));
    r
}

/// A Mermaid node identifier for a name.
pub fn mermaid_id(s: &str) -> (r: String)
    ensures
        r@ == mermaid_id_spec(s@),
{
    string_of(&mermaid_id_chars(&chars_of(s)))
}

fn escape_chars(s: &Vec<char>) -> (r: Vec<char>)
    ensures
        r@ == escape_quotes(s@),
{
    let mut r: Vec<char> = Vec::new();
    let mut i: usize = 0;
    assert(s@.take(0) =~= Seq::<char>::empty());
    while i < s.len()
        invariant
            i <= s.len(),
            r@ == escape_quotes(s@.take(i as int)),
        decreases s.len() - i,
    {
        assert(s@.take(i + 1).drop_last() =~= s@.take(i as int));
        if s[i] == '"' {
            r.push('\\');
            r.push('"');
        } else {
            r.push(s[i]);
        }
        assert(r@ =~= escape_quotes(s@.take(i + 1)));
        i = i + 1;
    }
    assert(s@.take(s.len() as int) =~= s@);
    r
}

/// Escape `"` for a Mermaid label.
pub fn escape_mermaid_label(s: &str) -> (r: String)
    ensures
        r@ == escape_quotes(s@),
{
    string_of(&escape_chars(&chars_of(s)))
}

pub open spec fn crate_line(c: CrateSummary) -> Seq<char> {
    "    "@ + mermaid_id_spec(c.name@) + "[\""@ + escape_quotes(c.name@) + "<br/><sub>"@ + decimal(
        c.file_count as nat,
    ) + " files · "@ + decimal(c.fn_count as nat) + " fns · "@ + decimal(c.pub_fn_count as nat)
        + " pub</sub>\"]\n"@
}

/// The lines of the crates (among the first `n`) that fall in group `g`.
pub open spec fn group_lines(cs: Seq<CrateSummary>, g: Seq<char>, n: int) -> Seq<char>
    decreases n,
{
    if n <= 0 {
        Seq::empty()
    } else {
        group_lines(cs, g, n - 1) + if group_of_spec(cs[n - 1].name@) == g {
            crate_line(cs[n - 1])
        } else {
            Seq::empty()
        }
    }
}

pub open spec fn group_block(cs: Seq<CrateSummary>, g: Seq<char>) -> Seq<char> {
    "  subgraph "@ + mermaid_id_spec("g_"@ + g) + "\n"@ + "    direction TB\n"@ + group_lines(cs, g, cs.len() as int)
        + "  end\n"@
}

pub open spec fn groups_text(gs: Seq<Seq<char>>, cs: Seq<CrateSummary>, n: int) -> Seq<char>
    decreases n,
{
    if n <= 0 {
        Seq::empty()
    } else {
        groups_text(gs, cs, n - 1) + group_block(cs, gs[n - 1])
    }
}

pub open spec fn edges_text(es: Seq<(String, String)>, n: int) -> Seq<char>
    decreases n,
{
    if n <= 0 {
        Seq::empty()
    } else {
        edges_text(es, n - 1) + "  "@ + mermaid_id_spec(es[n - 1].0@) + " --> "@ + mermaid_id_spec(es[n - 1].1@)
            + "\n"@
    }
}

pub open spec fn crate_groups(cs: Seq<CrateSummary>) -> Seq<Seq<char>> {
    sorted_set(cs.map_values(|c: CrateSummary| group_of_spec(c.name@)))
}

/// The Mermaid document for a summary: one `subgraph` per group
/// (ascending), each holding its crates in summary order, then one edge
/// line per dependency.
pub open spec fn mermaid_doc(s: ArchitectureSummary) -> Seq<char> {
    let gs = crate_groups(s.crates@);
    "flowchart TD\n"@ + groups_text(gs, s.crates@, gs.len() as int) + edges_text(s.edges@, s.edges@.len() as int)
}

fn append_group_block(out: &mut Vec<char>, crates: &Vec<CrateSummary>, g: &Vec<char>)
    ensures
        final(out)@ == old(out)@ + group_block(crates@, g@),
{
    let ghost o0 = out@;
    append_str(out, "  subgraph ");
    let mut gid: Vec<char> = chars_of("g_");
    append_chars(&mut gid, g);
    append_chars(out, &mermaid_id_chars(&gid));
    append_str(out, "\n");
    append_str(out, "    direction TB\n");
    let ghost o1 = out@;
    let mut i: usize = 0;
    while i < crates.len()
        invariant
            i <= crates.len(),
            out@ == o1 + group_lines(crates@, g@, i as int),
        decreases crates.len() - i,
    {
        let c = &crates[i];
        let cg = group_of_chars(&chars_of(c.name.as_str()));
        if chars_eq(&cg, g) {
            let ghost before = out@;
            append_str(out, "    ");
            let nm = chars_of(c.name.as_str());
            append_chars(out, &mermaid_id_chars(&nm));
            append_str(out, "[\"");
            append_chars(out, &escape_chars(&nm));
            append_str(out, "<br/><sub>");
            append_decimal(out, c.file_count as u64);
            append_str(out, " files · ");
            append_decimal(out, c.fn_count as u64);
            append_str(out, " fns · ");
            append_decimal(out, c.pub_fn_count as u64);
            append_str(out, " pub</sub>\"]\n");
            assert(out@ =~= before + crate_line(crates@[i as int]));
        }
        i = i + 1;
    }
    append_str(out, "  end\n");
    assert(out@ =~= o0 + group_block(crates@, g@));
}

/// Render a summary as a Mermaid `flowchart TD` document.
pub fn summary_to_mermaid(s: &ArchitectureSummary) -> (r: String)
    ensures
        r@ == mermaid_doc(*s),
{
    let ghost G = s.crates@.map_values(|c: CrateSummary| group_of_spec(c.name@));
    let mut groups: Vec<Vec<char>> = Vec::new();
    let mut i: usize = 0;
    assert(G.take(0) =~= Seq::<Seq<char>>::empty());
    assert(groups@.map_values(|y: Vec<char>| y@) =~= Seq::<Seq<char>>::empty());
    while i < s.crates.len()
        invariant
            G == s.crates@.map_values(|c: CrateSummary| group_of_spec(c.name@)),
            G.len() == s.crates@.len(),
            i <= s.crates.len(),
            groups@.map_values(|y: Vec<char>| y@) == sorted_set(G.take(i as int)),
        decreases s.crates.len() - i,
    {
        assert(G.take(i + 1).drop_last() =~= G.take(i as int));
        assert(G[i as int] == group_of_spec(s.crates@[i as int].name@));
        insert_sorted_exec(&mut groups, group_of_chars(&chars_of(s.crates[i].name.as_str())));
        i = i + 1;
    }
    assert(G.take(s.crates.len() as int) =~= G);
    let ghost GS = groups@.map_values(|y: Vec<char>| y@);
    let mut out: Vec<char> = chars_of("flowchart TD\n");
    let ghost o0 = out@;
    let mut k: usize = 0;
    while k < groups.len()
        invariant
            GS == groups@.map_values(|y: Vec<char>| y@),
            GS == crate_groups(s.crates@),
            GS.len() == groups@.len(),
            k <= groups.len(),
            out@ == o0 + groups_text(GS, s.crates@, k as int),
        decreases groups.len() - k,
    {
        assert(GS[k as int] == groups@[k as int]@);
        append_group_block(&mut out, &s.crates, &groups[k]);
        k = k + 1;
    }
    let ghost o1 = out@;
    let mut e: usize = 0;
    while e < s.edges.len()
        invariant
            e <= s.edges.len(),
            out@ == o1 + edges_text(s.edges@, e as int),
        decreases s.edges.len() - e,
    {
        let ghost before = out@;
        append_str(&mut out, "  ");
        append_chars(&mut out, &mermaid_id_chars(&chars_of(s.edges[e].0.as_str())));
        append_str(&mut out, " --> ");
        append_chars(&mut out, &mermaid_id_chars(&chars_of(s.edges[e].1.as_str())));
        append_str(&mut out, "\n");
        assert(out@ =~= o1 + edges_text(s.edges@, e + 1));
        e = e + 1;
    }
    string_of(&out)
}

/// Architecture view of a repository graph as a Mermaid document.
pub fn to_mermaid(graph: &RepoGraph) -> (r: String)
    ensures
        exists|s: ArchitectureSummary| summarizes(s, *graph) && r@ == mermaid_doc(s),
{
    let s = summarize(graph);
    summary_to_mermaid(&s)
}

proof fn lemma_find_sep(s: Seq<char>)
    ensures
        match find_sep(s) {
            Some(i) => 0 <= i < s.len() && (s[i] == '_' || s[i] == '-') && forall|j: int|
                0 <= j < i ==> #[trigger] s[j] != '_' && s[j] != '-',
            None => forall|j: int| 0 <= j < s.len() ==> #[trigger] s[j] != '_' && s[j] != '-',
        },
    decreases s.len(),
{
    if s.len() > 0 {
        lemma_find_sep(s.drop_first());
        assert forall|j: int| 1 <= j < s.len() implies #[trigger] s[j] == s.drop_first()[j - 1] by {}
    }
}

/// A crate outside `wish-` is grouped by the first segment of its name:
/// the group is a prefix of the name holding no `_` or `-`, and it is
/// the whole name or is followed in it by `_` or `-`. `wish-` crates
/// form the group `wish`.
pub proof fn lemma_group_is_first_segment(name: Seq<char>)
    ensures
        starts_with(name, "wish-"@) ==> group_of_spec(name) == "wish"@,
        !starts_with(name, "wish-"@) ==> {
            let g = group_of_spec(name);
            &&& starts_with(name, g)
            &&& forall|j: int| 0 <= j < g.len() ==> #[trigger] g[j] != '_' && g[j] != '-'
            &&& (g.len() == name.len() || name[g.len() as int] == '_' || name[g.len() as int] == '-')
        },
{
    lemma_find_sep(name);
    if !starts_with(name, "wish-"@) {
        let g = group_of_spec(name);
        assert(name.take(g.len() as int) =~= g);
    }
}

} // verus!
