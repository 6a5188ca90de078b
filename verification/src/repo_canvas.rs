//! Canvases projected from a repository graph.
//!
//! Nodes are bound to semantic ids in their canonical text form:
//! `code:crate:<name>`, `code:file:<path relative to the root>` and
//! `code:function:<qualified name>`. Node positions are left to a
//! layout pass; each projection picks the layout mode.
use vstd::prelude::*;
use crate::canvas::{
    edges_are, new_edge, new_node, nodes_are, str_hash, upsert_edges, upsert_nodes, Canvas, CanvasNodeKind, EdgeKind,
    EdgeView, LayoutMode, NodeView, Rect, canvas_id, is_blank, CanvasNodeId, CanvasEdgeId,
};
use crate::repo_extract::{extract_repo_graph, RepoWalk};
use crate::codegraph::{opt_view, qualified_name_of, rfind_in, RepoCrate, RepoFile, RepoFunction, RepoGraph};
use crate::languages::{file_name, lemma_rfind_char_range, rfind_char};
use crate::text::{append_chars, append_str, chars_of, chars_eq_str, starts_with, starts_with_chars, string_of, skip_chars};

verus! {

/// `code:crate:<name>`.
pub open spec fn crate_sid(name: Seq<char>) -> Seq<char> {
    "code:crate:"@ + name
}

/// `code:file:<path>`.
pub open spec fn file_sid(path: Seq<char>) -> Seq<char> {
    "code:file:"@ + path
}

/// `code:function:<qualified name>`.
pub open spec fn function_sid(q: Seq<char>) -> Seq<char> {
    "code:function:"@ + q
}

/// `path` with the leading directory `root` taken off, when `root`
/// names one (paths are `/`-separated text); otherwise `path`.
pub open spec fn relative_to(path: Seq<char>, root: Seq<char>) -> Seq<char> {
    if root.len() == 0 || !starts_with(path, root) {
        path
    } else if path.len() == root.len() {
        Seq::empty()
    } else if path[root.len() as int] == '/' {
        path.skip(root.len() as int + 1)
    } else if root.last() == '/' {
        path.skip(root.len() as int)
    } else {
        path
    }
}

/// A rectangle at the origin with the given width and height bits.
pub open spec fn sized(w: u32, h: u32) -> Rect {
    Rect { x: 0, y: 0, w, h }
}

/// `f32` bits of 140.0, 36.0, 220.0, 56.0, 180.0 and 160.0.
pub const W140: u32 = 0x430c_0000;

pub const H36: u32 = 0x4210_0000;

pub const W220: u32 = 0x435c_0000;

pub const H56: u32 = 0x4260_0000;

pub const W180: u32 = 0x4334_0000;

pub const W160: u32 = 0x4320_0000;

/// The node id of crate `name`.
pub open spec fn crate_node_id(name: Seq<char>) -> CanvasNodeId {
    str_hash(crate_sid(name))
}

/// The node id of the function with qualified name `q`.
pub open spec fn function_node_id(q: Seq<char>) -> CanvasNodeId {
    str_hash(function_sid(q))
}

/// A function's label: `test <name>`, `async <name>` or its name.
pub open spec fn function_label(f: RepoFunction) -> Seq<char> {
    if f.is_test {
        "test "@ + f.name@
    } else if f.is_async {
        "async "@ + f.name@
    } else {
        f.name@
    }
}

pub open spec fn function_kind(f: RepoFunction) -> CanvasNodeKind {
    if f.is_test {
        CanvasNodeKind::Test
    } else {
        CanvasNodeKind::Function
    }
}

pub open spec fn qname_of(f: RepoFunction) -> Seq<char> {
    qualified_name_of(opt_view(f.crate_name), f.file_path@, f.name@)
}

/// One node per crate, labelled with its name.
pub open spec fn crate_nodes(cs: Seq<RepoCrate>, b: Rect) -> Seq<NodeView> {
    cs.map_values(|c: RepoCrate| new_node(crate_sid(c.name@), c.name@, CanvasNodeKind::Crate, b))
}

/// One node per file, bound to its relative path and labelled with its
/// file name.
pub open spec fn file_nodes(fs: Seq<RepoFile>, root: Seq<char>, b: Rect) -> Seq<NodeView> {
    fs.map_values(
        |f: RepoFile|
            new_node(
                file_sid(relative_to(f.path@, root)),
                file_name(relative_to(f.path@, root)),
                CanvasNodeKind::File,
                b,
            ),
    )
}

/// One node per function.
pub open spec fn function_nodes(fs: Seq<RepoFunction>, b: Rect) -> Seq<NodeView> {
    fs.map_values(|f: RepoFunction| new_node(function_sid(qname_of(f)), function_label(f), function_kind(f), b))
}

/// A `DependsOn` edge from each file's crate to the file.
pub open spec fn file_edges(fs: Seq<RepoFile>, root: Seq<char>) -> Seq<EdgeView>
    decreases fs.len(),
{
    if fs.len() == 0 {
        Seq::empty()
    } else {
        let prev = file_edges(fs.drop_last(), root);
        match fs.last().crate_name {
            Some(cn) => prev.push(
                new_edge(crate_node_id(cn@), str_hash(file_sid(relative_to(fs.last().path@, root))), EdgeKind::DependsOn),
            ),
            None => prev,
        }
    }
}

/// A `DependsOn` edge per crate dependency.
pub open spec fn dep_edges(ds: Seq<(String, String)>) -> Seq<EdgeView> {
    ds.map_values(|d: (String, String)| new_edge(crate_node_id(d.0@), crate_node_id(d.1@), EdgeKind::DependsOn))
}

/// A `DependsOn` edge from each function's file to the function.
pub open spec fn function_edges(fs: Seq<RepoFunction>, root: Seq<char>) -> Seq<EdgeView> {
    fs.map_values(
        |f: RepoFunction|
            new_edge(
                str_hash(file_sid(relative_to(f.file_path@, root))),
                function_node_id(qname_of(f)),
                EdgeKind::DependsOn,
            ),
    )
}

/// A `Calls` edge per call.
pub open spec fn call_edges(cs: Seq<(String, String)>) -> Seq<EdgeView> {
    cs.map_values(|c: (String, String)| new_edge(function_node_id(c.0@), function_node_id(c.1@), EdgeKind::Calls))
}

/// A canvas made at some time, with the given layout, whose nodes and
/// edges are those of `ns` and `es` upserted in order.
pub open spec fn projected(c: Canvas, layout: LayoutMode, ns: Seq<NodeView>, es: Seq<EdgeView>) -> bool {
    &&& exists|t: i64| c.id@ == canvas_id(t as int)
    &&& c.world_ref is None
    &&& c.layout == layout
    &&& c.viewport == (crate::canvas::Viewport { pan_x: 0, pan_y: 0, scale: crate::canvas::ONE_BITS })
    &&& c.selection.nodes@.len() == 0 && c.selection.edges@.len() == 0
    &&& nodes_are(c.nodes@, upsert_nodes(Map::empty(), ns))
    &&& edges_are(c.edges@, upsert_edges(Map::empty(), es))
}

fn relative_chars(path: &Vec<char>, root: &Vec<char>) -> (r: Vec<char>)
    ensures
        r@ == relative_to(path@, root@),
{
    if root.len() == 0 || !starts_with_chars(path, root) {
        return skip_chars(path, 0);
    }
    if path.len() == root.len() {
        return Vec::new();
    }
    if path[root.len()] == '/' {
        skip_chars(path, root.len() + 1)
    } else if root[root.len() - 1] == '/' {
        skip_chars(path, root.len())
    } else {
        skip_chars(path, 0)
    }
}

fn file_name_chars(p: &Vec<char>) -> (r: Vec<char>)
    ensures
        r@ == file_name(p@),
{
    match rfind_in(p, '/') {
        Some(i) => skip_chars(p, i + 1),
        None => skip_chars(p, 0),
    }
}

fn prefixed(prefix: &str, s: &Vec<char>) -> (r: String)
    ensures
        r@ == prefix@ + s@,
{
    let mut v = chars_of(prefix);
    append_chars(&mut v, s);
    string_of(&v)
}

fn function_label_of(f: &RepoFunction) -> (r: String)
    ensures
        r@ == function_label(*f),
{
    if f.is_test {
        prefixed("test ", &chars_of(f.name.as_str()))
    } else if f.is_async {
        prefixed("async ", &chars_of(f.name.as_str()))
    } else {
        string_of(&chars_of(f.name.as_str()))
    }
}

fn function_kind_of(f: &RepoFunction) -> (r: CanvasNodeKind)
    ensures
        r == function_kind(*f),
{
    if f.is_test {
        CanvasNodeKind::Test
    } else {
        CanvasNodeKind::Function
    }
}

proof fn lemma_step_nodes(pre: Seq<NodeView>, xs: Seq<NodeView>, i: int)
    requires
        0 <= i < xs.len(),
    ensures
        upsert_nodes(Map::empty(), pre + xs.take(i + 1)) == upsert_nodes(Map::empty(), pre + xs.take(i)).insert(
            xs[i].id,
            xs[i],
        ),
{
    assert((pre + xs.take(i + 1)).drop_last() == pre + xs.take(i));
    assert((pre + xs.take(i + 1)).last() == xs[i]);
}

proof fn lemma_step_edges(pre: Seq<EdgeView>, xs: Seq<EdgeView>, i: int)
    requires
        0 <= i < xs.len(),
    ensures
        upsert_edges(Map::empty(), pre + xs.take(i + 1)) == upsert_edges(Map::empty(), pre + xs.take(i)).insert(
            xs[i].id,
            xs[i],
        ),
{
    assert((pre + xs.take(i + 1)).drop_last() == pre + xs.take(i));
    assert((pre + xs.take(i + 1)).last() == xs[i]);
}

/// Upsert a node per crate, each `b` in size.
fn put_crates(c: &mut Canvas, crates: &Vec<RepoCrate>, b: Rect, Ghost(pre): Ghost<Seq<NodeView>>)
    requires
        nodes_are(old(c).nodes@, upsert_nodes(Map::empty(), pre)),
    ensures
        nodes_are(final(c).nodes@, upsert_nodes(Map::empty(), pre + crate_nodes(crates@, b))),
        crate::canvas::same_but_nodes(*old(c), *final(c)),
{
    let ghost xs = crate_nodes(crates@, b);
    assert(pre + xs.take(0) == pre);
    for i in 0..crates.len()
        invariant
            xs == crate_nodes(crates@, b),
            nodes_are(c.nodes@, upsert_nodes(Map::empty(), pre + xs.take(i as int))),
            crate::canvas::same_but_nodes(*old(c), *c),
    {
        let name = crates[i].name.as_str();
        let sid = prefixed("code:crate:", &chars_of(name));
        c.put_node(sid.as_str(), name, CanvasNodeKind::Crate, b);
        proof {
            lemma_step_nodes(pre, xs, i as int);
            assert(xs[i as int] == new_node(sid@, name@, CanvasNodeKind::Crate, b));
        }
    }
    assert(xs.take(crates@.len() as int) == xs);
}

/// Upsert a `DependsOn` edge per crate dependency.
fn put_deps(c: &mut Canvas, deps: &Vec<(String, String)>, Ghost(pre): Ghost<Seq<EdgeView>>)
    requires
        edges_are(old(c).edges@, upsert_edges(Map::empty(), pre)),
    ensures
        edges_are(final(c).edges@, upsert_edges(Map::empty(), pre + dep_edges(deps@))),
        crate::canvas::same_but_edges(*old(c), *final(c)),
{
    let ghost xs = dep_edges(deps@);
    assert(pre + xs.take(0) == pre);
    for i in 0..deps.len()
        invariant
            xs == dep_edges(deps@),
            edges_are(c.edges@, upsert_edges(Map::empty(), pre + xs.take(i as int))),
            crate::canvas::same_but_edges(*old(c), *c),
    {
        let from = crate::canvas::stable_hash_u64(prefixed("code:crate:", &chars_of(deps[i].0.as_str())).as_str());
        let to = crate::canvas::stable_hash_u64(prefixed("code:crate:", &chars_of(deps[i].1.as_str())).as_str());
        c.put_edge(from, to, EdgeKind::DependsOn);
        proof {
            lemma_step_edges(pre, xs, i as int);
        }
    }
    assert(xs.take(deps@.len() as int) == xs);
}


/// How many files belong to crate `name`.
pub open spec fn file_count(fs: Seq<RepoFile>, name: Seq<char>) -> nat
    decreases fs.len(),
{
    if fs.len() == 0 {
        0
    } else {
        file_count(fs.drop_last(), name) + if opt_view(fs.last().crate_name) == Some(name) {
            1nat
        } else {
            0nat
        }
    }
}

/// A crate's label in the architecture view: its name, then on a
/// second line its file count (`1 file`, `N files`) when it has files.
pub open spec fn crate_label(name: Seq<char>, count: nat) -> Seq<char> {
    if count > 0 {
        name + "\n"@ + crate::text::decimal(count) + " file"@ + if count == 1 {
            Seq::<char>::empty()
        } else {
            "s"@
        }
    } else {
        name
    }
}

pub open spec fn architecture_nodes(cs: Seq<RepoCrate>, fs: Seq<RepoFile>, b: Rect) -> Seq<NodeView> {
    cs.map_values(
        |c: RepoCrate| new_node(crate_sid(c.name@), crate_label(c.name@, file_count(fs, c.name@)), CanvasNodeKind::Crate, b),
    )
}

/// Whether `f` is a crate's source root: it belongs to a crate and is
/// named `lib.rs` or `main.rs`.
pub open spec fn is_source_root(f: RepoFile) -> bool {
    f.crate_name is Some && (file_name(f.path@) == "lib.rs"@ || file_name(f.path@) == "main.rs"@)
}

/// A node per source root, labelled with its file name.
pub open spec fn root_file_nodes(fs: Seq<RepoFile>, root: Seq<char>, b: Rect) -> Seq<NodeView>
    decreases fs.len(),
{
    if fs.len() == 0 {
        Seq::empty()
    } else {
        let prev = root_file_nodes(fs.drop_last(), root, b);
        let f = fs.last();
        if is_source_root(f) {
            prev.push(new_node(file_sid(relative_to(f.path@, root)), file_name(f.path@), CanvasNodeKind::File, b))
        } else {
            prev
        }
    }
}

/// A `DependsOn` edge from each source root's crate to it.
pub open spec fn root_file_edges(fs: Seq<RepoFile>, root: Seq<char>) -> Seq<EdgeView>
    decreases fs.len(),
{
    if fs.len() == 0 {
        Seq::empty()
    } else {
        let prev = root_file_edges(fs.drop_last(), root);
        let f = fs.last();
        if is_source_root(f) {
            prev.push(
                new_edge(
                    crate_node_id(f.crate_name->Some_0@),
                    str_hash(file_sid(relative_to(f.path@, root))),
                    EdgeKind::DependsOn,
                ),
            )
        } else {
            prev
        }
    }
}

/// Whether a call names `q` as its caller or callee.
pub open spec fn in_calls(cs: Seq<(String, String)>, q: Seq<char>) -> bool {
    exists|i: int| 0 <= i < cs.len() && (cs[i].0@ == q || cs[i].1@ == q)
}

/// A node per function that takes part in a call.
pub open spec fn called_function_nodes(fs: Seq<RepoFunction>, cs: Seq<(String, String)>, b: Rect) -> Seq<NodeView>
    decreases fs.len(),
{
    if fs.len() == 0 {
        Seq::empty()
    } else {
        let prev = called_function_nodes(fs.drop_last(), cs, b);
        let f = fs.last();
        if in_calls(cs, qname_of(f)) {
            prev.push(new_node(function_sid(qname_of(f)), function_label(f), function_kind(f), b))
        } else {
            prev
        }
    }
}

/// Upsert a node per file and an edge from each file's crate to it.
fn put_files(
    c: &mut Canvas,
    files: &Vec<RepoFile>,
    root: &Vec<char>,
    b: Rect,
    Ghost(npre): Ghost<Seq<NodeView>>,
    Ghost(epre): Ghost<Seq<EdgeView>>,
)
    requires
        nodes_are(old(c).nodes@, upsert_nodes(Map::empty(), npre)),
        edges_are(old(c).edges@, upsert_edges(Map::empty(), epre)),
    ensures
        nodes_are(final(c).nodes@, upsert_nodes(Map::empty(), npre + file_nodes(files@, root@, b))),
        edges_are(final(c).edges@, upsert_edges(Map::empty(), epre + file_edges(files@, root@))),
        final(c).id == old(c).id && final(c).world_ref == old(c).world_ref && final(c).viewport == old(c).viewport
            && final(c).layout == old(c).layout && final(c).selection == old(c).selection,
{
    let ghost xs = file_nodes(files@, root@, b);
    assert(npre + xs.take(0) == npre);
    assert(files@.take(0) == Seq::<RepoFile>::empty());
    assert(epre + file_edges(files@.take(0), root@) == epre);
    for i in 0..files.len()
        invariant
            xs == file_nodes(files@, root@, b),
            nodes_are(c.nodes@, upsert_nodes(Map::empty(), npre + xs.take(i as int))),
            edges_are(c.edges@, upsert_edges(Map::empty(), epre + file_edges(files@.take(i as int), root@))),
            c.id == old(c).id && c.world_ref == old(c).world_ref && c.viewport == old(c).viewport && c.layout == old(
                c,
            ).layout && c.selection == old(c).selection,
    {
        let f = &files[i];
        let rel = relative_chars(&chars_of(f.path.as_str()), root);
        let sid = prefixed("code:file:", &rel);
        let label = string_of(&file_name_chars(&rel));
        let fid = c.put_node(sid.as_str(), label.as_str(), CanvasNodeKind::File, b);
        proof {
            lemma_step_nodes(npre, xs, i as int);
            assert(files@.take(i + 1).drop_last() == files@.take(i as int));
            assert(files@.take(i + 1).last() == files@[i as int]);
        }
        match &f.crate_name {
            Some(cn) => {
                let cid = crate::canvas::stable_hash_u64(prefixed("code:crate:", &chars_of(cn.as_str())).as_str());
                let ghost before = epre + file_edges(files@.take(i as int), root@);
                c.put_edge(cid, fid, EdgeKind::DependsOn);
                proof {
                    let e = new_edge(cid, fid, EdgeKind::DependsOn);
                    assert(epre + file_edges(files@.take(i + 1), root@) == before.push(e));
                    assert(before.push(e).drop_last() == before);
                    assert(upsert_edges(Map::empty(), before.push(e)) == upsert_edges(Map::empty(), before).insert(
                        e.id,
                        e,
                    ));
                }
            },
            None => {
                assert(file_edges(files@.take(i + 1), root@) == file_edges(files@.take(i as int), root@));
            },
        }
    }
    assert(xs.take(files@.len() as int) == xs);
    assert(files@.take(files@.len() as int) == files@);
}

/// Upsert a node per function and an edge from its file to it.
fn put_functions(
    c: &mut Canvas,
    fns: &Vec<RepoFunction>,
    root: &Vec<char>,
    b: Rect,
    Ghost(npre): Ghost<Seq<NodeView>>,
    Ghost(epre): Ghost<Seq<EdgeView>>,
)
    requires
        nodes_are(old(c).nodes@, upsert_nodes(Map::empty(), npre)),
        edges_are(old(c).edges@, upsert_edges(Map::empty(), epre)),
    ensures
        nodes_are(final(c).nodes@, upsert_nodes(Map::empty(), npre + function_nodes(fns@, b))),
        edges_are(final(c).edges@, upsert_edges(Map::empty(), epre + function_edges(fns@, root@))),
        final(c).id == old(c).id && final(c).world_ref == old(c).world_ref && final(c).viewport == old(c).viewport
            && final(c).layout == old(c).layout && final(c).selection == old(c).selection,
{
    let ghost xs = function_nodes(fns@, b);
    let ghost ys = function_edges(fns@, root@);
    assert(npre + xs.take(0) == npre);
    assert(epre + ys.take(0) == epre);
    for i in 0..fns.len()
        invariant
            xs == function_nodes(fns@, b),
            ys == function_edges(fns@, root@),
            nodes_are(c.nodes@, upsert_nodes(Map::empty(), npre + xs.take(i as int))),
            edges_are(c.edges@, upsert_edges(Map::empty(), epre + ys.take(i as int))),
            c.id == old(c).id && c.world_ref == old(c).world_ref && c.viewport == old(c).viewport && c.layout == old(
                c,
            ).layout && c.selection == old(c).selection,
    {
        let f = &fns[i];
        let q = f.qualified_name();
        let sid = prefixed("code:function:", &chars_of(q.as_str()));
        let label = function_label_of(f);
        let id = c.put_node(sid.as_str(), label.as_str(), function_kind_of(f), b);
        let rel = relative_chars(&chars_of(f.file_path.as_str()), root);
        let fid = crate::canvas::stable_hash_u64(prefixed("code:file:", &rel).as_str());
        c.put_edge(fid, id, EdgeKind::DependsOn);
        proof {
            lemma_step_nodes(npre, xs, i as int);
            lemma_step_edges(epre, ys, i as int);
        }
    }
    assert(xs.take(fns@.len() as int) == xs);
    assert(ys.take(fns@.len() as int) == ys);
}

/// Upsert a `Calls` edge per call.
fn put_calls(c: &mut Canvas, calls: &Vec<(String, String)>, Ghost(pre): Ghost<Seq<EdgeView>>)
    requires
        edges_are(old(c).edges@, upsert_edges(Map::empty(), pre)),
    ensures
        edges_are(final(c).edges@, upsert_edges(Map::empty(), pre + call_edges(calls@))),
        crate::canvas::same_but_edges(*old(c), *final(c)),
{
    let ghost xs = call_edges(calls@);
    assert(pre + xs.take(0) == pre);
    for i in 0..calls.len()
        invariant
            xs == call_edges(calls@),
            edges_are(c.edges@, upsert_edges(Map::empty(), pre + xs.take(i as int))),
            crate::canvas::same_but_edges(*old(c), *c),
    {
        let from = crate::canvas::stable_hash_u64(prefixed("code:function:", &chars_of(calls[i].0.as_str())).as_str());
        let to = crate::canvas::stable_hash_u64(prefixed("code:function:", &chars_of(calls[i].1.as_str())).as_str());
        c.put_edge(from, to, EdgeKind::Calls);
        proof {
            lemma_step_edges(pre, xs, i as int);
        }
    }
    assert(xs.take(calls@.len() as int) == xs);
}

/// The repo map: crates, files and (when extracted) functions, with
/// crate→file, crate→crate and file→function `DependsOn` edges and
/// `Calls` edges; layered layout.
pub fn to_canvas(graph: &RepoGraph) -> (c: Canvas)
    ensures
        projected(
            c,
            LayoutMode::Layered,
            crate_nodes(graph.crates@, sized(W140, H36)) + file_nodes(graph.files@, graph.root@, sized(W140, H36))
                + function_nodes(graph.functions@, sized(W140, H36)),
            file_edges(graph.files@, graph.root@) + dep_edges(graph.deps@) + function_edges(
                graph.functions@,
                graph.root@,
            ) + call_edges(graph.calls@),
        ),
{
    let mut c = Canvas::new();
    c.layout = LayoutMode::Layered;
    let b = Rect { x: 0, y: 0, w: W140, h: H36 };
    let root = chars_of(graph.root.as_str());
    let ghost e0 = Seq::<EdgeView>::empty();
    let ghost n0 = Seq::<NodeView>::empty();
    assert(c.nodes@.dom() =~= upsert_nodes(Map::<CanvasNodeId, NodeView>::empty(), n0).dom());
    assert(c.edges@.dom() =~= upsert_edges(Map::<CanvasEdgeId, EdgeView>::empty(), e0).dom());
    put_crates(&mut c, &graph.crates, b, Ghost(n0));
    let ghost n1 = n0 + crate_nodes(graph.crates@, b);
    put_files(&mut c, &graph.files, &root, b, Ghost(n1), Ghost(e0));
    let ghost n2 = n1 + file_nodes(graph.files@, graph.root@, b);
    let ghost e1 = e0 + file_edges(graph.files@, graph.root@);
    put_deps(&mut c, &graph.deps, Ghost(e1));
    let ghost e2 = e1 + dep_edges(graph.deps@);
    put_functions(&mut c, &graph.functions, &root, b, Ghost(n2), Ghost(e2));
    let ghost e3 = e2 + function_edges(graph.functions@, graph.root@);
    put_calls(&mut c, &graph.calls, Ghost(e3));
    assert(n2 + function_nodes(graph.functions@, b) =~= crate_nodes(graph.crates@, b) + file_nodes(
        graph.files@,
        graph.root@,
        b,
    ) + function_nodes(graph.functions@, b));
    assert(e3 + call_edges(graph.calls@) =~= file_edges(graph.files@, graph.root@) + dep_edges(graph.deps@)
        + function_edges(graph.functions@, graph.root@) + call_edges(graph.calls@));
    c
}


fn count_files(files: &Vec<RepoFile>, name: &str) -> (n: usize)
    ensures
        n == file_count(files@, name@),
{
    let mut n: usize = 0;
    for i in 0..files.len()
        invariant
            n == file_count(files@.take(i as int), name@),
            n <= i,
    {
        proof {
            assert(files@.take(i + 1).drop_last() == files@.take(i as int));
            assert(files@.take(i + 1).last() == files@[i as int]);
        }
        match &files[i].crate_name {
            Some(cn) => {
                if chars_eq_str(&chars_of(cn.as_str()), name) {
                    n = n + 1;
                }
            },
            None => {},
        }
    }
    assert(files@.take(files@.len() as int) == files@);
    n
}

fn crate_label_of(name: &str, count: usize) -> (r: String)
    ensures
        r@ == crate_label(name@, count as nat),
{
    if count > 0 {
        let mut v = chars_of(name);
        append_str(&mut v, "\n");
        crate::text::append_decimal(&mut v, count as u64);
        append_str(&mut v, " file");
        if count != 1 {
            append_str(&mut v, "s");
        }
        let r = string_of(&v);
        assert(r@ =~= crate_label(name@, count as nat));
        r
    } else {
        string_of(&chars_of(name))
    }
}

/// The architecture view: one node per crate, labelled with its file
/// count, and the crate dependencies; layered layout.
pub fn to_canvas_architecture(graph: &RepoGraph) -> (c: Canvas)
    ensures
        projected(c, LayoutMode::Layered, arch_nodes(*graph), arch_edges(*graph)),
{
    let mut c = Canvas::new();
    c.layout = LayoutMode::Layered;
    let b = Rect { x: 0, y: 0, w: W220, h: H56 };
    let ghost xs = architecture_nodes(graph.crates@, graph.files@, b);
    let ghost e0 = Seq::<EdgeView>::empty();
    assert(c.nodes@.dom() =~= upsert_nodes(Map::<CanvasNodeId, NodeView>::empty(), xs.take(0)).dom());
    assert(c.edges@.dom() =~= upsert_edges(Map::<CanvasEdgeId, EdgeView>::empty(), e0).dom());
    for i in 0..graph.crates.len()
        invariant
            xs == architecture_nodes(graph.crates@, graph.files@, b),
            nodes_are(c.nodes@, upsert_nodes(Map::empty(), xs.take(i as int))),
            c.edges@ == Map::<CanvasEdgeId, crate::canvas::CanvasEdge>::empty(),
            exists|t: i64| c.id@ == canvas_id(t as int),
            c.world_ref is None,
            c.layout == LayoutMode::Layered,
            c.viewport == (crate::canvas::Viewport { pan_x: 0, pan_y: 0, scale: crate::canvas::ONE_BITS }),
            c.selection.nodes@.len() == 0 && c.selection.edges@.len() == 0,
    {
        let name = graph.crates[i].name.as_str();
        let count = count_files(&graph.files, name);
        let label = crate_label_of(name, count);
        let sid = prefixed("code:crate:", &chars_of(name));
        c.put_node(sid.as_str(), label.as_str(), CanvasNodeKind::Crate, b);
        proof {
            assert(Seq::<NodeView>::empty() + xs.take(i + 1) == xs.take(i + 1));
            assert(Seq::<NodeView>::empty() + xs.take(i as int) == xs.take(i as int));
            lemma_step_nodes(Seq::empty(), xs, i as int);
        }
    }
    assert(xs.take(graph.crates@.len() as int) == xs);
    assert(c.edges@.dom() =~= upsert_edges(Map::<CanvasEdgeId, EdgeView>::empty(), e0).dom());
    put_deps(&mut c, &graph.deps, Ghost(e0));
    assert(e0 + dep_edges(graph.deps@) == dep_edges(graph.deps@));
    c
}

/// The function graph: one node per function that takes part in a
/// call, and the `Calls` edges; force-directed layout. A graph without
/// functions gives an empty canvas.
pub fn to_canvas_function_graph(graph: &RepoGraph) -> (c: Canvas)
    ensures
        graph.functions@.len() == 0 ==> projected(c, LayoutMode::ForceDirected, Seq::empty(), Seq::empty()),
        graph.functions@.len() > 0 ==> projected(
            c,
            LayoutMode::ForceDirected,
            called_function_nodes(graph.functions@, graph.calls@, sized(W160, H36)),
            call_edges(graph.calls@),
        ),
{
    let mut c = Canvas::new();
    c.layout = LayoutMode::ForceDirected;
    let ghost e0 = Seq::<EdgeView>::empty();
    assert(c.nodes@.dom() =~= upsert_nodes(Map::<CanvasNodeId, NodeView>::empty(), Seq::empty()).dom());
    assert(c.edges@.dom() =~= upsert_edges(Map::<CanvasEdgeId, EdgeView>::empty(), e0).dom());
    if graph.functions.len() == 0 {
        return c;
    }
    let b = Rect { x: 0, y: 0, w: W160, h: H36 };
    let fns = &graph.functions;
    let calls = &graph.calls;
    for i in 0..fns.len()
        invariant
            fns == &graph.functions,
            calls == &graph.calls,
            nodes_are(c.nodes@, upsert_nodes(Map::empty(), called_function_nodes(fns@.take(i as int), calls@, b))),
            c.edges@ == Map::<CanvasEdgeId, crate::canvas::CanvasEdge>::empty(),
            exists|t: i64| c.id@ == canvas_id(t as int),
            c.world_ref is None,
            c.layout == LayoutMode::ForceDirected,
            c.viewport == (crate::canvas::Viewport { pan_x: 0, pan_y: 0, scale: crate::canvas::ONE_BITS }),
            c.selection.nodes@.len() == 0 && c.selection.edges@.len() == 0,
    {
        let f = &fns[i];
        let q = f.qualified_name();
        proof {
            assert(fns@.take(i + 1).drop_last() == fns@.take(i as int));
            assert(fns@.take(i + 1).last() == fns@[i as int]);
        }
        if call_mentions(calls, q.as_str()) {
            let ghost before = called_function_nodes(fns@.take(i as int), calls@, b);
            let sid = prefixed("code:function:", &chars_of(q.as_str()));
            let label = function_label_of(f);
            c.put_node(sid.as_str(), label.as_str(), function_kind_of(f), b);
            proof {
                let n = new_node(sid@, label@, function_kind(*f), b);
                assert(before.push(n).drop_last() == before);
                assert(called_function_nodes(fns@.take(i + 1), calls@, b) == before.push(n));
            }
        }
    }
    assert(fns@.take(fns@.len() as int) == fns@);
    assert(c.edges@.dom() =~= upsert_edges(Map::<CanvasEdgeId, EdgeView>::empty(), e0).dom());
    put_calls(&mut c, calls, Ghost(e0));
    assert(e0 + call_edges(graph.calls@) == call_edges(graph.calls@));
    c
}

fn call_mentions(calls: &Vec<(String, String)>, q: &str) -> (b: bool)
    ensures
        b == in_calls(calls@, q@),
{
    for i in 0..calls.len()
        invariant
            forall|j: int| 0 <= j < i ==> !(calls@[j].0@ == q@ || calls@[j].1@ == q@),
    {
        if chars_eq_str(&chars_of(calls[i].0.as_str()), q) || chars_eq_str(&chars_of(calls[i].1.as_str()), q) {
            return true;
        }
    }
    false
}

/// The nodes of the architecture view: a crate per node, labelled with
/// its file count.
pub open spec fn arch_nodes(g: RepoGraph) -> Seq<NodeView> {
    architecture_nodes(g.crates@, g.files@, sized(W220, H56))
}

/// The edges of the architecture view: the crate dependencies.
pub open spec fn arch_edges(g: RepoGraph) -> Seq<EdgeView> {
    dep_edges(g.deps@)
}

/// The nodes of the repo view: crates and their source roots, or the
/// architecture view's when there is no source root.
pub open spec fn repo_nodes(g: RepoGraph) -> Seq<NodeView> {
    if has_source_root(g.files@) {
        crate_nodes(g.crates@, sized(W220, H56)) + root_file_nodes(g.files@, g.root@, sized(W180, H36))
    } else {
        arch_nodes(g)
    }
}

/// The edges of the repo view: dependencies and crate-to-root edges, or
/// the architecture view's when there is no source root.
pub open spec fn repo_edges(g: RepoGraph) -> Seq<EdgeView> {
    if has_source_root(g.files@) {
        dep_edges(g.deps@) + root_file_edges(g.files@, g.root@)
    } else {
        arch_edges(g)
    }
}

/// Without a discoverable source root the repo view is the architecture
/// view: the same nodes (ids, labels, kinds, bounds) and the same edges.
pub proof fn lemma_repo_view_falls_back(g: RepoGraph)
    requires
        !has_source_root(g.files@),
    ensures
        repo_nodes(g) == arch_nodes(g),
        repo_edges(g) == arch_edges(g),
{
}

/// Whether some file is a crate's source root.
pub open spec fn has_source_root(fs: Seq<RepoFile>) -> bool {
    exists|i: int| 0 <= i < fs.len() && #[trigger] is_source_root(fs[i])
}

fn any_source_root(files: &Vec<RepoFile>) -> (b: bool)
    ensures
        b == has_source_root(files@),
{
    for i in 0..files.len()
        invariant
            forall|j: int| 0 <= j < i ==> !#[trigger] is_source_root(files@[j]),
    {
        if files[i].crate_name.is_some() {
            let name = file_name_chars(&chars_of(files[i].path.as_str()));
            if chars_eq_str(&name, "lib.rs") || chars_eq_str(&name, "main.rs") {
                assert(is_source_root(files@[i as int]));
                return true;
            }
        }
    }
    false
}

/// The engineering repo view: crates, their dependencies, and each
/// crate's source roots (`lib.rs`, `main.rs`) hung from it; layered
/// layout. Without any source root it is the architecture view.
pub fn to_canvas_repo(graph: &RepoGraph) -> (c: Canvas)
    ensures
        projected(c, LayoutMode::Layered, repo_nodes(*graph), repo_edges(*graph)),
{
    if any_source_root(&graph.files) {
        repo_roots_canvas(graph)
    } else {
        to_canvas_architecture(graph)
    }
}

/// Crates, their dependencies, and each crate's source roots.
fn repo_roots_canvas(graph: &RepoGraph) -> (c: Canvas)
    ensures
        projected(
            c,
            LayoutMode::Layered,
            crate_nodes(graph.crates@, sized(W220, H56)) + root_file_nodes(graph.files@, graph.root@, sized(W180, H36)),
            dep_edges(graph.deps@) + root_file_edges(graph.files@, graph.root@),
        ),
{
    let mut c = Canvas::new();
    c.layout = LayoutMode::Layered;
    let cb = Rect { x: 0, y: 0, w: W220, h: H56 };
    let fb = Rect { x: 0, y: 0, w: W180, h: H36 };
    let root = chars_of(graph.root.as_str());
    let ghost n0 = Seq::<NodeView>::empty();
    let ghost e0 = Seq::<EdgeView>::empty();
    assert(c.nodes@.dom() =~= upsert_nodes(Map::<CanvasNodeId, NodeView>::empty(), n0).dom());
    assert(c.edges@.dom() =~= upsert_edges(Map::<CanvasEdgeId, EdgeView>::empty(), e0).dom());
    put_crates(&mut c, &graph.crates, cb, Ghost(n0));
    put_deps(&mut c, &graph.deps, Ghost(e0));
    let ghost n1 = n0 + crate_nodes(graph.crates@, cb);
    let ghost e1 = e0 + dep_edges(graph.deps@);
    let files = &graph.files;
    assert(files@.take(0) == Seq::<RepoFile>::empty());
    assert(n1 + root_file_nodes(files@.take(0), graph.root@, fb) == n1);
    assert(e1 + root_file_edges(files@.take(0), graph.root@) == e1);
    for i in 0..files.len()
        invariant
            files == &graph.files,
            root@ == graph.root@,
            nodes_are(c.nodes@, upsert_nodes(Map::empty(), n1 + root_file_nodes(files@.take(i as int), graph.root@, fb))),
            edges_are(c.edges@, upsert_edges(Map::empty(), e1 + root_file_edges(files@.take(i as int), graph.root@))),
            exists|t: i64| c.id@ == canvas_id(t as int),
            c.world_ref is None,
            c.layout == LayoutMode::Layered,
            c.viewport == (crate::canvas::Viewport { pan_x: 0, pan_y: 0, scale: crate::canvas::ONE_BITS }),
            c.selection.nodes@.len() == 0 && c.selection.edges@.len() == 0,
    {
        let f = &files[i];
        proof {
            assert(files@.take(i + 1).drop_last() == files@.take(i as int));
            assert(files@.take(i + 1).last() == files@[i as int]);
        }
        match &f.crate_name {
            None => {},
            Some(cn) => {
                let path = chars_of(f.path.as_str());
                let name = file_name_chars(&path);
                if chars_eq_str(&name, "lib.rs") || chars_eq_str(&name, "main.rs") {
                    let ghost nb = n1 + root_file_nodes(files@.take(i as int), graph.root@, fb);
                    let ghost eb = e1 + root_file_edges(files@.take(i as int), graph.root@);
                    let rel = relative_chars(&path, &root);
                    let sid = prefixed("code:file:", &rel);
                    let label = string_of(&name);
                    let fid = c.put_node(sid.as_str(), label.as_str(), CanvasNodeKind::File, fb);
                    let cid = crate::canvas::stable_hash_u64(prefixed("code:crate:", &chars_of(cn.as_str())).as_str());
                    c.put_edge(cid, fid, EdgeKind::DependsOn);
                    proof {
                        let n = new_node(sid@, label@, CanvasNodeKind::File, fb);
                        let e = new_edge(cid, fid, EdgeKind::DependsOn);
                        assert(n1 + root_file_nodes(files@.take(i + 1), graph.root@, fb) == nb.push(n));
                        assert(e1 + root_file_edges(files@.take(i + 1), graph.root@) == eb.push(e));
                        assert(nb.push(n).drop_last() == nb);
                        assert(eb.push(e).drop_last() == eb);
                    }
                }
            },
        }
    }
    assert(files@.take(files@.len() as int) == files@);
    assert(n1 + root_file_nodes(graph.files@, graph.root@, fb) =~= crate_nodes(graph.crates@, cb) + root_file_nodes(
        graph.files@,
        graph.root@,
        fb,
    ));
    assert(e1 + root_file_edges(graph.files@, graph.root@) =~= dep_edges(graph.deps@) + root_file_edges(
        graph.files@,
        graph.root@,
    ));
    c
}


/// The Repo Map view of a repository rooted at `root`, whose walk
/// (absent when `root` does not exist) is `walked`: the repo map of its
/// graph.
pub fn open_repo_canvas(root: &str, walked: Option<RepoWalk>) -> (c: Canvas)
    ensures
        exists|g: RepoGraph|
            g.root@ == root@ && g.functions@.len() == 0 && g.calls@.len() == 0 && (match walked {
                None => g.crates@.len() == 0 && g.files@.len() == 0 && g.deps@.len() == 0,
                Some(w) => g.crates@ == w@.0 && g.files@ == w@.1 && crate::codegraph::deps_view(g.deps@)
                    == crate::codegraph::workspace_deps(
                    crate::codegraph::deps_view(w@.2),
                    crate::codegraph::crate_names(w@.0),
                ),
            }) && projected(
                c,
                LayoutMode::Layered,
                crate_nodes(g.crates@, sized(W140, H36)) + file_nodes(g.files@, g.root@, sized(W140, H36))
                    + function_nodes(g.functions@, sized(W140, H36)),
                file_edges(g.files@, g.root@) + dep_edges(g.deps@) + function_edges(g.functions@, g.root@)
                    + call_edges(g.calls@),
            ),
{
    let graph = extract_repo_graph(root, walked);
    to_canvas(&graph)
}

} // verus!
