//! Mermaid export of a canvas.
//!
//! The nodes and edges come out in the order the canvas's maps are
//! walked, which the maps do not fix; what is fixed is that each node
//! and each edge gives exactly one line.
use vstd::prelude::*;
use std::collections::HashMap;
use vstd::std_specs::iter::IteratorSpec;
use crate::canvas::{Canvas, CanvasEdge, CanvasNode};
use crate::text::{append_decimal, append_str, chars_of, decimal, string_of};

verus! {

/// `[` and `]` turned into `_`, which Mermaid labels cannot hold.
pub open spec fn escape_mermaid(s: Seq<char>) -> Seq<char> {
    s.map_values(|c: char| if c == '[' || c == ']' { '_' } else { c })
}

/// `  N<id>[<label>]` and a line break.
pub open spec fn node_line(n: CanvasNode) -> Seq<char> {
    "  N"@ + decimal(n.id as nat) + "["@ + escape_mermaid(n.label@) + "]\n"@
}

/// `  N<from> --> N<to>` and a line break.
pub open spec fn edge_line(e: CanvasEdge) -> Seq<char> {
    "  N"@ + decimal(e.from as nat) + " --> N"@ + decimal(e.to as nat) + "\n"@
}

pub open spec fn node_lines(ns: Seq<CanvasNode>) -> Seq<char>
    decreases ns.len(),
{
    if ns.len() == 0 {
        Seq::empty()
    } else {
        node_lines(ns.drop_last()) + node_line(ns.last())
    }
}

pub open spec fn edge_lines(es: Seq<CanvasEdge>) -> Seq<char>
    decreases es.len(),
{
    if es.len() == 0 {
        Seq::empty()
    } else {
        edge_lines(es.drop_last()) + edge_line(es.last())
    }
}

/// `ks` lists each key of `m` once.
pub open spec fn enumerates<V>(m: Map<u64, V>, ks: Seq<u64>) -> bool {
    ks.no_duplicates() && forall|k: u64| #[trigger] m.contains_key(k) <==> ks.contains(k)
}

/// The values of `m` in the order of `ks`.
pub open spec fn in_order<V>(m: Map<u64, V>, ks: Seq<u64>) -> Seq<V> {
    ks.map_values(|k: u64| m[k])
}

fn escaped(s: &str) -> (r: Vec<char>)
    ensures
        r@ == escape_mermaid(s@),
{
    let v = chars_of(s);
    let mut out: Vec<char> = Vec::new();
    for i in 0..v.len()
        invariant
            out@ == escape_mermaid(v@.take(i as int)),
            v@ == s@,
    {
        let c = v[i];
        out.push(if c == '[' || c == ']' { '_' } else { c });
        assert(escape_mermaid(v@.take(i + 1)) =~= escape_mermaid(v@.take(i as int)).push(
            if c == '[' || c == ']' { '_' } else { c },
        ));
    }
    assert(v@.take(v@.len() as int) == v@);
    out
}

/// The keys of `m` in the order `m.iter()` walks them; a line per node
/// is appended to `out` in that order.
fn node_keys_and_lines(m: &HashMap<u64, CanvasNode>, out: &mut Vec<char>) -> (ks: Ghost<Seq<u64>>)
    ensures
        enumerates(m@, ks@),
        final(out)@ == old(out)@ + node_lines(in_order(m@, ks@)),
{
    broadcast use vstd::std_specs::hash::group_hash_axioms;
    let it0 = m.iter();
    let ghost all = it0.remaining();
    assert(all.no_duplicates());
    let ghost mut ks: Seq<u64> = Seq::empty();
    let ghost start = out@;
    for (k, n) in it: m.iter()
        invariant
            it.seq() == all,
            ks.len() == it.index(),
            forall|j: int| 0 <= j < ks.len() ==> ks[j] == *all[j].0,
            out@ == start + node_lines(in_order(m@, ks)),
    {
        assert((k, n) == all[ks.len() as int]);
        assert(m@.contains_key(*k) && m@[*k] == *n);
        let ghost before = out@;
        append_str(out, "  N");
        append_decimal(out, n.id);
        append_str(out, "[");
        let e = escaped(n.label.as_str());
        crate::text::append_chars(out, &e);
        append_str(out, "]\n");
        proof {
            let ks2 = ks.push(*k);
            assert(in_order(m@, ks2).drop_last() == in_order(m@, ks));
            assert(in_order(m@, ks2).last() == *n);
            assert(out@ =~= before + node_line(*n));
            ks = ks2;
        }
    }
    proof {
        lemma_keys_enumerate(m@, all, ks);
    }
    Ghost(ks)
}

/// Same, for edges.
fn edge_keys_and_lines(m: &HashMap<u64, CanvasEdge>, out: &mut Vec<char>) -> (ks: Ghost<Seq<u64>>)
    ensures
        enumerates(m@, ks@),
        final(out)@ == old(out)@ + edge_lines(in_order(m@, ks@)),
{
    broadcast use vstd::std_specs::hash::group_hash_axioms;
    let it0 = m.iter();
    let ghost all = it0.remaining();
    assert(all.no_duplicates());
    let ghost mut ks: Seq<u64> = Seq::empty();
    let ghost start = out@;
    for (k, e) in it: m.iter()
        invariant
            it.seq() == all,
            ks.len() == it.index(),
            forall|j: int| 0 <= j < ks.len() ==> ks[j] == *all[j].0,
            out@ == start + edge_lines(in_order(m@, ks)),
    {
        assert((k, e) == all[ks.len() as int]);
        assert(m@.contains_key(*k) && m@[*k] == *e);
        let ghost before = out@;
        append_str(out, "  N");
        append_decimal(out, e.from);
        append_str(out, " --> N");
        append_decimal(out, e.to);
        append_str(out, "\n");
        proof {
            let ks2 = ks.push(*k);
            assert(in_order(m@, ks2).drop_last() == in_order(m@, ks));
            assert(in_order(m@, ks2).last() == *e);
            assert(out@ =~= before + edge_line(*e));
            ks = ks2;
        }
    }
    proof {
        lemma_keys_enumerate(m@, all, ks);
    }
    Ghost(ks)
}

/// The keys of a map's pairs, listed without repeats, enumerate it.
pub proof fn lemma_keys_enumerate<V>(m: Map<u64, V>, all: Seq<(&u64, &V)>, ks: Seq<u64>)
    requires
        all.no_duplicates(),
        ks.len() == all.len(),
        forall|j: int| 0 <= j < ks.len() ==> ks[j] == *all[j].0,
        forall|i: int| 0 <= i < all.len() ==> m.contains_key(*all[i].0) && m[*all[i].0] == *all[i].1,
        forall|k: u64| #[trigger] m.contains_key(k) ==> all.contains((&k, &m[k])),
    ensures
        enumerates(m, ks),
{
    assert forall|i: int, j: int| 0 <= i < ks.len() && 0 <= j < ks.len() && i != j implies ks[i] != ks[j] by {
        if ks[i] == ks[j] {
            assert(*all[i].1 == m[ks[i]]);
            assert(*all[j].1 == m[ks[j]]);
            assert(all[i] == all[j]);
        }
    }
    assert forall|k: u64| #[trigger] m.contains_key(k) <==> ks.contains(k) by {
        if m.contains_key(k) {
            let w = choose|w: int| 0 <= w < all.len() && all[w] == (&k, &m[k]);
            assert(ks[w] == k);
        }
        if ks.contains(k) {
            let w = choose|w: int| 0 <= w < ks.len() && ks[w] == k;
            assert(m.contains_key(*all[w].0));
        }
    }
}

/// The canvas as a Mermaid flowchart: `graph TD`, then a line per node
/// (`N<id>[<label>]`), then a line per edge (`N<from> --> N<to>`).
pub fn to_mermaid(canvas: &Canvas) -> (r: String)
    ensures
        exists|nk: Seq<u64>, ek: Seq<u64>|
            enumerates(canvas.nodes@, nk) && enumerates(canvas.edges@, ek) && r@ == "graph TD\n"@ + node_lines(
                #[trigger] in_order(canvas.nodes@, nk),
            ) + edge_lines(#[trigger] in_order(canvas.edges@, ek)),
{
    let mut out = chars_of("graph TD\n");
    let nk = node_keys_and_lines(&canvas.nodes, &mut out);
    let ek = edge_keys_and_lines(&canvas.edges, &mut out);
    let r = string_of(&out);
    assert(r@ == "graph TD\n"@ + node_lines(in_order(canvas.nodes@, nk@)) + edge_lines(in_order(canvas.edges@, ek@)));
    r
}

} // verus!
