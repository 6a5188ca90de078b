//! Layer assignment of the layered layout.
//!
//! Nodes go into layers as in Kahn's topological sort: the first layer
//! holds the nodes no edge enters; each next layer holds the nodes not
//! yet placed all of whose entering edges come from placed nodes. Each
//! layer lists its node ids in increasing order. Nodes never placed
//! (on a cycle, or entered by an edge from a node not on the canvas)
//! form one last layer. The layered layout itself falls back to a grid
//! when such nodes remain (a cycle): `layered_plan` decides which.
//! Turning layers into coordinates is floating point and left to the
//! caller.
use vstd::prelude::*;
use std::collections::{HashMap, HashSet};
use vstd::std_specs::iter::IteratorSpec;
use crate::canvas::{Canvas, CanvasEdge, CanvasEdgeId, CanvasNode, CanvasNodeId};
use crate::export::enumerates;

verus! {

/// Whether node `v` is ready once the nodes of `p` are placed: it is on
/// the canvas, not placed, and every edge entering it leaves a placed
/// node.
pub open spec fn ready(nodes: Set<CanvasNodeId>, edges: Map<CanvasEdgeId, CanvasEdge>, p: Set<CanvasNodeId>, v: CanvasNodeId) -> bool {
    &&& nodes.contains(v)
    &&& !p.contains(v)
    &&& forall|k: CanvasEdgeId| #[trigger] edges.contains_key(k) && edges[k].to == v ==> p.contains(edges[k].from)
}

/// The nodes placed in the first `i` layers.
pub open spec fn placed(nodes: Set<CanvasNodeId>, edges: Map<CanvasEdgeId, CanvasEdge>, i: nat) -> Set<CanvasNodeId>
    decreases i,
{
    if i == 0 {
        Set::empty()
    } else {
        let p = placed(nodes, edges, (i - 1) as nat);
        p.union(Set::new(|v: CanvasNodeId| ready(nodes, edges, p, v)))
    }
}

/// The nodes of layer `i`.
pub open spec fn layer_set(nodes: Set<CanvasNodeId>, edges: Map<CanvasEdgeId, CanvasEdge>, i: nat) -> Set<CanvasNodeId> {
    Set::new(|v: CanvasNodeId| ready(nodes, edges, placed(nodes, edges, i), v))
}

pub open spec fn increasing(s: Seq<u64>) -> bool {
    forall|i: int, j: int| 0 <= i < j < s.len() ==> s[i] < s[j]
}

/// `layers` is the layer assignment of `c`: its first `k` entries are
/// the non-empty layers in order, each increasing, after which no node
/// is ready; a last entry, when the nodes left over are not none,
/// lists those left over.
pub open spec fn layered(c: Canvas, layers: Seq<Seq<u64>>) -> bool {
    let nodes = c.nodes@.dom();
    let edges = c.edges@;
    exists|k: nat|
        #![trigger placed(nodes, edges, k)]
        {
            &&& k <= layers.len()
            &&& forall|i: int|
                0 <= i < k ==> increasing(#[trigger] layers[i]) && layers[i].len() > 0 && layers[i].to_set()
                    == layer_set(nodes, edges, i as nat)
            &&& layer_set(nodes, edges, k) == Set::<CanvasNodeId>::empty()
            &&& if nodes.difference(placed(nodes, edges, k)) == Set::<CanvasNodeId>::empty() {
                layers.len() == k
            } else {
                &&& layers.len() == k + 1
                &&& layers[k as int].no_duplicates()
                &&& layers[k as int].to_set() == nodes.difference(placed(nodes, edges, k))
            }
        }
}

/// The keys of `m`, each once, in the order `m.iter()` walks them.
pub fn map_keys<V>(m: &HashMap<u64, V>) -> (ks: Vec<u64>)
    ensures
        enumerates(m@, ks@),
{
    broadcast use vstd::std_specs::hash::group_hash_axioms;
    let it0 = m.iter();
    let ghost all = it0.remaining();
    assert(all.no_duplicates());
    let mut ks: Vec<u64> = Vec::new();
    for (k, v) in it: m.iter()
        invariant
            it.seq() == all,
            ks@.len() == it.index(),
            forall|j: int| 0 <= j < ks@.len() ==> ks@[j] == *all[j].0,
    {
        assert((k, v) == all[ks@.len() as int]);
        ks.push(*k);
    }
    proof {
        crate::export::lemma_keys_enumerate(m@, all, ks@);
    }
    ks
}

/// Whether `p` is the `(from, to)` of some edge of `m`.
pub open spec fn is_edge_end(m: Map<CanvasEdgeId, CanvasEdge>, p: (u64, u64)) -> bool {
    exists|k: CanvasEdgeId| #![trigger m[k]] m.contains_key(k) && p == (m[k].from, m[k].to)
}

/// The `(from, to)` of every edge of `m`.
fn edge_ends(m: &HashMap<CanvasEdgeId, CanvasEdge>) -> (r: Vec<(u64, u64)>)
    ensures
        forall|j: int| 0 <= j < r@.len() ==> is_edge_end(m@, #[trigger] r@[j]),
        forall|k: CanvasEdgeId| #[trigger] m@.contains_key(k) ==> r@.contains((m@[k].from, m@[k].to)),
{
    broadcast use vstd::std_specs::hash::group_hash_axioms;
    let ghost all = vstd::std_specs::hash::spec_hash_map_iter(m).remaining();
    let mut r: Vec<(u64, u64)> = Vec::new();
    for (k, e) in it: m.iter()
        invariant
            it.seq() == all,
            r@.len() == it.index(),
            forall|j: int| 0 <= j < r@.len() ==> r@[j] == ((*all[j].1).from, (*all[j].1).to),
    {
        assert((k, e) == all[r@.len() as int]);
        r.push((e.from, e.to));
    }
    assert forall|j: int| 0 <= j < r@.len() implies is_edge_end(m@, #[trigger] r@[j]) by {
        assert(m@.contains_key(*all[j].0) && m@[*all[j].0] == *all[j].1);
    }
    assert forall|k: CanvasEdgeId| #[trigger] m@.contains_key(k) implies r@.contains((m@[k].from, m@[k].to)) by {
        assert(all.contains((&k, &m@[k])));
        let w = choose|w: int| 0 <= w < all.len() && all[w] == (&k, &m@[k]);
        assert(r@[w] == (m@[k].from, m@[k].to));
    }
    r
}

/// The ids of `v` in increasing order.
fn sort_ids(v: &Vec<u64>) -> (r: Vec<u64>)
    requires
        v@.no_duplicates(),
    ensures
        increasing(r@),
        forall|x: u64| #[trigger] r@.contains(x) <==> v@.contains(x),
        r@.len() == v@.len(),
{
    let mut out: Vec<u64> = Vec::new();
    for i in 0..v.len()
        invariant
            v@.no_duplicates(),
            increasing(out@),
            forall|x: u64| #[trigger] out@.contains(x) <==> v@.take(i as int).contains(x),
            out@.len() == i,
    {
        let x = v[i];
        let mut p: usize = 0;
        while p < out.len() && out[p] < x
            invariant
                p <= out@.len(),
                forall|j: int| 0 <= j < p ==> out@[j] < x,
            decreases out@.len() - p,
        {
            p = p + 1;
        }
        proof {
            assert(!v@.take(i as int).contains(x)) by {
                if v@.take(i as int).contains(x) {
                    let w = choose|w: int| 0 <= w < i && v@.take(i as int)[w] == x;
                    assert(v@[w] == v@[i as int]);
                }
            }
            assert(!out@.contains(x));
            if p < out@.len() {
                assert(out@[p as int] != x);
            }
        }
        let ghost before = out@;
        out.insert(p, x);
        proof {
            assert(v@.take(i + 1) == v@.take(i as int).push(x));
            assert forall|a: int, b: int| 0 <= a < b < out@.len() implies out@[a] < out@[b] by {
                if b < p {
                } else if a < p && b == p {
                } else if a < p {
                    assert(out@[b] == before[b - 1]);
                    assert(before[a] < before[b - 1] || a == b - 1);
                } else if a == p {
                    assert(out@[b] == before[b - 1]);
                    assert(before[p as int] >= x || p == before.len());
                    if p as int != b - 1 {
                        assert(before[p as int] < before[b - 1]);
                    }
                } else {
                    assert(out@[a] == before[a - 1]);
                    assert(out@[b] == before[b - 1]);
                }
            }
            assert forall|y: u64| #[trigger] out@.contains(y) <==> v@.take(i + 1).contains(y) by {
                if out@.contains(y) {
                    let w = choose|w: int| 0 <= w < out@.len() && out@[w] == y;
                    if w < p {
                        assert(before[w] == y);
                        assert(before.contains(y));
                    } else if w > p {
                        assert(before[w - 1] == y);
                        assert(before.contains(y));
                    }
                    assert(v@.take(i as int).contains(y) || y == x);
                    if y == x {
                        assert(v@.take(i + 1)[i as int] == x);
                    } else {
                        let w2 = choose|w2: int| 0 <= w2 < i && v@.take(i as int)[w2] == y;
                        assert(v@.take(i + 1)[w2] == y);
                    }
                }
                let t1 = v@.take(i + 1);
                if t1.contains(y) {
                    let w = choose|w: int| 0 <= w < t1.len() && t1[w] == y;
                    if w == i {
                        assert(out@[p as int] == y);
                    } else {
                        assert(v@.take(i as int)[w] == y);
                        assert(before.contains(y));
                        let w2 = choose|w2: int| 0 <= w2 < before.len() && before[w2] == y;
                        if w2 < p {
                            assert(out@[w2] == y);
                        } else {
                            assert(out@[w2 + 1] == y);
                        }
                    }
                }
            }
        }
    }
    assert(v@.take(v@.len() as int) == v@);
    out
}

/// Whether every edge end pair of `ends` that enters `v` leaves a node
/// of `placed`.
fn preds_placed(ends: &Vec<(u64, u64)>, v: u64, placed: &HashSet<u64>) -> (b: bool)
    ensures
        b == forall|j: int| 0 <= j < ends@.len() && (#[trigger] ends@[j]).1 == v ==> placed@.contains(ends@[j].0),
{
    broadcast use vstd::std_specs::hash::group_hash_axioms;
    for j in 0..ends.len()
        invariant
            forall|i: int| 0 <= i < j && (#[trigger] ends@[i]).1 == v ==> placed@.contains(ends@[i].0),
    {
        let (a, b) = ends[j];
        if b == v && !placed.contains(&a) {
            return false;
        }
    }
    true
}

/// Whether `x` is among the first `n` entries of `s`.
pub open spec fn in_prefix(s: Seq<u64>, n: int, x: u64) -> bool {
    exists|b: int| 0 <= b < n && #[trigger] s[b] == x
}

/// How many entries of `ids` are outside `p`.
pub open spec fn unplaced(ids: Seq<u64>, p: Set<u64>) -> nat
    decreases ids.len(),
{
    if ids.len() == 0 {
        0
    } else {
        unplaced(ids.drop_last(), p) + if p.contains(ids.last()) {
            0nat
        } else {
            1nat
        }
    }
}

/// Placing more nodes leaves no more unplaced, and strictly fewer when
/// one of them is in `ids`.
proof fn lemma_unplaced_shrinks(ids: Seq<u64>, p: Set<u64>, q: Set<u64>, x: u64)
    requires
        p.subset_of(q),
    ensures
        unplaced(ids, q) <= unplaced(ids, p),
        ids.contains(x) && !p.contains(x) && q.contains(x) ==> unplaced(ids, q) < unplaced(ids, p),
    decreases ids.len(),
{
    if ids.len() > 0 {
        lemma_unplaced_shrinks(ids.drop_last(), p, q, x);
        if ids.contains(x) && !p.contains(x) && q.contains(x) && ids.last() != x {
            let w = choose|w: int| 0 <= w < ids.len() && ids[w] == x;
            assert(ids.drop_last()[w] == x);
        }
    }
}

/// Kahn's layers of `c`: every non-empty layer in order, after which
/// no node is ready, and the nodes left over.
pub open spec fn kahn_result(c: Canvas, layers: Seq<Seq<u64>>, rest: Seq<u64>) -> bool {
    let nodes = c.nodes@.dom();
    let edges = c.edges@;
    let k = layers.len();
    &&& forall|i: int|
        0 <= i < k ==> increasing(#[trigger] layers[i]) && layers[i].len() > 0 && layers[i].to_set() == layer_set(
            nodes,
            edges,
            i as nat,
        )
    &&& layer_set(nodes, edges, k) == Set::<CanvasNodeId>::empty()
    &&& rest.no_duplicates()
    &&& rest.to_set() == nodes.difference(placed(nodes, edges, k))
}

fn kahn(c: &Canvas) -> (r: (Vec<Vec<u64>>, Vec<u64>))
    ensures
        kahn_result(*c, r.0@.map_values(|l: Vec<u64>| l@), r.1@),
{
    broadcast use vstd::std_specs::hash::group_hash_axioms;
    let ghost nodes = c.nodes@.dom();
    let ghost edges = c.edges@;
    let keys = map_keys(&c.nodes);
    let ids = sort_ids(&keys);
    let ends = edge_ends(&c.edges);
    let mut placed_set: HashSet<u64> = HashSet::new();
    let mut layers: Vec<Vec<u64>> = Vec::new();
    let ghost mut k: nat = 0;
    proof {
        assert(placed_set@ =~= placed(nodes, edges, 0));
    }
    loop
        invariant
            increasing(ids@),
            forall|x: u64| #[trigger] ids@.contains(x) <==> nodes.contains(x),
            forall|j: int| 0 <= j < ends@.len() ==> is_edge_end(edges, #[trigger] ends@[j]),
            forall|e: CanvasEdgeId| #[trigger] edges.contains_key(e) ==> ends@.contains((edges[e].from, edges[e].to)),
            nodes == c.nodes@.dom(),
            edges == c.edges@,
            placed_set@ == placed(nodes, edges, k),
            placed(nodes, edges, k).subset_of(nodes),
            layers@.len() == k,
            forall|i: int|
                0 <= i < k ==> increasing((#[trigger] layers@[i])@) && layers@[i]@.len() > 0 && layers@[i]@.to_set()
                    == layer_set(nodes, edges, i as nat),
        ensures
            layers@.len() == k,
            placed_set@ == placed(nodes, edges, k),
            forall|i: int|
                0 <= i < k ==> increasing((#[trigger] layers@[i])@) && layers@[i]@.len() > 0 && layers@[i]@.to_set()
                    == layer_set(nodes, edges, i as nat),
            layer_set(nodes, edges, k) == Set::<CanvasNodeId>::empty(),
        decreases unplaced(ids@, placed(nodes, edges, k)),
    {
        let ghost p = placed(nodes, edges, k);
        let mut current: Vec<u64> = Vec::new();
        for j in 0..ids.len()
            invariant
                increasing(ids@),
                placed_set@ == p,
                p == placed(nodes, edges, k),
                forall|x: u64| #[trigger] ids@.contains(x) <==> nodes.contains(x),
                forall|j2: int| 0 <= j2 < ends@.len() ==> is_edge_end(edges, #[trigger] ends@[j2]),
                forall|e: CanvasEdgeId| #[trigger] edges.contains_key(e) ==> ends@.contains((edges[e].from, edges[e].to)),
                forall|a: int| 0 <= a < current@.len() ==> in_prefix(ids@, j as int, #[trigger] current@[a]),
                forall|a: int, b: int| 0 <= a < b < current@.len() ==> current@[a] < current@[b],
                forall|a: int| 0 <= a < current@.len() ==> ready(nodes, edges, p, #[trigger] current@[a]),
                forall|b: int| 0 <= b < j && ready(nodes, edges, p, #[trigger] ids@[b]) ==> current@.contains(ids@[b]),
        {
            let v = ids[j];
            if !placed_set.contains(&v) && preds_placed(&ends, v, &placed_set) {
                proof {
                    assert(ids@.contains(v));
                    assert forall|e: CanvasEdgeId| #[trigger] edges.contains_key(e) && edges[e].to == v implies p.contains(
                        edges[e].from,
                    ) by {
                        let w = choose|w: int| 0 <= w < ends@.len() && ends@[w] == (edges[e].from, edges[e].to);
                        assert(ends@[w].1 == v);
                    }
                    assert(ready(nodes, edges, p, v));
                    assert forall|a: int| 0 <= a < current@.len() implies current@[a] < v by {
                        assert(in_prefix(ids@, j as int, current@[a]));
                        let b = choose|b: int| 0 <= b < j && #[trigger] ids@[b] == current@[a];
                    }
                }
                let ghost before = current@;
                current.push(v);
                proof {
                    assert forall|b: int| 0 <= b < j + 1 && ready(nodes, edges, p, #[trigger] ids@[b]) implies current@.contains(
                        ids@[b],
                    ) by {
                        if b < j {
                            let w = choose|w: int| 0 <= w < before.len() && before[w] == ids@[b];
                            assert(current@[w] == ids@[b]);
                        } else {
                            assert(current@[current@.len() - 1] == v);
                        }
                    }
                    assert forall|a: int| 0 <= a < current@.len() implies in_prefix(ids@, j + 1, #[trigger] current@[a]) by {
                        if a < before.len() {
                            assert(in_prefix(ids@, j as int, before[a]));
                            let b = choose|b: int| 0 <= b < j && #[trigger] ids@[b] == before[a];
                            assert(ids@[b] == current@[a]);
                        } else {
                            assert(ids@[j as int] == current@[a]);
                        }
                    }
                }
            } else {
                proof {
                    if ready(nodes, edges, p, v) {
                        assert(!p.contains(v));
                        assert forall|w: int| 0 <= w < ends@.len() && (#[trigger] ends@[w]).1 == v implies p.contains(
                            ends@[w].0,
                        ) by {
                            assert(is_edge_end(edges, ends@[w]));
                            let e = choose|e: CanvasEdgeId|
                                #![trigger edges[e]]
                                edges.contains_key(e) && ends@[w] == (edges[e].from, edges[e].to);
                        }
                        assert(false);
                    }
                }
            }
        }
        proof {
            assert forall|x: u64| #[trigger] current@.to_set().contains(x) == layer_set(nodes, edges, k).contains(x) by {
                if current@.to_set().contains(x) {
                    assert(current@.contains(x));
                    let a = choose|a: int| 0 <= a < current@.len() && current@[a] == x;
                    assert(ready(nodes, edges, p, current@[a]));
                }
                if layer_set(nodes, edges, k).contains(x) {
                    assert(ready(nodes, edges, p, x));
                    assert(ids@.contains(x));
                    let b = choose|b: int| 0 <= b < ids@.len() && ids@[b] == x;
                    assert(ready(nodes, edges, p, ids@[b]));
                    assert(current@.contains(x));
                }
            }
            assert(current@.to_set() =~= layer_set(nodes, edges, k));
        }
        if current.len() == 0 {
            proof {
                assert(layer_set(nodes, edges, k) =~= Set::<CanvasNodeId>::empty()) by {
                    assert forall|x: u64| !layer_set(nodes, edges, k).contains(x) by {
                        if layer_set(nodes, edges, k).contains(x) {
                            assert(current@.to_set().contains(x));
                        }
                    }
                }
            }
            break;
        }
        let ghost first = current@[0];
        for j in 0..current.len()
            invariant
                placed_set@ == p.union(current@.take(j as int).to_set()),
        {
            placed_set.insert(current[j]);
            proof {
                let t0 = current@.take(j as int);
                let t1 = current@.take(j + 1);
                assert(t1 == t0.push(current@[j as int]));
                assert forall|x: u64| t1.to_set().contains(x) == t0.to_set().insert(current@[j as int]).contains(x) by {
                    vstd::seq_lib::lemma_seq_contains_after_push(t0, current@[j as int], x);
                }
                assert(t1.to_set() =~= t0.to_set().insert(current@[j as int]));
                assert(placed_set@ =~= p.union(current@.take(j + 1).to_set()));
            }
        }
        proof {
            assert(current@.take(current@.len() as int) == current@);
            assert(placed(nodes, edges, k + 1) =~= p.union(current@.to_set()));
            assert(placed_set@ =~= placed(nodes, edges, k + 1));
            assert(current@.to_set().contains(first));
            assert(ready(nodes, edges, p, first));
            assert(ids@.contains(first));
            lemma_unplaced_shrinks(ids@, p, placed(nodes, edges, k + 1), first);
            assert(placed(nodes, edges, k + 1).subset_of(nodes));
        }
        layers.push(current);
        proof {
            k = k + 1;
        }
    }
    let mut leftover: Vec<u64> = Vec::new();
    for j in 0..keys.len()
        invariant
            enumerates(c.nodes@, keys@),
            nodes == c.nodes@.dom(),
            placed_set@ == placed(nodes, edges, k),
            leftover@.no_duplicates(),
            forall|a: int| 0 <= a < leftover@.len() ==> in_prefix(keys@, j as int, #[trigger] leftover@[a]),
            forall|x: u64| #[trigger] leftover@.contains(x) <==> (keys@.take(j as int).contains(x) && !placed_set@.contains(x)),
    {
        let v = keys[j];
        let ghost before = leftover@;
        if !placed_set.contains(&v) {
            proof {
                assert(!leftover@.contains(v)) by {
                    if leftover@.contains(v) {
                        assert(keys@.take(j as int).contains(v));
                        let b = choose|b: int| 0 <= b < j && keys@.take(j as int)[b] == v;
                        assert(keys@[b] == keys@[j as int]);
                    }
                }
            }
            leftover.push(v);
        }
        proof {
            assert(keys@.take(j + 1) == keys@.take(j as int).push(v));
            assert forall|x: u64| #[trigger] leftover@.contains(x) <==> (keys@.take(j + 1).contains(x) && !placed_set@.contains(x)) by {
                vstd::seq_lib::lemma_seq_contains_after_push(keys@.take(j as int), v, x);
                if !placed_set@.contains(v) {
                    vstd::seq_lib::lemma_seq_contains_after_push(before, v, x);
                    assert(leftover@ == before.push(v));
                } else {
                    assert(leftover@ == before);
                }
            }
            assert forall|a: int| 0 <= a < leftover@.len() implies in_prefix(keys@, j + 1, #[trigger] leftover@[a]) by {
                if a == leftover@.len() - 1 && !placed_set@.contains(v) {
                    assert(keys@[j as int] == leftover@[a]);
                } else {
                    assert(in_prefix(keys@, j as int, leftover@[a]));
                    let b = choose|b: int| 0 <= b < j && #[trigger] keys@[b] == leftover@[a];
                }
            }
        }
    }
    proof {
        assert(keys@.take(keys@.len() as int) == keys@);
        assert(leftover@.to_set() =~= nodes.difference(placed(nodes, edges, k)));
    }
    proof {
        let out = layers@.map_values(|l: Vec<u64>| l@);
        assert forall|i: int| 0 <= i < k implies increasing(#[trigger] out[i]) && out[i].len() > 0 && out[i].to_set()
            == layer_set(nodes, edges, i as nat) by {
            assert(out[i] == layers@[i]@);
        }
    }
    (layers, leftover)
}

/// The layers of the layered layout of `c`, as `layered` describes.
pub fn layered_layers(c: &Canvas) -> (layers: Vec<Vec<u64>>)
    ensures
        layered(*c, layers@.map_values(|l: Vec<u64>| l@)),
{
    let ghost nodes = c.nodes@.dom();
    let ghost edges = c.edges@;
    let (mut layers, rest) = kahn(c);
    let ghost k = layers@.len() as nat;
    let ghost before = layers@.map_values(|l: Vec<u64>| l@);
    if rest.len() > 0 {
        layers.push(rest);
        proof {
            let out = layers@.map_values(|l: Vec<u64>| l@);
            assert(out[k as int] == rest@);
            assert forall|i: int| 0 <= i < k implies out[i] == before[i] by {}
            assert(nodes.difference(placed(nodes, edges, k)) != Set::<CanvasNodeId>::empty()) by {
                assert(rest@.to_set().contains(rest@[0]));
            }
            assert(layered(*c, out));
        }
    } else {
        proof {
            assert(rest@.to_set() =~= Set::<u64>::empty());
            assert(layered(*c, before));
        }
    }
    layers
}

/// Kahn's sort of `c` places every node: the layered layout meets no
/// cycle.
pub open spec fn places_every_node(c: Canvas) -> bool {
    let nodes = c.nodes@.dom();
    let edges = c.edges@;
    exists|k: nat|
        #![trigger placed(nodes, edges, k)]
        layer_set(nodes, edges, k) == Set::<CanvasNodeId>::empty() && nodes.difference(placed(nodes, edges, k))
            == Set::<CanvasNodeId>::empty()
}

/// After an empty layer nothing more is placed.
proof fn lemma_placed_stays(nodes: Set<CanvasNodeId>, edges: Map<CanvasEdgeId, CanvasEdge>, k: nat, m: nat)
    requires
        layer_set(nodes, edges, k) == Set::<CanvasNodeId>::empty(),
        k <= m,
    ensures
        placed(nodes, edges, m) == placed(nodes, edges, k),
        layer_set(nodes, edges, m) == Set::<CanvasNodeId>::empty(),
    decreases m - k,
{
    if k < m {
        lemma_placed_stays(nodes, edges, k, (m - 1) as nat);
        let p = placed(nodes, edges, (m - 1) as nat);
        assert(Set::new(|v: CanvasNodeId| ready(nodes, edges, p, v)) == layer_set(nodes, edges, (m - 1) as nat));
        assert(placed(nodes, edges, m) =~= p);
    }
}

/// How the layered layout places the nodes of a canvas.
pub enum LayeredPlan {
    /// Layers top to bottom.
    Layers(Vec<Vec<u64>>),
    /// A grid in this node order: the fallback when a cycle leaves
    /// nodes out of every layer.
    Grid(Vec<u64>),
}

/// The layered layout's plan for `c`: its layers when they place every
/// node, else the grid in increasing id order.
pub fn layered_plan(c: &Canvas) -> (r: LayeredPlan)
    ensures
        places_every_node(*c) ==> (r matches LayeredPlan::Layers(ls) && layered(
            *c,
            ls@.map_values(|l: Vec<u64>| l@),
        )),
        !places_every_node(*c) ==> (r matches LayeredPlan::Grid(ids) && increasing(ids@) && enumerates(
            c.nodes@,
            ids@,
        )),
{
    let ghost nodes = c.nodes@.dom();
    let ghost edges = c.edges@;
    let (layers, rest) = kahn(c);
    let ghost k = layers@.len() as nat;
    if rest.len() == 0 {
        proof {
            assert(rest@.to_set() =~= Set::<u64>::empty());
            assert(placed(nodes, edges, k) == placed(nodes, edges, k));
            assert(places_every_node(*c));
            assert(layered(*c, layers@.map_values(|l: Vec<u64>| l@)));
        }
        LayeredPlan::Layers(layers)
    } else {
        proof {
            assert(rest@.to_set().contains(rest@[0]));
            assert(!places_every_node(*c)) by {
                if places_every_node(*c) {
                    let k2 = choose|k2: nat|
                        #![trigger placed(nodes, edges, k2)]
                        layer_set(nodes, edges, k2) == Set::<CanvasNodeId>::empty() && nodes.difference(
                            placed(nodes, edges, k2),
                        ) == Set::<CanvasNodeId>::empty();
                    if k <= k2 {
                        lemma_placed_stays(nodes, edges, k, k2);
                    } else {
                        lemma_placed_stays(nodes, edges, k2, k);
                    }
                    assert(nodes.difference(placed(nodes, edges, k)).contains(rest@[0]));
                }
            }
        }
        LayeredPlan::Grid(sorted_node_ids(c))
    }
}


/// The node ids of `c` in increasing order (the order of the grid
/// layout).
pub fn sorted_node_ids(c: &Canvas) -> (r: Vec<u64>)
    ensures
        increasing(r@),
        enumerates(c.nodes@, r@),
{
    let keys = map_keys(&c.nodes);
    let r = sort_ids(&keys);
    proof {
        assert forall|i: int, j: int| 0 <= i < r@.len() && 0 <= j < r@.len() && i != j implies r@[i] != r@[j] by {
            if i < j {
                assert(r@[i] < r@[j]);
            } else {
                assert(r@[j] < r@[i]);
            }
        }
    }
    r
}

/// A node is placed by the first `k` layers exactly when it is in one
/// of them.
pub proof fn lemma_placed_is_union_of_layers(nodes: Set<CanvasNodeId>, edges: Map<CanvasEdgeId, CanvasEdge>, k: nat)
    ensures
        forall|v: CanvasNodeId| #[trigger]
            placed(nodes, edges, k).contains(v) <==> exists|i: nat| i < k && #[trigger] layer_set(nodes, edges, i).contains(v),
        placed(nodes, edges, k).subset_of(nodes),
    decreases k,
{
    if k > 0 {
        lemma_placed_is_union_of_layers(nodes, edges, (k - 1) as nat);
        assert forall|v: CanvasNodeId| #[trigger]
            placed(nodes, edges, k).contains(v) implies exists|i: nat| i < k && #[trigger] layer_set(nodes, edges, i).contains(v) by {
            if !placed(nodes, edges, (k - 1) as nat).contains(v) {
                assert(layer_set(nodes, edges, (k - 1) as nat).contains(v));
            }
        }
        assert forall|v: CanvasNodeId| (exists|i: nat| i < k && #[trigger] layer_set(nodes, edges, i).contains(v)) implies #[trigger]
            placed(nodes, edges, k).contains(v) by {
            let i = choose|i: nat| i < k && #[trigger] layer_set(nodes, edges, i).contains(v);
            if i < k - 1 {
                assert(placed(nodes, edges, (k - 1) as nat).contains(v));
            }
        }
    }
}

/// Placed nodes stay placed.
proof fn lemma_placed_grows(nodes: Set<CanvasNodeId>, edges: Map<CanvasEdgeId, CanvasEdge>, i: nat, j: nat)
    requires
        i <= j,
    ensures
        placed(nodes, edges, i).subset_of(placed(nodes, edges, j)),
    decreases j - i,
{
    if i < j {
        lemma_placed_grows(nodes, edges, i, (j - 1) as nat);
    }
}

/// Layers do not overlap: a node is in at most one layer.
pub proof fn lemma_layers_disjoint(nodes: Set<CanvasNodeId>, edges: Map<CanvasEdgeId, CanvasEdge>, i: nat, j: nat, v: CanvasNodeId)
    requires
        i < j,
        layer_set(nodes, edges, i).contains(v),
    ensures
        !layer_set(nodes, edges, j).contains(v),
{
    lemma_placed_grows(nodes, edges, i + 1, j);
    assert(placed(nodes, edges, i + 1).contains(v));
}

/// Every edge into a node of layer `j` comes from a node of an earlier
/// layer: edges point down the layering.
pub proof fn lemma_edges_point_down(nodes: Set<CanvasNodeId>, edges: Map<CanvasEdgeId, CanvasEdge>, j: nat, e: CanvasEdgeId)
    requires
        edges.contains_key(e),
        layer_set(nodes, edges, j).contains(edges[e].to),
    ensures
        exists|i: nat| i < j && #[trigger] layer_set(nodes, edges, i).contains(edges[e].from),
{
    lemma_placed_is_union_of_layers(nodes, edges, j);
    assert(placed(nodes, edges, j).contains(edges[e].from));
}

} // verus!
