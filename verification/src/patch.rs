//! Canvas patches: the one way a canvas is changed.
//!
//! A patch is a list of operations applied in order. Removing a node
//! also removes every edge that touches it; removing or updating a
//! node or edge that is not there stops the patch with an error,
//! leaving the operations before it applied.
use vstd::prelude::*;
use std::collections::HashMap;
use vstd::std_specs::iter::IteratorSpec;
use crate::canvas::{
    same_but_nodes, Canvas, CanvasEdge, CanvasEdgeId, CanvasNode, CanvasNodeId, CanvasPatchError, LayoutMode, NodeStatus, NodeStyle,
    Rect, Selection,
};
use crate::text::{append_decimal, append_signed, chars_of, decimal, signed_decimal, string_of};

verus! {

/// Changes to some of a node's fields; `None` leaves a field as it is.
#[derive(Debug, Clone)]
pub struct NodeDelta {
    pub label: Option<String>,
    pub bounds: Option<Rect>,
    pub style: Option<NodeStyle>,
    pub status: Option<NodeStatus>,
}

impl Default for NodeDelta {
    fn default() -> (r: Self)
        ensures
            r.label is None && r.bounds is None && r.style is None && r.status is None,
    {
        NodeDelta { label: None, bounds: None, style: None, status: None }
    }
}

/// One operation of a patch.
#[derive(Debug, Clone)]
pub enum CanvasPatchOp {
    AddNode(CanvasNode),
    RemoveNode { id: CanvasNodeId },
    UpdateNode { id: CanvasNodeId, delta: NodeDelta },
    AddEdge(CanvasEdge),
    RemoveEdge { id: CanvasEdgeId },
    SetLayout(LayoutMode),
    SetSelection(Selection),
}

/// An identified list of operations.
#[derive(Debug, Clone)]
pub struct CanvasPatch {
    pub id: String,
    pub ops: Vec<CanvasPatchOp>,
}

/// The id of a patch made at `nanos`: `cpatch_<nanos>`.
pub open spec fn patch_id(nanos: int) -> Seq<char> {
    "cpatch_"@ + signed_decimal(nanos)
}

/// Nanoseconds since the Unix epoch, now, when an `i64` holds them.
#[verifier::external_body]
fn now_nanos() -> Option<i64> {
    chrono::Utc::now().timestamp_nanos_opt()
}

impl CanvasPatch {
    /// A patch of `ops` stamped with `nanos`.
    pub fn new_at(nanos: i64, ops: Vec<CanvasPatchOp>) -> (r: Self)
        ensures
            r.id@ == patch_id(nanos as int),
            r.ops@ == ops@,
    {
        let mut v = chars_of("cpatch_");
        append_signed(&mut v, nanos);
        CanvasPatch { id: string_of(&v), ops }
    }

    /// A patch of `ops` stamped with the current time (0 when the
    /// time does not fit in nanoseconds).
    pub fn new(ops: Vec<CanvasPatchOp>) -> (r: Self)
        ensures
            exists|t: i64| r.id@ == patch_id(t as int),
            r.ops@ == ops@,
    {
        let t = match now_nanos() {
            Some(n) => n,
            None => 0,
        };
        CanvasPatch::new_at(t, ops)
    }
}

impl CanvasPatchError {
    /// The error's message: `node not found: <id>` or
    /// `edge not found: <id>`.
    pub fn to_string(&self) -> (r: String)
        ensures
            r@ == patch_error_text(*self),
    {
        let mut v: Vec<char>;
        match self {
            CanvasPatchError::NodeNotFound(id) => {
                v = chars_of("node not found: ");
                append_decimal(&mut v, *id);
            },
            CanvasPatchError::EdgeNotFound(id) => {
                v = chars_of("edge not found: ");
                append_decimal(&mut v, *id);
            },
        }
        string_of(&v)
    }
}

pub open spec fn patch_error_text(e: CanvasPatchError) -> Seq<char> {
    match e {
        CanvasPatchError::NodeNotFound(id) => "node not found: "@ + decimal(id as nat),
        CanvasPatchError::EdgeNotFound(id) => "edge not found: "@ + decimal(id as nat),
    }
}

/// What a patch can change: nodes, edges, layout and selection.
pub struct CanvasState {
    pub nodes: Map<CanvasNodeId, CanvasNode>,
    pub edges: Map<CanvasEdgeId, CanvasEdge>,
    pub layout: LayoutMode,
    pub selection: Selection,
}

pub open spec fn state_of(c: Canvas) -> CanvasState {
    CanvasState { nodes: c.nodes@, edges: c.edges@, layout: c.layout, selection: c.selection }
}

/// Whether `e` starts or ends at node `id`.
pub open spec fn touches(e: CanvasEdge, id: CanvasNodeId) -> bool {
    e.from == id || e.to == id
}

/// The edges of `m` that do not touch node `id`.
pub open spec fn edges_without(m: Map<CanvasEdgeId, CanvasEdge>, id: CanvasNodeId) -> Map<CanvasEdgeId, CanvasEdge> {
    Map::new(|k: CanvasEdgeId| m.contains_key(k) && !touches(m[k], id), |k: CanvasEdgeId| m[k])
}

/// `n` with the fields that `d` sets replaced.
pub open spec fn updated(n: CanvasNode, d: NodeDelta) -> CanvasNode {
    CanvasNode {
        label: match d.label {
            Some(l) => l,
            None => n.label,
        },
        bounds: match d.bounds {
            Some(b) => b,
            None => n.bounds,
        },
        style: match d.style {
            Some(s) => s,
            None => n.style,
        },
        status: match d.status {
            Some(s) => s,
            None => n.status,
        },
        ..n
    }
}

/// One operation on a state.
pub open spec fn step(st: CanvasState, op: CanvasPatchOp) -> Result<CanvasState, CanvasPatchError> {
    match op {
        CanvasPatchOp::AddNode(n) => Ok(CanvasState { nodes: st.nodes.insert(n.id, n), ..st }),
        CanvasPatchOp::RemoveNode { id } => {
            if st.nodes.contains_key(id) {
                Ok(CanvasState { nodes: st.nodes.remove(id), edges: edges_without(st.edges, id), ..st })
            } else {
                Err(CanvasPatchError::NodeNotFound(id))
            }
        },
        CanvasPatchOp::UpdateNode { id, delta } => {
            if st.nodes.contains_key(id) {
                Ok(CanvasState { nodes: st.nodes.insert(id, updated(st.nodes[id], delta)), ..st })
            } else {
                Err(CanvasPatchError::NodeNotFound(id))
            }
        },
        CanvasPatchOp::AddEdge(e) => Ok(CanvasState { edges: st.edges.insert(e.id, e), ..st }),
        CanvasPatchOp::RemoveEdge { id } => {
            if st.edges.contains_key(id) {
                Ok(CanvasState { edges: st.edges.remove(id), ..st })
            } else {
                Err(CanvasPatchError::EdgeNotFound(id))
            }
        },
        CanvasPatchOp::SetLayout(m) => Ok(CanvasState { layout: m, ..st }),
        CanvasPatchOp::SetSelection(s) => Ok(CanvasState { selection: s, ..st }),
    }
}

/// The operations applied in order, stopping at the first that fails:
/// the state reached and, on failure, the error.
pub open spec fn run_ops(st: CanvasState, ops: Seq<CanvasPatchOp>) -> (CanvasState, Result<(), CanvasPatchError>)
    decreases ops.len(),
{
    if ops.len() == 0 {
        (st, Ok(()))
    } else {
        let (s1, r1) = run_ops(st, ops.drop_last());
        match r1 {
            Err(e) => (s1, Err(e)),
            Ok(_) => match step(s1, ops.last()) {
                Ok(s2) => (s2, Ok(())),
                Err(e) => (s1, Err(e)),
            },
        }
    }
}

/// Remove from `edges` every edge that touches node `id`.
fn drop_edges_touching(edges: &mut HashMap<CanvasEdgeId, CanvasEdge>, id: CanvasNodeId)
    ensures
        final(edges)@ == edges_without(old(edges)@, id),
{
    broadcast use vstd::std_specs::hash::group_hash_axioms;
    let ghost m0 = edges@;
    let ghost all = vstd::std_specs::hash::spec_hash_map_iter(&*edges).remaining();
    let ghost mut seen: int = 0;
    let mut doomed: Vec<CanvasEdgeId> = Vec::new();
    for (k, e) in it: edges.iter()
        invariant
            it.seq() == all,
            seen == it.index(),
            m0 == edges@,
            forall|j: int| 0 <= j < doomed@.len() ==> m0.contains_key(#[trigger] doomed@[j]) && touches(m0[doomed@[j]], id),
            forall|j: int| 0 <= j < seen && touches(*(#[trigger] all[j]).1, id) ==> doomed@.contains(*all[j].0),
    {
        assert((k, e) == all[seen]);
        let ghost before = doomed@;
        if e.from == id || e.to == id {
            doomed.push(*k);
        }
        proof {
            assert forall|j: int| 0 <= j < seen + 1 && touches(*(#[trigger] all[j]).1, id) implies doomed@.contains(
                *all[j].0,
            ) by {
                if j < seen {
                    let w = choose|w: int| 0 <= w < before.len() && before[w] == *all[j].0;
                    assert(doomed@[w] == before[w]);
                } else {
                    assert(doomed@[doomed@.len() - 1] == *k);
                }
            }
            seen = seen + 1;
        }
    }
    assert forall|k: CanvasEdgeId| m0.contains_key(k) && touches(#[trigger] m0[k], id) implies doomed@.contains(k) by {
        assert(all.contains((&k, &m0[k])));
        let j = choose|j: int| 0 <= j < all.len() && all[j] == (&k, &m0[k]);
        assert(touches(*all[j].1, id));
    }
    let mut i: usize = 0;
    while i < doomed.len()
        invariant
            0 <= i <= doomed@.len(),
            forall|x: CanvasEdgeId| #[trigger] edges@.contains_key(x) <==> (m0.contains_key(x) && !doomed@.take(i as int).contains(x)),
            forall|x: CanvasEdgeId| #[trigger] edges@.contains_key(x) ==> edges@[x] == m0[x],
        decreases doomed@.len() - i,
    {
        let k = doomed[i];
        edges.remove(&k);
        proof {
            let t0 = doomed@.take(i as int);
            let t1 = doomed@.take(i + 1);
            assert(t1 == t0.push(k));
            assert forall|x: CanvasEdgeId| t1.contains(x) <==> (t0.contains(x) || x == k) by {
                if t1.contains(x) {
                    let w = choose|w: int| 0 <= w < t1.len() && t1[w] == x;
                    if w < t0.len() {
                        assert(t0[w] == x);
                    }
                }
                if t0.contains(x) {
                    let w = choose|w: int| 0 <= w < t0.len() && t0[w] == x;
                    assert(t1[w] == x);
                }
                if x == k {
                    assert(t1[i as int] == x);
                }
            }
        }
        i = i + 1;
    }
    assert(doomed@.take(i as int) == doomed@);
    assert forall|k: CanvasEdgeId| m0.contains_key(k) implies (doomed@.contains(k) <==> touches(m0[k], id)) by {
        if doomed@.contains(k) {
            let j = choose|j: int| 0 <= j < doomed@.len() && doomed@[j] == k;
            assert(touches(m0[doomed@[j]], id));
        }
    }
    assert(edges@ =~= edges_without(m0, id));
}

/// Apply `delta` to node `id` of `nodes`, if it is there.
fn update_node(nodes: &mut HashMap<CanvasNodeId, CanvasNode>, id: CanvasNodeId, delta: NodeDelta) -> (found: bool)
    ensures
        found == old(nodes)@.contains_key(id),
        found ==> final(nodes)@ == old(nodes)@.insert(id, updated(old(nodes)@[id], delta)),
        !found ==> final(nodes)@ == old(nodes)@,
{
    broadcast use vstd::std_specs::hash::group_hash_axioms;
    let ghost m0 = nodes@;
    match nodes.remove(&id) {
        None => {
            assert(nodes@ =~= m0);
            false
        },
        Some(mut node) => {
            let ghost n0 = node;
            let NodeDelta { label, bounds, style, status } = delta;
            match label {
                Some(l) => {
                    node.label = l;
                },
                None => {},
            }
            match bounds {
                Some(b) => {
                    node.bounds = b;
                },
                None => {},
            }
            match style {
                Some(s) => {
                    node.style = s;
                },
                None => {},
            }
            match status {
                Some(s) => {
                    node.status = s;
                },
                None => {},
            }
            assert(node == updated(n0, delta));
            nodes.insert(id, node);
            assert(nodes@ =~= m0.insert(id, node));
            true
        },
    }
}

/// Every edge of `st` joins two nodes of `st`.
pub open spec fn edges_attached(st: CanvasState) -> bool {
    forall|k: CanvasEdgeId|
        #![trigger st.edges[k]]
        st.edges.contains_key(k) ==> st.nodes.contains_key(st.edges[k].from) && st.nodes.contains_key(
            st.edges[k].to,
        )
}

/// Removing a node leaves no edge that touches it, and no node under
/// its id.
pub proof fn lemma_removed_node_leaves_no_edges(st: CanvasState, id: CanvasNodeId)
    requires
        st.nodes.contains_key(id),
    ensures
        step(st, CanvasPatchOp::RemoveNode { id }) matches Ok(s2) && !s2.nodes.contains_key(id) && forall|
            k: CanvasEdgeId,
        |
            #![trigger s2.edges[k]]
            s2.edges.contains_key(k) ==> !touches(s2.edges[k], id),
{
}

/// An operation that succeeds keeps every edge joined to existing
/// nodes, unless it adds an edge with a missing end.
pub proof fn lemma_ops_keep_edges_attached(st: CanvasState, op: CanvasPatchOp)
    requires
        edges_attached(st),
        step(st, op) is Ok,
        op matches CanvasPatchOp::AddEdge(e) ==> st.nodes.contains_key(e.from) && st.nodes.contains_key(e.to),
    ensures
        edges_attached(step(st, op)->Ok_0),
{
    let s2 = step(st, op)->Ok_0;
    match op {
        CanvasPatchOp::RemoveNode { id } => {
            assert forall|k: CanvasEdgeId| #[trigger] s2.edges.contains_key(k) implies s2.nodes.contains_key(
                s2.edges[k].from,
            ) && s2.nodes.contains_key(s2.edges[k].to) by {
                assert(st.edges.contains_key(k));
                assert(s2.edges[k] == st.edges[k]);
            }
        },
        CanvasPatchOp::AddEdge(e) => {
            assert forall|k: CanvasEdgeId| #[trigger] s2.edges.contains_key(k) implies s2.nodes.contains_key(
                s2.edges[k].from,
            ) && s2.nodes.contains_key(s2.edges[k].to) by {
                if k != e.id {
                    assert(st.edges.contains_key(k));
                }
            }
        },
        CanvasPatchOp::RemoveEdge { id } => {
            assert forall|k: CanvasEdgeId| #[trigger] s2.edges.contains_key(k) implies s2.nodes.contains_key(
                s2.edges[k].from,
            ) && s2.nodes.contains_key(s2.edges[k].to) by {
                assert(st.edges.contains_key(k));
            }
        },
        CanvasPatchOp::AddNode(n) => {
            assert forall|k: CanvasEdgeId| #[trigger] s2.edges.contains_key(k) implies s2.nodes.contains_key(
                s2.edges[k].from,
            ) && s2.nodes.contains_key(s2.edges[k].to) by {
                assert(st.edges.contains_key(k));
            }
        },
        CanvasPatchOp::UpdateNode { id, delta } => {
            assert forall|k: CanvasEdgeId| #[trigger] s2.edges.contains_key(k) implies s2.nodes.contains_key(
                s2.edges[k].from,
            ) && s2.nodes.contains_key(s2.edges[k].to) by {
                assert(st.edges.contains_key(k));
            }
        },
        _ => {},
    }
}

/// A patch stopped by an error keeps the effect of the operations
/// before the failing one: running the failing prefix gives the same
/// state and error.
pub proof fn lemma_failed_patch_keeps_prefix(st: CanvasState, ops: Seq<CanvasPatchOp>, extra: Seq<CanvasPatchOp>)
    requires
        run_ops(st, ops).1 is Err,
    ensures
        run_ops(st, ops + extra) == run_ops(st, ops),
    decreases extra.len(),
{
    if extra.len() > 0 {
        lemma_failed_patch_keeps_prefix(st, ops, extra.drop_last());
        assert((ops + extra).drop_last() == ops + extra.drop_last());
    } else {
        assert(ops + extra == ops);
    }
}

/// Patches compose: applying `a` then `b` is applying `a + b`.
pub proof fn lemma_patches_compose(st: CanvasState, a: Seq<CanvasPatchOp>, b: Seq<CanvasPatchOp>)
    requires
        run_ops(st, a).1 is Ok,
    ensures
        run_ops(st, a + b) == run_ops(run_ops(st, a).0, b),
    decreases b.len(),
{
    if b.len() > 0 {
        lemma_patches_compose(st, a, b.drop_last());
        assert((a + b).drop_last() == a + b.drop_last());
    } else {
        assert(a + b == a);
    }
}

impl Canvas {
    /// Apply `delta` to node `id`, if it is there.
    fn update_node(&mut self, id: CanvasNodeId, delta: NodeDelta) -> (found: bool)
        ensures
            found == old(self).nodes@.contains_key(id),
            found ==> final(self).nodes@ == old(self).nodes@.insert(id, updated(old(self).nodes@[id], delta)),
            !found ==> final(self).nodes@ == old(self).nodes@,
            same_but_nodes(*old(self), *final(self)),
    {
        update_node(&mut self.nodes, id, delta)
    }

    /// Apply one operation; on failure nothing changes.
    fn apply_op(&mut self, op: CanvasPatchOp) -> (r: Result<(), CanvasPatchError>)
        ensures
            match step(state_of(*old(self)), op) {
                Ok(st) => r is Ok && state_of(*final(self)) == st,
                Err(e) => r == Err::<(), CanvasPatchError>(e) && state_of(*final(self)) == state_of(*old(self)),
            },
            final(self).id == old(self).id,
            final(self).world_ref == old(self).world_ref,
            final(self).viewport == old(self).viewport,
    {
        broadcast use vstd::std_specs::hash::group_hash_axioms;
        match op {
            CanvasPatchOp::AddNode(n) => {
                self.nodes.insert(n.id, n);
                Ok(())
            },
            CanvasPatchOp::RemoveNode { id } => {
                if !self.nodes.contains_key(&id) {
                    return Err(CanvasPatchError::NodeNotFound(id));
                }
                self.nodes.remove(&id);
                drop_edges_touching(&mut self.edges, id);
                Ok(())
            },
            CanvasPatchOp::UpdateNode { id, delta } => {
                if self.update_node(id, delta) {
                    Ok(())
                } else {
                    Err(CanvasPatchError::NodeNotFound(id))
                }
            },
            CanvasPatchOp::AddEdge(e) => {
                self.edges.insert(e.id, e);
                Ok(())
            },
            CanvasPatchOp::RemoveEdge { id } => {
                if !self.edges.contains_key(&id) {
                    return Err(CanvasPatchError::EdgeNotFound(id));
                }
                self.edges.remove(&id);
                Ok(())
            },
            CanvasPatchOp::SetLayout(m) => {
                self.layout = m;
                Ok(())
            },
            CanvasPatchOp::SetSelection(s) => {
                self.selection = s;
                Ok(())
            },
        }
    }

    /// Apply the operations of `patch` in order. At the first operation
    /// that names a missing node or edge, stop with its error; the
    /// operations before it stay applied.
    pub fn apply_patch(&mut self, patch: CanvasPatch) -> (r: Result<(), CanvasPatchError>)
        ensures
            run_ops(state_of(*old(self)), patch.ops@) == (state_of(*final(self)), r),
            final(self).id == old(self).id,
            final(self).world_ref == old(self).world_ref,
            final(self).viewport == old(self).viewport,
    {
        let ghost st0 = state_of(*self);
        let ghost all = patch.ops@;
        let ghost id0 = self.id;
        let ghost world0 = self.world_ref;
        let ghost view0 = self.viewport;
        let ghost mut done: int = 0;
        let mut failed: Option<CanvasPatchError> = None;
        for op in it: patch.ops
            invariant
                it.seq() == all,
                done == it.index(),
                run_ops(st0, all.take(done)) == (state_of(*self), match failed {
                    None => Ok::<(), CanvasPatchError>(()),
                    Some(e) => Err(e),
                }),
                self.id == id0,
                self.world_ref == world0,
                self.viewport == view0,
        {
            assert(op == all[done]);
            assert(all.take(done + 1).drop_last() == all.take(done));
            if failed.is_none() {
                match self.apply_op(op) {
                    Err(e) => {
                        failed = Some(e);
                    },
                    Ok(()) => {},
                }
            }
            proof {
                done = done + 1;
            }
        }
        assert(all.take(done) == all);
        match failed {
            None => Ok(()),
            Some(e) => Err(e),
        }
    }
}

} // verus!
