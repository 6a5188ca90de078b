//! Agent runs projected as plan DAGs on the canvas.
//!
//! The run is a root node; every step is a node hung from its parent
//! step by a `Spawned` edge, or from the root when it has no parent or
//! its parent is not (yet) on the canvas. Semantic ids are
//! `agent:run:<session>` and `agent:<kind>:<step id>`.
use vstd::prelude::*;
use std::collections::HashMap;
use vstd::std_specs::iter::IteratorSpec;
use crate::canvas::{
    canvas_id, edges_are, new_edge, new_node, nodes_are, str_hash, upsert_edges, upsert_nodes, Canvas, CanvasEdge,
    CanvasEdgeId, CanvasNode, CanvasNodeId, CanvasNodeKind, EdgeKind, EdgeView, LayoutMode, NodeView, Rect,
};
use crate::patch::{run_ops, CanvasPatch, CanvasPatchOp, CanvasState};
use crate::repo_canvas::{projected, sized};
use crate::text::{append_chars, append_str, chars_eq, chars_of, string_of};

verus! {

/// A recorded agent run.
#[derive(Debug, Clone)]
pub struct AgentRun {
    pub session_id: String,
    pub root_intent: String,
    pub steps: Vec<AgentStep>,
}

/// One step of a run.
#[derive(Debug, Clone)]
pub struct AgentStep {
    pub id: String,
    pub parent_id: Option<String>,
    pub kind: AgentStepKind,
    pub label: String,
    pub status: AgentStepStatus,
}

#[derive(Debug, Clone, Copy, PartialEq, Eq, Structural)]
pub enum AgentStepKind {
    Plan,
    ToolCall,
    ModelCall,
    SubAgentSpawn,
    Decision,
    Wait,
    HumanGate,
    FileEdit,
    TestRun,
    Deploy,
    Approval,
    Error,
}

#[derive(Debug, Clone, Copy, PartialEq, Eq, Structural)]
pub enum AgentStepStatus {
    Pending,
    Running,
    Okay,
    Warning,
    Error,
}

/// What the visualizer emits: a canvas patch, or a step's new status.
#[derive(Debug, Clone)]
pub enum VisualizerEvent {
    Canvas(CanvasPatch),
    Status { step_id: String, status: AgentStepStatus },
}

pub open spec fn kind_text(k: AgentStepKind) -> Seq<char> {
    match k {
        AgentStepKind::Plan => "plan"@,
        AgentStepKind::ToolCall => "tool_call"@,
        AgentStepKind::ModelCall => "model_call"@,
        AgentStepKind::SubAgentSpawn => "sub_agent"@,
        AgentStepKind::Decision => "decision"@,
        AgentStepKind::Wait => "wait"@,
        AgentStepKind::HumanGate => "human_gate"@,
        AgentStepKind::FileEdit => "file_edit"@,
        AgentStepKind::TestRun => "test_run"@,
        AgentStepKind::Deploy => "deploy"@,
        AgentStepKind::Approval => "approval"@,
        AgentStepKind::Error => "error"@,
    }
}

/// The key word of a step kind in semantic ids.
pub fn kind_str(k: &AgentStepKind) -> (r: &'static str)
    ensures
        r@ == kind_text(*k),
{
    match k {
        AgentStepKind::Plan => "plan",
        AgentStepKind::ToolCall => "tool_call",
        AgentStepKind::ModelCall => "model_call",
        AgentStepKind::SubAgentSpawn => "sub_agent",
        AgentStepKind::Decision => "decision",
        AgentStepKind::Wait => "wait",
        AgentStepKind::HumanGate => "human_gate",
        AgentStepKind::FileEdit => "file_edit",
        AgentStepKind::TestRun => "test_run",
        AgentStepKind::Deploy => "deploy",
        AgentStepKind::Approval => "approval",
        AgentStepKind::Error => "error",
    }
}

/// How a step kind is drawn.
pub open spec fn step_node_kind(k: AgentStepKind) -> CanvasNodeKind {
    match k {
        AgentStepKind::ToolCall => CanvasNodeKind::ToolCall,
        AgentStepKind::SubAgentSpawn => CanvasNodeKind::Agent,
        AgentStepKind::FileEdit => CanvasNodeKind::Diff,
        AgentStepKind::TestRun => CanvasNodeKind::Test,
        AgentStepKind::Deploy => CanvasNodeKind::Service,
        _ => CanvasNodeKind::PlanStep,
    }
}

fn step_node_kind_of(k: AgentStepKind) -> (r: CanvasNodeKind)
    ensures
        r == step_node_kind(k),
{
    match k {
        AgentStepKind::ToolCall => CanvasNodeKind::ToolCall,
        AgentStepKind::SubAgentSpawn => CanvasNodeKind::Agent,
        AgentStepKind::FileEdit => CanvasNodeKind::Diff,
        AgentStepKind::TestRun => CanvasNodeKind::Test,
        AgentStepKind::Deploy => CanvasNodeKind::Service,
        _ => CanvasNodeKind::PlanStep,
    }
}

/// `agent:<kind>:<key>`.
pub open spec fn agent_sid(kind: Seq<char>, key: Seq<char>) -> Seq<char> {
    "agent:"@ + kind + ":"@ + key
}

pub open spec fn run_sid(run: AgentRun) -> Seq<char> {
    agent_sid("run"@, run.session_id@)
}

pub open spec fn step_sid(s: AgentStep) -> Seq<char> {
    agent_sid(kind_text(s.kind), s.id@)
}

/// `f32` bits of 200.0 and 40.0: the size of every DAG node.
pub const W200: u32 = 0x4348_0000;

pub const H40: u32 = 0x4220_0000;

/// The root node, then a node per step.
pub open spec fn dag_nodes(run: AgentRun) -> Seq<NodeView> {
    seq![new_node(run_sid(run), run.root_intent@, CanvasNodeKind::Agent, sized(W200, H40))] + run.steps@.map_values(
        |s: AgentStep| new_node(step_sid(s), s.label@, step_node_kind(s.kind), sized(W200, H40)),
    )
}

/// The first step with id `p`.
pub open spec fn first_with_id(steps: Seq<AgentStep>, p: Seq<char>) -> Option<int>
    decreases steps.len(),
{
    if steps.len() == 0 {
        None
    } else {
        match first_with_id(steps.drop_last(), p) {
            Some(j) => Some(j),
            None => if steps.last().id@ == p {
                Some(steps.len() - 1)
            } else {
                None
            },
        }
    }
}

/// Whether some node of `m` is bound to `sid`.
pub open spec fn has_node_with_sid(m: Map<CanvasNodeId, NodeView>, sid: Seq<char>) -> bool {
    exists|k: CanvasNodeId| m.contains_key(k) && #[trigger] m[k].semantic_id == sid
}

/// The node step `i` hangs from: its parent step's node when the
/// parent is on the canvas once step `i` is, else the root.
pub open spec fn parent_node(run: AgentRun, i: int) -> CanvasNodeId {
    let root = str_hash(run_sid(run));
    match run.steps@[i].parent_id {
        None => root,
        Some(p) => {
            let psid = match first_with_id(run.steps@, p@) {
                Some(j) => step_sid(run.steps@[j]),
                None => run_sid(run),
            };
            if has_node_with_sid(upsert_nodes(Map::empty(), dag_nodes(run).take(i + 2)), psid) {
                str_hash(psid)
            } else {
                root
            }
        },
    }
}

/// A `Spawned` edge from each step's parent node to the step.
pub open spec fn dag_edges(run: AgentRun) -> Seq<EdgeView> {
    Seq::new(
        run.steps@.len(),
        |i: int| new_edge(parent_node(run, i), str_hash(step_sid(run.steps@[i])), EdgeKind::Spawned),
    )
}

/// Every node of `ns` carries the hash of its semantic id.
pub open spec fn hashed_ids(ns: Seq<NodeView>) -> bool {
    forall|i: int| 0 <= i < ns.len() ==> #[trigger] ns[i].id == str_hash(ns[i].semantic_id)
}

/// Upserting nodes that carry the hash of their semantic id keeps each
/// under that hash.
pub proof fn lemma_upsert_keys(ns: Seq<NodeView>)
    requires
        hashed_ids(ns),
    ensures
        forall|k: CanvasNodeId| #[trigger]
            upsert_nodes(Map::empty(), ns).contains_key(k) ==> upsert_nodes(Map::empty(), ns)[k].id == k && k
                == str_hash(upsert_nodes(Map::empty(), ns)[k].semantic_id),
    decreases ns.len(),
{
    if ns.len() > 0 {
        assert(hashed_ids(ns.drop_last()));
        lemma_upsert_keys(ns.drop_last());
        assert(ns.last() == ns[ns.len() - 1]);
    }
}

fn agent_sid_of(kind: &str, key: &str) -> (r: String)
    ensures
        r@ == agent_sid(kind@, key@),
{
    let mut v = chars_of("agent:");
    append_str(&mut v, kind);
    append_str(&mut v, ":");
    append_str(&mut v, key);
    string_of(&v)
}

fn first_step_with_id(steps: &Vec<AgentStep>, p: &str) -> (r: Option<usize>)
    ensures
        match r {
            Some(j) => first_with_id(steps@, p@) == Some(j as int) && j < steps@.len(),
            None => first_with_id(steps@, p@) is None,
        },
{
    let pc = chars_of(p);
    for j in 0..steps.len()
        invariant
            pc@ == p@,
            first_with_id(steps@.take(j as int), p@) is None,
    {
        proof {
            assert(steps@.take(j + 1).drop_last() == steps@.take(j as int));
            assert(steps@.take(j + 1).last() == steps@[j as int]);
        }
        if chars_eq(&chars_of(steps[j].id.as_str()), &pc) {
            proof {
                lemma_first_with_id_prefix(steps@, p@, j + 1);
            }
            return Some(j);
        }
    }
    proof {
        assert(steps@.take(steps@.len() as int) == steps@);
    }
    None
}

/// A first match in a prefix is the first match overall.
proof fn lemma_first_with_id_prefix(steps: Seq<AgentStep>, p: Seq<char>, n: int)
    requires
        0 <= n <= steps.len(),
        first_with_id(steps.take(n), p) is Some,
    ensures
        first_with_id(steps, p) == first_with_id(steps.take(n), p),
    decreases steps.len() - n,
{
    if n < steps.len() {
        assert(steps.take(n + 1).drop_last() == steps.take(n));
        lemma_first_with_id_prefix(steps, p, n + 1);
    } else {
        assert(steps.take(n) == steps);
    }
}

/// The canvas of a recorded run: the root, a node per step and a
/// `Spawned` edge per step; layered layout.
pub fn build_dag(run: &AgentRun) -> (c: Canvas)
    ensures
        projected(c, LayoutMode::Layered, dag_nodes(*run), dag_edges(*run)),
{
    let mut c = Canvas::new();
    c.layout = LayoutMode::Layered;
    let b = Rect { x: 0, y: 0, w: W200, h: H40 };
    let ghost ns = dag_nodes(*run);
    let ghost es = dag_edges(*run);
    assert(c.nodes@.dom() =~= upsert_nodes(Map::<CanvasNodeId, NodeView>::empty(), ns.take(0)).dom());
    assert(c.edges@.dom() =~= upsert_edges(Map::<CanvasEdgeId, EdgeView>::empty(), es.take(0)).dom());
    assert(nodes_are(c.nodes@, upsert_nodes(Map::<CanvasNodeId, NodeView>::empty(), ns.take(0))));
    let root_sid = agent_sid_of("run", run.session_id.as_str());
    let root_id = c.put_node(root_sid.as_str(), run.root_intent.as_str(), CanvasNodeKind::Agent, b);
    proof {
        assert(ns.take(1).drop_last() == ns.take(0));
        assert(ns.take(1).last() == ns[0]);
        assert(hashed_ids(ns));
    }
    let steps = &run.steps;
    for i in 0..steps.len()
        invariant
            steps == &run.steps,
            ns == dag_nodes(*run),
            es == dag_edges(*run),
            hashed_ids(ns),
            root_id == str_hash(run_sid(*run)),
            b == sized(W200, H40),
            nodes_are(c.nodes@, upsert_nodes(Map::empty(), ns.take(i + 1))),
            edges_are(c.edges@, upsert_edges(Map::empty(), es.take(i as int))),
            exists|t: i64| c.id@ == canvas_id(t as int),
            c.world_ref is None,
            c.layout == LayoutMode::Layered,
            c.viewport == (crate::canvas::Viewport { pan_x: 0, pan_y: 0, scale: crate::canvas::ONE_BITS }),
            c.selection.nodes@.len() == 0 && c.selection.edges@.len() == 0,
    {
        let step = &steps[i];
        let sid = agent_sid_of(kind_str(&step.kind), step.id.as_str());
        let node_id = c.put_node(sid.as_str(), step.label.as_str(), step_node_kind_of(step.kind), b);
        proof {
            assert(ns.take(i + 2).drop_last() == ns.take(i + 1));
            assert(ns.take(i + 2).last() == ns[i + 1]);
            assert(hashed_ids(ns.take(i + 2)));
            lemma_upsert_keys(ns.take(i + 2));
        }
        let ghost m = upsert_nodes(Map::<CanvasNodeId, NodeView>::empty(), ns.take(i + 2));
        let parent = match &step.parent_id {
            None => root_id,
            Some(p) => {
                let psid = match first_step_with_id(steps, p.as_str()) {
                    Some(j) => agent_sid_of(kind_str(&steps[j].kind), steps[j].id.as_str()),
                    None => agent_sid_of("run", run.session_id.as_str()),
                };
                match c.node_for(psid.as_str()) {
                    Some(id) => {
                        proof {
                            let k = choose|k: CanvasNodeId|
                                #![trigger c.nodes@[k]]
                                c.nodes@.contains_key(k) && c.nodes@[k].semantic_id@ == psid@ && c.nodes@[k].id == id;
                            assert(m.contains_key(k));
                            assert(m[k].semantic_id == psid@);
                            assert(has_node_with_sid(m, psid@));
                        }
                        id
                    },
                    None => {
                        proof {
                            assert forall|k: CanvasNodeId| m.contains_key(k) implies #[trigger] m[k].semantic_id != psid@ by {
                                assert(c.nodes@.contains_key(k));
                                assert(crate::canvas::node_view(c.nodes@[k]) == m[k]);
                            }
                        }
                        root_id
                    },
                }
            },
        };
        assert(parent == parent_node(*run, i as int));
        c.put_edge(parent, node_id, EdgeKind::Spawned);
        proof {
            assert(es.take(i + 1).drop_last() == es.take(i as int));
            assert(es.take(i + 1).last() == es[i as int]);
        }
    }
    assert(ns.take(steps@.len() as int + 1) == ns);
    assert(es.take(steps@.len() as int) == es);
    c
}


/// The keys of a map.
fn keys_of<V>(m: &HashMap<u64, V>) -> (ks: Vec<u64>)
    ensures
        forall|k: u64| m@.contains_key(k) <==> ks@.contains(k),
{
    broadcast use vstd::std_specs::hash::group_hash_axioms;
    let ghost all = vstd::std_specs::hash::spec_hash_map_iter(m).remaining();
    let ghost mut seen: int = 0;
    let mut ks: Vec<u64> = Vec::new();
    for (k, v) in it: m.iter()
        invariant
            it.seq() == all,
            seen == it.index(),
            forall|j: int| 0 <= j < ks@.len() ==> m@.contains_key(#[trigger] ks@[j]),
            forall|j: int| 0 <= j < seen ==> ks@.contains(*(#[trigger] all[j]).0),
    {
        assert((k, v) == all[seen]);
        let ghost before = ks@;
        ks.push(*k);
        proof {
            assert forall|j: int| 0 <= j < seen + 1 implies ks@.contains(*(#[trigger] all[j]).0) by {
                if j < seen {
                    let w = choose|w: int| 0 <= w < before.len() && before[w] == *all[j].0;
                    assert(ks@[w] == before[w]);
                } else {
                    assert(ks@[ks@.len() - 1] == *k);
                }
            }
            seen = seen + 1;
        }
    }
    assert forall|k: u64| m@.contains_key(k) implies ks@.contains(k) by {
        assert(all.contains((&k, &m@[k])));
        let j = choose|j: int| 0 <= j < all.len() && all[j] == (&k, &m@[k]);
    }
    ks
}

/// Upserted nodes sit under their own ids.
pub proof fn lemma_upsert_nodes_keyed(ns: Seq<NodeView>)
    ensures
        forall|k: CanvasNodeId| #[trigger]
            upsert_nodes(Map::empty(), ns).contains_key(k) ==> upsert_nodes(Map::empty(), ns)[k].id == k,
    decreases ns.len(),
{
    if ns.len() > 0 {
        lemma_upsert_nodes_keyed(ns.drop_last());
    }
}

/// Upserted edges sit under their own ids.
pub proof fn lemma_upsert_edges_keyed(es: Seq<EdgeView>)
    ensures
        forall|k: CanvasEdgeId| #[trigger]
            upsert_edges(Map::empty(), es).contains_key(k) ==> upsert_edges(Map::empty(), es)[k].id == k,
    decreases es.len(),
{
    if es.len() > 0 {
        lemma_upsert_edges_keyed(es.drop_last());
    }
}

proof fn lemma_push_add_node(
    st: CanvasState,
    ops: Seq<CanvasPatchOp>,
    base: Map<CanvasNodeId, CanvasNode>,
    done: Map<CanvasNodeId, CanvasNode>,
    v: CanvasNode,
)
    requires
        run_ops(st, ops) == (CanvasState { nodes: st.nodes.union_prefer_right(base.union_prefer_right(done)), ..st }, Ok::<(), crate::canvas::CanvasPatchError>(())),
    ensures
        run_ops(st, ops.push(CanvasPatchOp::AddNode(v))) == (CanvasState {
            nodes: st.nodes.union_prefer_right(base.union_prefer_right(done.insert(v.id, v))),
            ..st
        }, Ok::<(), crate::canvas::CanvasPatchError>(())),
{
    assert(ops.push(CanvasPatchOp::AddNode(v)).drop_last() == ops);
    assert(st.nodes.union_prefer_right(base.union_prefer_right(done)).insert(v.id, v) =~= st.nodes.union_prefer_right(
        base.union_prefer_right(done.insert(v.id, v)),
    ));
}

proof fn lemma_push_add_edge(
    st: CanvasState,
    ops: Seq<CanvasPatchOp>,
    nodes: Map<CanvasNodeId, CanvasNode>,
    done: Map<CanvasEdgeId, CanvasEdge>,
    e: CanvasEdge,
)
    requires
        run_ops(st, ops) == (CanvasState {
            nodes: st.nodes.union_prefer_right(nodes),
            edges: st.edges.union_prefer_right(done),
            ..st
        }, Ok::<(), crate::canvas::CanvasPatchError>(())),
    ensures
        run_ops(st, ops.push(CanvasPatchOp::AddEdge(e))) == (CanvasState {
            nodes: st.nodes.union_prefer_right(nodes),
            edges: st.edges.union_prefer_right(done.insert(e.id, e)),
            ..st
        }, Ok::<(), crate::canvas::CanvasPatchError>(())),
{
    assert(ops.push(CanvasPatchOp::AddEdge(e)).drop_last() == ops);
    assert(st.edges.union_prefer_right(done).insert(e.id, e) =~= st.edges.union_prefer_right(done.insert(e.id, e)));
}

/// Whether applying `ops` to any state adds the nodes of `nodes` and
/// the edges of `edges` to it, replacing those with the same ids.
pub open spec fn adds(ops: Seq<CanvasPatchOp>, nodes: Map<CanvasNodeId, CanvasNode>, edges: Map<CanvasEdgeId, CanvasEdge>) -> bool {
    forall|st: CanvasState| #[trigger]
        run_ops(st, ops) == (CanvasState {
            nodes: st.nodes.union_prefer_right(nodes),
            edges: st.edges.union_prefer_right(edges),
            ..st
        }, Ok::<(), crate::canvas::CanvasPatchError>(()))
}

/// A patch that draws the run's DAG: an `AddNode` per node and an
/// `AddEdge` per edge of `build_dag(run)`. Applied to any canvas, it
/// adds exactly those nodes and edges.
pub fn build_dag_patch(run: &AgentRun) -> (p: CanvasPatch)
    ensures
        exists|nodes: Map<CanvasNodeId, CanvasNode>, edges: Map<CanvasEdgeId, CanvasEdge>|
            nodes_are(nodes, upsert_nodes(Map::empty(), dag_nodes(*run))) && edges_are(
                edges,
                upsert_edges(Map::empty(), dag_edges(*run)),
            ) && #[trigger] adds(p.ops@, nodes, edges),
{
    broadcast use vstd::std_specs::hash::group_hash_axioms;
    let c = build_dag(run);
    let ghost n0 = c.nodes@;
    let ghost e0 = c.edges@;
    proof {
        lemma_upsert_nodes_keyed(dag_nodes(*run));
        lemma_upsert_edges_keyed(dag_edges(*run));
        assert forall|k: CanvasNodeId| n0.contains_key(k) implies (#[trigger] n0[k]).id == k by {
            assert(crate::canvas::node_view(n0[k]) == upsert_nodes(Map::empty(), dag_nodes(*run))[k]);
        }
        assert forall|k: CanvasEdgeId| e0.contains_key(k) implies (#[trigger] e0[k]).id == k by {
            assert(crate::canvas::edge_view(e0[k]) == upsert_edges(Map::empty(), dag_edges(*run))[k]);
        }
    }
    let Canvas { nodes, edges, .. } = c;
    let mut nodes = nodes;
    let mut edges = edges;
    let nkeys = keys_of(&nodes);
    let ekeys = keys_of(&edges);
    let mut ops: Vec<CanvasPatchOp> = Vec::new();
    let ghost mut done: Map<CanvasNodeId, CanvasNode> = Map::empty();
    proof {
        assert forall|st: CanvasState| #[trigger] run_ops(st, ops@) == (CanvasState {
            nodes: st.nodes.union_prefer_right(Map::<CanvasNodeId, CanvasNode>::empty().union_prefer_right(done)),
            ..st
        }, Ok::<(), crate::canvas::CanvasPatchError>(())) by {
            assert(st.nodes.union_prefer_right(Map::<CanvasNodeId, CanvasNode>::empty().union_prefer_right(done)) =~= st.nodes);
        }
    }
    for i in 0..nkeys.len()
        invariant
            forall|k: CanvasNodeId| n0.contains_key(k) <==> nkeys@.contains(k),
            forall|k: CanvasNodeId| n0.contains_key(k) ==> (#[trigger] n0[k]).id == k,
            forall|k: CanvasNodeId| #[trigger] nodes@.contains_key(k) ==> n0.contains_key(k) && nodes@[k] == n0[k],
            forall|k: CanvasNodeId| #[trigger] done.contains_key(k) ==> n0.contains_key(k) && done[k] == n0[k],
            forall|k: CanvasNodeId| n0.contains_key(k) ==> nodes@.contains_key(k) || done.contains_key(k),
            forall|j: int| 0 <= j < i ==> done.contains_key(#[trigger] nkeys@[j]),
            forall|st: CanvasState| #[trigger] run_ops(st, ops@) == (CanvasState {
                nodes: st.nodes.union_prefer_right(Map::<CanvasNodeId, CanvasNode>::empty().union_prefer_right(done)),
                ..st
            }, Ok::<(), crate::canvas::CanvasPatchError>(())),
    {
        let k = nkeys[i];
        let ghost before = ops@;
        let ghost done0 = done;
        match nodes.remove(&k) {
            Some(v) => {
                ops.push(CanvasPatchOp::AddNode(v));
                proof {
                    assert forall|st: CanvasState| #[trigger] run_ops(st, ops@) == (CanvasState {
                        nodes: st.nodes.union_prefer_right(Map::<CanvasNodeId, CanvasNode>::empty().union_prefer_right(done0.insert(v.id, v))),
                        ..st
                    }, Ok::<(), crate::canvas::CanvasPatchError>(())) by {
                        lemma_push_add_node(st, before, Map::empty(), done0, v);
                    }
                    done = done0.insert(k, v);
                }
            },
            None => {},
        }
    }
    let ghost nodes_done = done;
    proof {
        assert forall|k: CanvasNodeId| n0.contains_key(k) implies done.contains_key(k) by {
            let j = choose|j: int| 0 <= j < nkeys@.len() && nkeys@[j] == k;
        }
        assert(done =~= n0);
        assert forall|st: CanvasState| #[trigger] run_ops(st, ops@) == (CanvasState {
            nodes: st.nodes.union_prefer_right(n0),
            edges: st.edges.union_prefer_right(Map::<CanvasEdgeId, CanvasEdge>::empty()),
            ..st
        }, Ok::<(), crate::canvas::CanvasPatchError>(())) by {
            assert(Map::<CanvasNodeId, CanvasNode>::empty().union_prefer_right(done) =~= n0);
            assert(st.edges.union_prefer_right(Map::<CanvasEdgeId, CanvasEdge>::empty()) =~= st.edges);
        }
    }
    let ghost mut edone: Map<CanvasEdgeId, CanvasEdge> = Map::empty();
    for i in 0..ekeys.len()
        invariant
            forall|k: CanvasEdgeId| e0.contains_key(k) <==> ekeys@.contains(k),
            forall|k: CanvasEdgeId| e0.contains_key(k) ==> (#[trigger] e0[k]).id == k,
            forall|k: CanvasEdgeId| #[trigger] edges@.contains_key(k) ==> e0.contains_key(k) && edges@[k] == e0[k],
            forall|k: CanvasEdgeId| #[trigger] edone.contains_key(k) ==> e0.contains_key(k) && edone[k] == e0[k],
            forall|k: CanvasEdgeId| e0.contains_key(k) ==> edges@.contains_key(k) || edone.contains_key(k),
            forall|j: int| 0 <= j < i ==> edone.contains_key(#[trigger] ekeys@[j]),
            forall|st: CanvasState| #[trigger] run_ops(st, ops@) == (CanvasState {
                nodes: st.nodes.union_prefer_right(n0),
                edges: st.edges.union_prefer_right(edone),
                ..st
            }, Ok::<(), crate::canvas::CanvasPatchError>(())),
    {
        let k = ekeys[i];
        let ghost before = ops@;
        let ghost edone0 = edone;
        match edges.remove(&k) {
            Some(e) => {
                ops.push(CanvasPatchOp::AddEdge(e));
                proof {
                    assert forall|st: CanvasState| #[trigger] run_ops(st, ops@) == (CanvasState {
                        nodes: st.nodes.union_prefer_right(n0),
                        edges: st.edges.union_prefer_right(edone0.insert(e.id, e)),
                        ..st
                    }, Ok::<(), crate::canvas::CanvasPatchError>(())) by {
                        lemma_push_add_edge(st, before, n0, edone0, e);
                    }
                    edone = edone0.insert(k, e);
                }
            },
            None => {},
        }
    }
    proof {
        assert forall|k: CanvasEdgeId| e0.contains_key(k) implies edone.contains_key(k) by {
            let j = choose|j: int| 0 <= j < ekeys@.len() && ekeys@[j] == k;
        }
        assert(edone =~= e0);
        assert(adds(ops@, n0, e0));
    }
    CanvasPatch::new(ops)
}


/// The Agent Plan DAG view of a recorded run: `build_dag(run)`.
pub fn open_agent_canvas(run: &AgentRun) -> (c: Canvas)
    ensures
        projected(c, LayoutMode::Layered, dag_nodes(*run), dag_edges(*run)),
{
    build_dag(run)
}

/// Each kind of step the original draws specially has its own node
/// kind, used by no other step: a node is a tool call, an agent, a diff,
/// a test or a service exactly when its step calls a tool, spawns a sub
/// agent, edits a file, runs tests or deploys; every other step is a
/// plan step.
pub proof fn lemma_step_kinds_are_drawn_apart(k: AgentStepKind)
    ensures
        (step_node_kind(k) == CanvasNodeKind::ToolCall) <==> k == AgentStepKind::ToolCall,
        (step_node_kind(k) == CanvasNodeKind::Agent) <==> k == AgentStepKind::SubAgentSpawn,
        (step_node_kind(k) == CanvasNodeKind::Diff) <==> k == AgentStepKind::FileEdit,
        (step_node_kind(k) == CanvasNodeKind::Test) <==> k == AgentStepKind::TestRun,
        (step_node_kind(k) == CanvasNodeKind::Service) <==> k == AgentStepKind::Deploy,
        (step_node_kind(k) == CanvasNodeKind::PlanStep) <==> !(k == AgentStepKind::ToolCall
            || k == AgentStepKind::SubAgentSpawn || k == AgentStepKind::FileEdit || k == AgentStepKind::TestRun
            || k == AgentStepKind::Deploy),
{
}

/// In the drawn DAG, the node of step `i` is a test node exactly when
/// that step runs tests, and a diff node exactly when it edits a file.
pub proof fn lemma_dag_node_kinds_follow_steps(run: AgentRun, i: int)
    requires
        0 <= i < run.steps@.len(),
    ensures
        (dag_nodes(run)[i + 1].kind == CanvasNodeKind::Test) <==> run.steps@[i].kind == AgentStepKind::TestRun,
        (dag_nodes(run)[i + 1].kind == CanvasNodeKind::Diff) <==> run.steps@[i].kind == AgentStepKind::FileEdit,
        dag_nodes(run)[i + 1].label == run.steps@[i].label@,
{
    lemma_step_kinds_are_drawn_apart(run.steps@[i].kind);
}

} // verus!
