use wish_core::agent_dag::{build_dag, build_dag_patch, open_agent_canvas, AgentRun, AgentStep, AgentStepKind, AgentStepStatus};
use wish_core::canvas::{Canvas, CanvasEdge, CanvasNode, CanvasNodeKind, EdgeKind, LayoutMode, Rect, Selection};
use wish_core::canvas_pane::{input_patch, AgentSink, CanvasCommand, CanvasInput, CanvasMode, SinkOutcome};
use wish_core::export::to_mermaid;
use wish_core::glyphs::{edge_rgba, kind_glyph};
use wish_core::layout::{layered_layers, layered_plan, sorted_node_ids, LayeredPlan};
use wish_core::codegraph::{RepoCrate, RepoFile, RepoFunction, RepoGraph};
use wish_core::patch::{CanvasPatch, CanvasPatchOp, NodeDelta};
use wish_core::repo_canvas::{open_repo_canvas, to_canvas, to_canvas_architecture, to_canvas_function_graph, to_canvas_repo};

fn rect(x: f32, y: f32, w: f32, h: f32) -> Rect {
    Rect { x: x.to_bits(), y: y.to_bits(), w: w.to_bits(), h: h.to_bits() }
}

fn node(sid: &str, label: &str) -> CanvasNode {
    CanvasNode::new(sid, label, CanvasNodeKind::Function, rect(0.0, 0.0, 80.0, 30.0))
}

fn sample_patch() -> CanvasPatch {
    CanvasPatch::new(vec![CanvasPatchOp::AddNode(node("code:function:a::b", "b"))])
}

#[test]
fn operate_applies_immediately() {
    let mut canvas = Canvas::new();
    let mut sink = AgentSink::new(CanvasMode::Operate);
    assert_eq!(sink.ingest(&mut canvas, sample_patch()), SinkOutcome::Applied);
    assert_eq!(canvas.nodes.len(), 1);
    assert_eq!(sink.pending_len(), 0);
}

#[test]
fn agent_queues_for_approval() {
    let mut canvas = Canvas::new();
    let mut sink = AgentSink::new(CanvasMode::Agent);
    assert_eq!(sink.ingest(&mut canvas, sample_patch()), SinkOutcome::PendingApproval);
    assert_eq!(canvas.nodes.len(), 0);
    assert_eq!(sink.pending_len(), 1);
    assert_eq!(sink.approve_next(&mut canvas), Some(SinkOutcome::Applied));
    assert_eq!(canvas.nodes.len(), 1);
}

#[test]
fn ids_are_stable() {
    assert_eq!(CanvasCommand::OpenRepoCanvas.id(), "wish.canvas.open_repo");
    assert_eq!(CanvasCommand::ExportCanvasMermaid.id(), "wish.canvas.export_mermaid");
}

#[test]
fn smoke_build_dag() {
    let run = AgentRun {
        session_id: "s1".into(),
        root_intent: "fix failing test".into(),
        steps: vec![
            AgentStep {
                id: "1".into(),
                parent_id: None,
                kind: AgentStepKind::Plan,
                label: "inspect files".into(),
                status: AgentStepStatus::Okay,
            },
            AgentStep {
                id: "2".into(),
                parent_id: Some("1".into()),
                kind: AgentStepKind::FileEdit,
                label: "patch foo.rs".into(),
                status: AgentStepStatus::Okay,
            },
            AgentStep {
                id: "3".into(),
                parent_id: Some("2".into()),
                kind: AgentStepKind::TestRun,
                label: "cargo test".into(),
                status: AgentStepStatus::Okay,
            },
        ],
    };
    let canvas = build_dag(&run);
    // root + 3 steps = 4 nodes; 3 edges from each step to its parent.
    assert_eq!(canvas.nodes.len(), 4);
    assert_eq!(canvas.edges.len(), 3);
    let patch = build_dag_patch(&run);
    assert!(patch.ops.len() >= 7);
}

#[test]
fn smoke_to_canvas_and_patch() {
    let g = RepoGraph {
        root: "/tmp/x".into(),
        crates: vec![RepoCrate { name: "x".into(), path: "/tmp/x".into() }],
        files: vec![RepoFile { path: "/tmp/x/src/lib.rs".into(), crate_name: Some("x".into()) }],
        deps: vec![],
        functions: Vec::new(),
        calls: Vec::new(),
    };
    let c = to_canvas(&g);
    assert_eq!(c.nodes.len(), 2);
}

#[test]
fn dag_edges_follow_parents_and_fall_back_to_root() {
    let step = |id: &str, parent: Option<&str>, kind| AgentStep {
        id: id.into(),
        parent_id: parent.map(|p| p.to_string()),
        kind,
        label: id.into(),
        status: AgentStepStatus::Pending,
    };
    let run = AgentRun {
        session_id: "s".into(),
        root_intent: "goal".into(),
        // "b" names a parent that appears later: it hangs from the root.
        steps: vec![
            step("a", None, AgentStepKind::Plan),
            step("b", Some("c"), AgentStepKind::ToolCall),
            step("c", Some("a"), AgentStepKind::Deploy),
            step("d", Some("missing"), AgentStepKind::Wait),
        ],
    };
    let c = build_dag(&run);
    let root = c.node_for("agent:run:s").unwrap();
    let a = c.node_for("agent:plan:a").unwrap();
    let b = c.node_for("agent:tool_call:b").unwrap();
    let cc = c.node_for("agent:deploy:c").unwrap();
    let d = c.node_for("agent:wait:d").unwrap();
    let parent_of = |n: u64| c.edges.values().find(|e| e.to == n).map(|e| e.from).unwrap();
    assert_eq!(parent_of(a), root);
    assert_eq!(parent_of(b), root);
    assert_eq!(parent_of(cc), a);
    assert_eq!(parent_of(d), root);
    assert_eq!(c.nodes[&cc].kind, CanvasNodeKind::Service);
    assert_eq!(c.nodes[&root].label, "goal");
    assert_eq!(c.layout, LayoutMode::Layered);
    assert!(c.edges.values().all(|e| e.kind == EdgeKind::Spawned));
}

#[test]
fn dag_patch_redraws_the_dag_on_a_blank_canvas() {
    let run = AgentRun {
        session_id: "s".into(),
        root_intent: "goal".into(),
        steps: vec![AgentStep {
            id: "1".into(),
            parent_id: None,
            kind: AgentStepKind::Plan,
            label: "plan".into(),
            status: AgentStepStatus::Running,
        }],
    };
    let dag = build_dag(&run);
    let mut blank = Canvas::new();
    blank.apply_patch(build_dag_patch(&run)).unwrap();
    let mut a: Vec<u64> = dag.nodes.keys().copied().collect();
    let mut b: Vec<u64> = blank.nodes.keys().copied().collect();
    a.sort();
    b.sort();
    assert_eq!(a, b);
    assert_eq!(dag.edges.len(), blank.edges.len());
}

#[test]
fn remove_node_drops_its_edges() {
    let mut c = Canvas::new();
    let a = node("code:function:a", "a");
    let b = node("code:function:b", "b");
    let x = node("code:function:x", "x");
    let (ia, ib, ix) = (a.id, b.id, x.id);
    let ops = vec![
        CanvasPatchOp::AddNode(a),
        CanvasPatchOp::AddNode(b),
        CanvasPatchOp::AddNode(x),
        CanvasPatchOp::AddEdge(CanvasEdge::new(ia, ib, EdgeKind::Calls)),
        CanvasPatchOp::AddEdge(CanvasEdge::new(ib, ia, EdgeKind::Calls)),
        CanvasPatchOp::AddEdge(CanvasEdge::new(ib, ix, EdgeKind::Calls)),
        CanvasPatchOp::RemoveNode { id: ia },
    ];
    assert!(c.apply_patch(CanvasPatch::new(ops)).is_ok());
    assert_eq!(c.nodes.len(), 2);
    assert_eq!(c.edges.len(), 1);
    assert!(c.edges.values().all(|e| e.from != ia && e.to != ia));
}

#[test]
fn update_node_changes_only_given_fields() {
    let mut c = Canvas::new();
    let n = node("code:function:f", "f");
    let id = n.id;
    c.upsert_node(n);
    let delta = NodeDelta { label: Some("g".into()), ..NodeDelta::default() };
    let ops = vec![
        CanvasPatchOp::UpdateNode { id, delta },
        CanvasPatchOp::SetLayout(LayoutMode::Grid),
        CanvasPatchOp::SetSelection(Selection { nodes: vec![id], edges: vec![] }),
    ];
    c.apply_patch(CanvasPatch::new(ops)).unwrap();
    assert_eq!(c.nodes[&id].label, "g");
    assert_eq!(c.nodes[&id].bounds, rect(0.0, 0.0, 80.0, 30.0));
    assert_eq!(c.layout, LayoutMode::Grid);
    assert_eq!(c.selection.nodes, vec![id]);
}

#[test]
fn failing_op_stops_the_patch_after_earlier_ops() {
    let mut c = Canvas::new();
    let ops = vec![
        CanvasPatchOp::SetLayout(LayoutMode::Manual),
        CanvasPatchOp::RemoveEdge { id: 42 },
        CanvasPatchOp::SetLayout(LayoutMode::Grid),
    ];
    let err = c.apply_patch(CanvasPatch::new(ops)).unwrap_err();
    assert_eq!(err.to_string(), "edge not found: 42");
    assert_eq!(c.layout, LayoutMode::Manual);
    let err = c.apply_patch(CanvasPatch::new(vec![CanvasPatchOp::RemoveNode { id: 7 }])).unwrap_err();
    assert_eq!(err.to_string(), "node not found: 7");
    let delta = NodeDelta::default();
    let err = c.apply_patch(CanvasPatch::new(vec![CanvasPatchOp::UpdateNode { id: 9, delta }])).unwrap_err();
    assert_eq!(err.to_string(), "node not found: 9");
}

#[test]
fn sink_reports_errors_and_rejects() {
    let mut canvas = Canvas::new();
    let mut sink = AgentSink::new(CanvasMode::Explain);
    let bad = CanvasPatch::new(vec![CanvasPatchOp::RemoveNode { id: 3 }]);
    assert_eq!(sink.ingest(&mut canvas, bad), SinkOutcome::Error("node not found: 3".into()));
    let mut sink = AgentSink::new(CanvasMode::Agent);
    assert_eq!(sink.approve_next(&mut canvas), None);
    sink.ingest(&mut canvas, sample_patch());
    sink.ingest(&mut canvas, CanvasPatch::new(vec![CanvasPatchOp::RemoveNode { id: 3 }]));
    assert!(sink.reject_next());
    assert_eq!(sink.approve_next(&mut canvas), Some(SinkOutcome::Error("node not found: 3".into())));
    assert!(!sink.reject_next());
    assert_eq!(canvas.nodes.len(), 0);
    assert_eq!(AgentSink::default().mode, CanvasMode::Operate);
}

#[test]
fn ids_and_labels_of_commands() {
    let reveal = CanvasCommand::RevealInCanvas { semantic_id: "code:crate:x".into() };
    assert_eq!(reveal.id(), "wish.canvas.reveal");
    assert_eq!(reveal.label(), "Reveal in Canvas");
    assert_eq!(CanvasCommand::SetMode { mode: CanvasMode::Agent }.label(), "Set Canvas Mode");
    assert_eq!(CanvasCommand::OpenCommandTimeline.id(), "wish.canvas.open_command_timeline");
}

#[test]
fn selection_inputs_become_patches() {
    let p = input_patch(CanvasInput::Select { node_id: 5 }).unwrap();
    assert!(p.id.starts_with("cpatch_"));
    match &p.ops[..] {
        [CanvasPatchOp::SetSelection(s)] => {
            assert_eq!(s.nodes, vec![5]);
            assert!(s.edges.is_empty());
        },
        _ => panic!("expected one selection op"),
    }
    let p = input_patch(CanvasInput::DeselectAll).unwrap();
    assert_eq!(p.ops.len(), 1);
    assert!(input_patch(CanvasInput::DoubleClick { node_id: 5 }).is_none());
    assert!(input_patch(CanvasInput::Pan { dx: 1.0f32.to_bits(), dy: 0 }).is_none());
}

#[test]
fn new_canvas_is_blank_and_stamped() {
    let c = Canvas::new();
    assert!(c.id.starts_with("canvas_"));
    assert!(c.nodes.is_empty() && c.edges.is_empty());
    assert_eq!(c.layout, LayoutMode::Layered);
    assert_eq!(Canvas::new_at(-12).id, "canvas_-12");
    assert_eq!(CanvasPatch::new_at(5, vec![]).id, "cpatch_5");
}

fn sample_graph() -> RepoGraph {
    let f = |name: &str, is_test: bool| RepoFunction {
        crate_name: Some("alpha".into()),
        file_path: "/r/alpha/src/lib.rs".into(),
        name: name.into(),
        line: 1,
        is_test,
        is_pub: false,
        is_async: false,
    };
    RepoGraph {
        root: "/r".into(),
        crates: vec![
            RepoCrate { name: "alpha".into(), path: "/r/alpha".into() },
            RepoCrate { name: "beta".into(), path: "/r/beta".into() },
        ],
        files: vec![
            RepoFile { path: "/r/alpha/src/lib.rs".into(), crate_name: Some("alpha".into()) },
            RepoFile { path: "/r/alpha/src/util.rs".into(), crate_name: Some("alpha".into()) },
            RepoFile { path: "/r/beta/src/main.rs".into(), crate_name: Some("beta".into()) },
            RepoFile { path: "/r/notes.rs".into(), crate_name: None },
        ],
        deps: vec![("alpha".into(), "beta".into())],
        functions: vec![f("run", false), f("helper", false), f("lonely", false), f("checks", true)],
        calls: vec![("alpha::run".into(), "alpha::helper".into()), ("alpha::checks".into(), "alpha::run".into())],
    }
}

#[test]
fn repo_map_has_crates_files_and_functions() {
    let g = sample_graph();
    let c = to_canvas(&g);
    assert_eq!(c.nodes.len(), 2 + 4 + 4);
    // 3 crate→file, 1 dep, 4 file→function, 2 calls.
    assert_eq!(c.edges.len(), 10);
    let f = c.node_for("code:file:alpha/src/util.rs").unwrap();
    assert_eq!(c.nodes[&f].label, "util.rs");
    let t = c.node_for("code:function:alpha::checks").unwrap();
    assert_eq!(c.nodes[&t].label, "test checks");
    assert_eq!(c.nodes[&t].kind, CanvasNodeKind::Test);
}

#[test]
fn architecture_view_labels_file_counts() {
    let g = sample_graph();
    let c = to_canvas_architecture(&g);
    assert_eq!(c.nodes.len(), 2);
    assert_eq!(c.edges.len(), 1);
    let a = c.node_for("code:crate:alpha").unwrap();
    let b = c.node_for("code:crate:beta").unwrap();
    assert_eq!(c.nodes[&a].label, "alpha\n2 files");
    assert_eq!(c.nodes[&b].label, "beta\n1 file");
    assert_eq!(c.nodes[&a].bounds, rect(0.0, 0.0, 220.0, 56.0));
}

#[test]
fn function_graph_keeps_called_functions_only() {
    let g = sample_graph();
    let c = to_canvas_function_graph(&g);
    assert_eq!(c.layout, LayoutMode::ForceDirected);
    assert_eq!(c.nodes.len(), 3);
    assert!(c.node_for("code:function:alpha::lonely").is_none());
    assert_eq!(c.edges.len(), 2);
    let mut empty = sample_graph();
    empty.functions.clear();
    let c = to_canvas_function_graph(&empty);
    assert!(c.nodes.is_empty() && c.edges.is_empty());
}

#[test]
fn repo_view_hangs_source_roots_from_crates() {
    let g = sample_graph();
    let c = to_canvas_repo(&g);
    // 2 crates + lib.rs + main.rs.
    assert_eq!(c.nodes.len(), 4);
    // 1 dep + 2 crate→root.
    assert_eq!(c.edges.len(), 3);
    let m = c.node_for("code:file:beta/src/main.rs").unwrap();
    assert_eq!(c.nodes[&m].label, "main.rs");
    assert!(c.node_for("code:file:alpha/src/util.rs").is_none());
}

#[test]
fn repo_view_without_source_roots_is_the_architecture_view() {
    let mut g = sample_graph();
    g.files = vec![
        RepoFile { path: "/r/alpha/src/util.rs".into(), crate_name: Some("alpha".into()) },
        RepoFile { path: "/r/beta/src/lib.rs".into(), crate_name: None },
    ];
    let c = to_canvas_repo(&g);
    let arch = to_canvas_architecture(&g);
    assert_eq!(c.layout, LayoutMode::Layered);
    assert_eq!(c.nodes.len(), arch.nodes.len());
    assert_eq!(c.edges.len(), arch.edges.len());
    for (id, n) in &arch.nodes {
        assert_eq!(c.nodes[id].label, n.label);
        assert_eq!(c.nodes[id].kind, n.kind);
    }
    for id in arch.edges.keys() {
        assert!(c.edges.contains_key(id));
    }
    let a = c.node_for("code:crate:alpha").unwrap();
    assert_eq!(c.nodes[&a].label, "alpha\n1 file");
}

#[test]
fn mermaid_lists_every_node_and_edge_once() {
    let mut c = Canvas::new();
    let a = node("code:function:a", "a[0]");
    let b = node("code:function:b", "b");
    let (ia, ib) = (a.id, b.id);
    c.upsert_node(a);
    c.upsert_node(b);
    c.upsert_edge(CanvasEdge::new(ia, ib, EdgeKind::Calls));
    let m = to_mermaid(&c);
    let lines: Vec<&str> = m.lines().collect();
    assert_eq!(lines[0], "graph TD");
    assert_eq!(lines.len(), 4);
    assert!(lines.contains(&format!("  N{}[a_0_]", ia).as_str()));
    assert!(lines.contains(&format!("  N{}[b]", ib).as_str()));
    assert_eq!(lines[3], format!("  N{} --> N{}", ia, ib));
    assert_eq!(to_mermaid(&Canvas::new()), "graph TD\n");
}

#[test]
fn layers_follow_edges_and_keep_cycles_last() {
    let mut c = Canvas::new();
    let ids: Vec<u64> = ["a", "b", "c", "d", "e", "f", "g"]
        .iter()
        .map(|n| {
            let x = node(&format!("code:function:{n}"), n);
            let id = x.id;
            c.upsert_node(x);
            id
        })
        .collect();
    let (a, b, cc, d, e, f, g) = (ids[0], ids[1], ids[2], ids[3], ids[4], ids[5], ids[6]);
    for (x, y) in [(a, b), (b, cc), (a, cc), (d, e), (e, d), (12345, f)] {
        c.upsert_edge(CanvasEdge::new(x, y, EdgeKind::DependsOn));
    }
    let layers = layered_layers(&c);
    let mut first = vec![a, g];
    first.sort();
    assert_eq!(layers[0], first);
    assert_eq!(layers[1], vec![b]);
    assert_eq!(layers[2], vec![cc]);
    assert_eq!(layers.len(), 4);
    let mut rest = layers[3].clone();
    rest.sort();
    let mut want = vec![d, e, f];
    want.sort();
    assert_eq!(rest, want);
    let sorted = sorted_node_ids(&c);
    let mut all = ids.clone();
    all.sort();
    assert_eq!(sorted, all);
    assert!(layered_layers(&Canvas::new()).is_empty());
}

#[test]
fn layered_plan_falls_back_to_a_grid_on_a_cycle() {
    let mut c = Canvas::new();
    let mut add = |sid: &str| {
        let n = node(sid, "x");
        let id = n.id;
        c.upsert_node(n);
        id
    };
    let (a, b, d) = (add("code:function:a"), add("code:function:b"), add("code:function:d"));
    c.upsert_edge(CanvasEdge::new(a, b, EdgeKind::Calls));
    match layered_plan(&c) {
        LayeredPlan::Layers(layers) => {
            let mut first = vec![a, d];
            first.sort();
            assert_eq!(layers, vec![first, vec![b]]);
        }
        LayeredPlan::Grid(_) => panic!("an acyclic canvas is layered"),
    }
    c.upsert_edge(CanvasEdge::new(b, a, EdgeKind::Calls));
    match layered_plan(&c) {
        LayeredPlan::Grid(ids) => assert_eq!(ids, sorted_node_ids(&c)),
        LayeredPlan::Layers(_) => panic!("a cycle falls back to the grid"),
    }
    assert!(matches!(layered_plan(&Canvas::new()), LayeredPlan::Layers(l) if l.is_empty()));
}

#[test]
fn kind_glyph_covers_every_canvas_node_kind() {
    let kinds = [
        CanvasNodeKind::File,
        CanvasNodeKind::Function,
        CanvasNodeKind::Crate,
        CanvasNodeKind::Package,
        CanvasNodeKind::Module,
        CanvasNodeKind::Service,
        CanvasNodeKind::Agent,
        CanvasNodeKind::ToolCall,
        CanvasNodeKind::PlanStep,
        CanvasNodeKind::Test,
        CanvasNodeKind::Commit,
        CanvasNodeKind::Branch,
        CanvasNodeKind::Diff,
        CanvasNodeKind::TerminalBlock,
        CanvasNodeKind::DocumentSection,
        CanvasNodeKind::Npc,
        CanvasNodeKind::Quest,
        CanvasNodeKind::Custom("world".into()),
    ];
    for k in &kinds {
        assert!(!kind_glyph(k).is_empty());
    }
    assert_eq!(kind_glyph(&CanvasNodeKind::Crate), "📦");
    assert_eq!(edge_rgba(&EdgeKind::Calls), (140, 200, 130, 160));
    assert_eq!(edge_rgba(&EdgeKind::Custom("x".into())), (140, 150, 165, 160));
}

#[test]
fn smoke_repo_canvas_returns_empty_for_missing_path() {
    let c = open_repo_canvas("/this/path/does/not/exist", None);
    assert!(c.nodes.is_empty());
}

#[test]
fn agent_canvas_is_the_run_dag() {
    let run = AgentRun { session_id: "s".into(), root_intent: "goal".into(), steps: vec![] };
    let c = open_agent_canvas(&run);
    assert_eq!(c.nodes.len(), 1);
    assert!(c.node_for("agent:run:s").is_some());
}
