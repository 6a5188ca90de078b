//! Vocabulary of the semantic canvas: layouts, node and edge kinds,
//! statuses, selections and the views a canvas can be projected into.
use vstd::prelude::*;
use crate::tensor::TensorSpec;
use std::collections::HashMap;
use vstd::std_specs::iter::IteratorSpec;
use crate::text::{chars_eq_str, append_decimal, append_signed, append_str, chars_of, decimal, signed_decimal, string_of};

verus! {

/// Identifier of a canvas node.
pub type CanvasNodeId = u64;

/// Identifier of a canvas edge.
pub type CanvasEdgeId = u64;

/// How the nodes of a canvas are arranged.
#[derive(Debug, Clone, Copy, PartialEq, Eq, Structural)]
pub enum LayoutMode {
    Manual,
    Layered,
    ForceDirected,
    Grid,
}

impl Default for LayoutMode {
    fn default() -> (r: Self)
        ensures
            r == LayoutMode::Layered,
    {
        LayoutMode::Layered
    }
}

/// What a node stands for.
#[derive(Debug, Clone, PartialEq)]
pub enum CanvasNodeKind {
    File,
    Function,
    Crate,
    Package,
    Module,
    Service,
    Agent,
    ToolCall,
    PlanStep,
    Test,
    Commit,
    Branch,
    Diff,
    TerminalBlock,
    DocumentSection,
    Npc,
    Quest,
    /// A tensor entity: its spec carries shape, dtype and data handle.
    Tensor(TensorSpec),
    Custom(String),
}

/// Health of a node.
#[derive(Debug, Clone, Copy, PartialEq, Eq, Structural)]
pub enum NodeStatus {
    Okay,
    Warning,
    Error,
    Pending,
    Running,
    Stale,
}

impl Default for NodeStatus {
    fn default() -> (r: Self)
        ensures
            r == NodeStatus::Okay,
    {
        NodeStatus::Okay
    }
}

/// What an edge stands for.
#[derive(Debug, Clone, PartialEq, Eq)]
pub enum EdgeKind {
    Imports,
    Calls,
    DependsOn,
    Produces,
    Triggers,
    Mentions,
    Tests,
    Spawned,
    SucceededBy,
    FailedBy,
    Custom(String),
}

/// The selected nodes and edges.
#[derive(Debug, Clone)]
pub struct Selection {
    pub nodes: Vec<CanvasNodeId>,
    pub edges: Vec<CanvasEdgeId>,
}

impl Default for Selection {
    fn default() -> (r: Self)
        ensures
            r.nodes@.len() == 0,
            r.edges@.len() == 0,
    {
        Selection { nodes: Vec::new(), edges: Vec::new() }
    }
}

/// Which view to project from a world.
#[derive(Debug, Clone, PartialEq, Eq)]
pub enum CanvasView {
    RepoMap,
    AgentDag,
    CommandTimeline,
    GitWorldline,
    Custom(String),
}

/// Why a canvas patch was refused.
#[derive(Debug, Clone, Copy, PartialEq, Eq, Structural)]
pub enum CanvasPatchError {
    NodeNotFound(CanvasNodeId),
    EdgeNotFound(CanvasEdgeId),
}

/// A rectangle, each coordinate the IEEE-754 bit pattern of an `f32`.
#[derive(Debug, Clone, Copy, PartialEq, Eq, Structural)]
pub struct Rect {
    pub x: u32,
    pub y: u32,
    pub w: u32,
    pub h: u32,
}

/// Pan and zoom, each the bit pattern of an `f32`.
#[derive(Debug, Clone, Copy, PartialEq, Eq, Structural)]
pub struct Viewport {
    pub pan_x: u32,
    pub pan_y: u32,
    pub scale: u32,
}

/// Bit pattern of the `f32` 1.0.
pub const ONE_BITS: u32 = 0x3f80_0000;

/// Bit pattern of the `f32` 6.0.
pub const SIX_BITS: u32 = 0x40c0_0000;

impl Default for Viewport {
    fn default() -> (r: Self)
        ensures
            r == (Viewport { pan_x: 0, pan_y: 0, scale: ONE_BITS }),
    {
        Viewport { pan_x: 0, pan_y: 0, scale: ONE_BITS }
    }
}

/// Look of a node: RGBA fill and border, border width and corner
/// radius as `f32` bit patterns.
#[derive(Debug, Clone, Copy)]
pub struct NodeStyle {
    pub fill: [u8; 4],
    pub border: [u8; 4],
    pub border_width: u32,
    pub corner_radius: u32,
}

impl Default for NodeStyle {
    fn default() -> (r: Self)
        ensures
            r.fill@ == seq![40u8, 44, 52, 255],
            r.border@ == seq![97u8, 175, 239, 255],
            r.border_width == ONE_BITS,
            r.corner_radius == SIX_BITS,
    {
        let r = NodeStyle { fill: [40, 44, 52, 255], border: [97, 175, 239, 255], border_width: ONE_BITS, corner_radius: SIX_BITS };
        assert(r.fill@ =~= seq![40u8, 44, 52, 255]);
        assert(r.border@ =~= seq![97u8, 175, 239, 255]);
        r
    }
}

/// Look of an edge: RGBA colour, width and dash period (0: solid) as
/// `f32` bit patterns.
#[derive(Debug, Clone, Copy)]
pub struct EdgeStyle {
    pub color: [u8; 4],
    pub width: u32,
    pub dash_period: u32,
}

impl Default for EdgeStyle {
    fn default() -> (r: Self)
        ensures
            r.color@ == seq![97u8, 175, 239, 160],
            r.width == ONE_BITS,
            r.dash_period == 0,
    {
        let r = EdgeStyle { color: [97, 175, 239, 160], width: ONE_BITS, dash_period: 0 };
        assert(r.color@ =~= seq![97u8, 175, 239, 160]);
        r
    }
}

/// The 64-bit hash `DefaultHasher::new()` gives a string.
pub uninterp spec fn str_hash(s: Seq<char>) -> u64;

/// `std::hash::Hash` of a `str` into a fresh `DefaultHasher`, then
/// `finish`: a 64-bit hash determined by the text alone.
#[verifier::external_body]
pub(crate) fn stable_hash_u64(s: &str) -> (r: u64)
    ensures
        r == str_hash(s@),
{
    let mut h = std::collections::hash_map::DefaultHasher::new();
    std::hash::Hash::hash(s, &mut h);
    std::hash::Hasher::finish(&h)
}

/// One node of a canvas, bound to the semantic id of what it shows.
#[derive(Debug, Clone)]
pub struct CanvasNode {
    pub id: CanvasNodeId,
    /// Canonical text of the semantic id (`realm:kind:key[#instance]`).
    pub semantic_id: String,
    pub kind: CanvasNodeKind,
    pub label: String,
    pub bounds: Rect,
    pub style: NodeStyle,
    pub status: NodeStatus,
}

impl CanvasNode {
    /// A node with the default look and status; its id is the hash of
    /// its semantic id, so the same object keeps the same node.
    pub fn new(semantic_id: &str, label: &str, kind: CanvasNodeKind, bounds: Rect) -> (r: Self)
        ensures
            r.id == str_hash(semantic_id@),
            r.semantic_id@ == semantic_id@,
            r.kind == kind,
            r.label@ == label@,
            r.bounds == bounds,
            default_node_style(r.style),
            r.status == NodeStatus::Okay,
    {
        CanvasNode {
            id: stable_hash_u64(semantic_id),
            semantic_id: string_of(&chars_of(semantic_id)),
            kind,
            label: string_of(&chars_of(label)),
            bounds,
            style: NodeStyle::default(),
            status: NodeStatus::Okay,
        }
    }
}

/// The default node look.
pub open spec fn default_node_style(s: NodeStyle) -> bool {
    s.fill@ == seq![40u8, 44, 52, 255] && s.border@ == seq![97u8, 175, 239, 255] && s.border_width == ONE_BITS
        && s.corner_radius == SIX_BITS
}

/// The default edge look.
pub open spec fn default_edge_style(s: EdgeStyle) -> bool {
    s.color@ == seq![97u8, 175, 239, 160] && s.width == ONE_BITS && s.dash_period == 0
}

/// The text `{:?}` gives a string: quoted, with escapes.
pub uninterp spec fn debug_text(s: Seq<char>) -> Seq<char>;

/// `<str as Debug>::fmt`, through `format!("{:?}", s)`.
#[verifier::external_body]
fn debug_quoted(s: &str) -> (r: String)
    ensures
        r@ == debug_text(s@),
{
    format!("{:?}", s)
}

/// The text `{:?}` gives an edge kind.
pub open spec fn edge_kind_debug(k: EdgeKind) -> Seq<char> {
    match k {
        EdgeKind::Imports => "Imports"@,
        EdgeKind::Calls => "Calls"@,
        EdgeKind::DependsOn => "DependsOn"@,
        EdgeKind::Produces => "Produces"@,
        EdgeKind::Triggers => "Triggers"@,
        EdgeKind::Mentions => "Mentions"@,
        EdgeKind::Tests => "Tests"@,
        EdgeKind::Spawned => "Spawned"@,
        EdgeKind::SucceededBy => "SucceededBy"@,
        EdgeKind::FailedBy => "FailedBy"@,
        EdgeKind::Custom(s) => "Custom("@ + debug_text(s@) + ")"@,
    }
}

impl EdgeKind {
    /// The text `{:?}` gives this kind.
    pub fn debug_name(&self) -> (r: String)
        ensures
            r@ == edge_kind_debug(*self),
    {
        match self {
            EdgeKind::Imports => string_of(&chars_of("Imports")),
            EdgeKind::Calls => string_of(&chars_of("Calls")),
            EdgeKind::DependsOn => string_of(&chars_of("DependsOn")),
            EdgeKind::Produces => string_of(&chars_of("Produces")),
            EdgeKind::Triggers => string_of(&chars_of("Triggers")),
            EdgeKind::Mentions => string_of(&chars_of("Mentions")),
            EdgeKind::Tests => string_of(&chars_of("Tests")),
            EdgeKind::Spawned => string_of(&chars_of("Spawned")),
            EdgeKind::SucceededBy => string_of(&chars_of("SucceededBy")),
            EdgeKind::FailedBy => string_of(&chars_of("FailedBy")),
            EdgeKind::Custom(s) => {
                let mut v = chars_of("Custom(");
                let q = debug_quoted(s.as_str());
                append_str(&mut v, q.as_str());
                append_str(&mut v, ")");
                string_of(&v)
            },
        }
    }
}

/// The text an edge's id is hashed from: `from->to:Kind`.
pub open spec fn edge_key(from: u64, to: u64, kind: EdgeKind) -> Seq<char> {
    decimal(from as nat) + "->"@ + decimal(to as nat) + ":"@ + edge_kind_debug(kind)
}

/// One edge of a canvas.
#[derive(Debug, Clone)]
pub struct CanvasEdge {
    pub id: CanvasEdgeId,
    pub from: CanvasNodeId,
    pub to: CanvasNodeId,
    pub kind: EdgeKind,
    pub style: EdgeStyle,
}

impl CanvasEdge {
    /// An edge with the default look; its id is the hash of its
    /// endpoints and kind.
    pub fn new(from: CanvasNodeId, to: CanvasNodeId, kind: EdgeKind) -> (r: Self)
        ensures
            r.id == str_hash(edge_key(from, to, kind)),
            r.from == from && r.to == to && r.kind == kind,
            default_edge_style(r.style),
    {
        let mut v: Vec<char> = Vec::new();
        append_decimal(&mut v, from);
        append_str(&mut v, "->");
        append_decimal(&mut v, to);
        append_str(&mut v, ":");
        let d = kind.debug_name();
        append_str(&mut v, d.as_str());
        let key = string_of(&v);
        assert(key@ =~= edge_key(from, to, kind));
        CanvasEdge { id: stable_hash_u64(key.as_str()), from, to, kind, style: EdgeStyle::default() }
    }
}


/// Microseconds since the Unix epoch, now.
#[verifier::external_body]
fn now_micros() -> i64 {
    chrono::Utc::now().timestamp_micros()
}

/// A 2D semantic canvas: nodes and edges keyed by id, the viewport,
/// the layout mode and the selection.
#[derive(Debug, Clone)]
pub struct Canvas {
    pub id: String,
    pub world_ref: Option<String>,
    pub nodes: HashMap<CanvasNodeId, CanvasNode>,
    pub edges: HashMap<CanvasEdgeId, CanvasEdge>,
    pub viewport: Viewport,
    pub layout: LayoutMode,
    pub selection: Selection,
}

/// The id a canvas created at `micros` gets: `canvas_<micros>`.
pub open spec fn canvas_id(micros: int) -> Seq<char> {
    "canvas_"@ + signed_decimal(micros)
}

/// An empty canvas: no nodes, edges, world or selection; the default
/// viewport and the layered layout.
pub open spec fn is_blank(c: Canvas) -> bool {
    &&& c.world_ref is None
    &&& c.nodes@ == Map::<CanvasNodeId, CanvasNode>::empty()
    &&& c.edges@ == Map::<CanvasEdgeId, CanvasEdge>::empty()
    &&& c.viewport == (Viewport { pan_x: 0, pan_y: 0, scale: ONE_BITS })
    &&& c.layout == LayoutMode::Layered
    &&& c.selection.nodes@.len() == 0
    &&& c.selection.edges@.len() == 0
}

/// Only the node map differs between `a` and `b`.
pub open spec fn same_but_nodes(a: Canvas, b: Canvas) -> bool {
    a.id == b.id && a.world_ref == b.world_ref && a.edges@ == b.edges@ && a.viewport == b.viewport
        && a.layout == b.layout && a.selection == b.selection
}

/// Only the edge map differs between `a` and `b`.
pub open spec fn same_but_edges(a: Canvas, b: Canvas) -> bool {
    a.id == b.id && a.world_ref == b.world_ref && a.nodes@ == b.nodes@ && a.viewport == b.viewport
        && a.layout == b.layout && a.selection == b.selection
}

impl Canvas {
    /// A blank canvas whose id records the creation time `micros`.
    pub fn new_at(micros: i64) -> (r: Self)
        ensures
            r.id@ == canvas_id(micros as int),
            is_blank(r),
    {
        let mut v = chars_of("canvas_");
        append_signed(&mut v, micros);
        Canvas {
            id: string_of(&v),
            world_ref: None,
            nodes: HashMap::new(),
            edges: HashMap::new(),
            viewport: Viewport::default(),
            layout: LayoutMode::default(),
            selection: Selection::default(),
        }
    }

    /// A blank canvas stamped with the current time.
    pub fn new() -> (r: Self)
        ensures
            exists|t: i64| r.id@ == canvas_id(t as int),
            is_blank(r),
    {
        let t = now_micros();
        Canvas::new_at(t)
    }

    /// Insert `node` under its id, replacing any node with that id.
    pub fn upsert_node(&mut self, node: CanvasNode)
        ensures
            final(self).nodes@ == old(self).nodes@.insert(node.id, node),
            same_but_nodes(*old(self), *final(self)),
    {
        broadcast use vstd::std_specs::hash::group_hash_axioms;
        self.nodes.insert(node.id, node);
    }

    /// Insert `edge` under its id, replacing any edge with that id.
    pub fn upsert_edge(&mut self, edge: CanvasEdge)
        ensures
            final(self).edges@ == old(self).edges@.insert(edge.id, edge),
            same_but_edges(*old(self), *final(self)),
    {
        broadcast use vstd::std_specs::hash::group_hash_axioms;
        self.edges.insert(edge.id, edge);
    }

    /// The id of a node bound to `semantic_id`, if there is one.
    pub fn node_for(&self, semantic_id: &str) -> (r: Option<CanvasNodeId>)
        ensures
            match r {
                Some(id) => exists|k: CanvasNodeId|
                    #![trigger self.nodes@[k]]
                    self.nodes@.contains_key(k) && self.nodes@[k].semantic_id@ == semantic_id@
                        && self.nodes@[k].id == id,
                None => forall|k: CanvasNodeId|
                    #![trigger self.nodes@[k]]
                    self.nodes@.contains_key(k) ==> self.nodes@[k].semantic_id@ != semantic_id@,
            },
    {
        broadcast use vstd::std_specs::hash::group_hash_axioms;
        let ghost all = vstd::std_specs::hash::spec_hash_map_iter(&self.nodes).remaining();
        let ghost mut seen: int = 0;
        for (k, n) in it: self.nodes.iter()
            invariant
                it.seq() == all,
                seen == it.index(),
                forall|j: int| 0 <= j < seen ==> (#[trigger] all[j]).1.semantic_id@ != semantic_id@,
        {
            assert((k, n) == all[seen]);
            if chars_eq_str(&chars_of(n.semantic_id.as_str()), semantic_id) {
                assert(self.nodes@.contains_key(*k) && self.nodes@[*k] == *n);
                return Some(n.id);
            }
            proof {
                seen = seen + 1;
            }
        }
        proof {
            assert forall|k: CanvasNodeId| #[trigger] self.nodes@.contains_key(k) implies self.nodes@[k].semantic_id@
                != semantic_id@ by {
                assert(all.contains((&k, &self.nodes@[k])));
            }
        }
        None
    }
}


/// A node as plain values, its look and status aside.
pub struct NodeView {
    pub id: CanvasNodeId,
    pub semantic_id: Seq<char>,
    pub kind: CanvasNodeKind,
    pub label: Seq<char>,
    pub bounds: Rect,
}

pub open spec fn node_view(n: CanvasNode) -> NodeView {
    NodeView { id: n.id, semantic_id: n.semantic_id@, kind: n.kind, label: n.label@, bounds: n.bounds }
}

/// The node `CanvasNode::new` makes from these arguments.
pub open spec fn new_node(semantic_id: Seq<char>, label: Seq<char>, kind: CanvasNodeKind, bounds: Rect) -> NodeView {
    NodeView { id: str_hash(semantic_id), semantic_id, kind, label, bounds }
}

/// An edge as plain values, its look aside.
pub struct EdgeView {
    pub id: CanvasEdgeId,
    pub from: CanvasNodeId,
    pub to: CanvasNodeId,
    pub kind: EdgeKind,
}

pub open spec fn edge_view(e: CanvasEdge) -> EdgeView {
    EdgeView { id: e.id, from: e.from, to: e.to, kind: e.kind }
}

/// The edge `CanvasEdge::new` makes from these arguments.
pub open spec fn new_edge(from: CanvasNodeId, to: CanvasNodeId, kind: EdgeKind) -> EdgeView {
    EdgeView { id: str_hash(edge_key(from, to, kind)), from, to, kind }
}

/// `m` after upserting each node of `ns` in order.
pub open spec fn upsert_nodes(m: Map<CanvasNodeId, NodeView>, ns: Seq<NodeView>) -> Map<CanvasNodeId, NodeView>
    decreases ns.len(),
{
    if ns.len() == 0 {
        m
    } else {
        upsert_nodes(m, ns.drop_last()).insert(ns.last().id, ns.last())
    }
}

/// `m` after upserting each edge of `es` in order.
pub open spec fn upsert_edges(m: Map<CanvasEdgeId, EdgeView>, es: Seq<EdgeView>) -> Map<CanvasEdgeId, EdgeView>
    decreases es.len(),
{
    if es.len() == 0 {
        m
    } else {
        upsert_edges(m, es.drop_last()).insert(es.last().id, es.last())
    }
}

/// The nodes of `m`, as plain values, are those of `v`, each with the
/// default look and status.
pub open spec fn nodes_are(m: Map<CanvasNodeId, CanvasNode>, v: Map<CanvasNodeId, NodeView>) -> bool {
    &&& m.dom() == v.dom()
    &&& forall|k: CanvasNodeId|
        #![trigger m[k]]
        m.contains_key(k) ==> node_view(m[k]) == v[k] && default_node_style(m[k].style) && m[k].status
            == NodeStatus::Okay
}

/// The edges of `m`, as plain values, are those of `v`, each with the
/// default look.
pub open spec fn edges_are(m: Map<CanvasEdgeId, CanvasEdge>, v: Map<CanvasEdgeId, EdgeView>) -> bool {
    &&& m.dom() == v.dom()
    &&& forall|k: CanvasEdgeId| #![trigger m[k]] m.contains_key(k) ==> edge_view(m[k]) == v[k] && default_edge_style(m[k].style)
}

impl Canvas {
    /// Upsert the node `CanvasNode::new` makes; its id.
    pub fn put_node(&mut self, semantic_id: &str, label: &str, kind: CanvasNodeKind, bounds: Rect) -> (id: CanvasNodeId)
        ensures
            id == str_hash(semantic_id@),
            forall|v: Map<CanvasNodeId, NodeView>| #[trigger]
                nodes_are(old(self).nodes@, v) ==> nodes_are(
                    final(self).nodes@,
                    v.insert(id, new_node(semantic_id@, label@, kind, bounds)),
                ),
            same_but_nodes(*old(self), *final(self)),
    {
        let n = CanvasNode::new(semantic_id, label, kind, bounds);
        let id = n.id;
        let ghost nn = n;
        self.upsert_node(n);
        assert forall|v: Map<CanvasNodeId, NodeView>| #[trigger]
            nodes_are(old(self).nodes@, v) implies nodes_are(
                self.nodes@,
                v.insert(id, new_node(semantic_id@, label@, kind, bounds)),
            ) by {
            assert(self.nodes@.dom() =~= v.insert(id, new_node(semantic_id@, label@, kind, bounds)).dom());
            assert(node_view(nn) == new_node(semantic_id@, label@, kind, bounds));
        }
        id
    }

    /// Upsert the edge `CanvasEdge::new` makes.
    pub fn put_edge(&mut self, from: CanvasNodeId, to: CanvasNodeId, kind: EdgeKind)
        ensures
            forall|v: Map<CanvasEdgeId, EdgeView>| #[trigger]
                edges_are(old(self).edges@, v) ==> edges_are(
                    final(self).edges@,
                    v.insert(new_edge(from, to, kind).id, new_edge(from, to, kind)),
                ),
            same_but_edges(*old(self), *final(self)),
    {
        let e = CanvasEdge::new(from, to, kind);
        let ghost ee = e;
        self.upsert_edge(e);
        assert forall|v: Map<CanvasEdgeId, EdgeView>| #[trigger]
            edges_are(old(self).edges@, v) implies edges_are(
                self.edges@,
                v.insert(new_edge(from, to, kind).id, new_edge(from, to, kind)),
            ) by {
            assert(self.edges@.dom() =~= v.insert(new_edge(from, to, kind).id, new_edge(from, to, kind)).dom());
            assert(edge_view(ee) == new_edge(from, to, kind));
        }
    }
}

} // verus!
