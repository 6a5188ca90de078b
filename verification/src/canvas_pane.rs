//! The canvas pane: palette commands, the agent patch sink and the
//! turning of selection input into patches.
use vstd::prelude::*;
use std::collections::VecDeque;
use crate::canvas::{Canvas, CanvasNodeId, CanvasView, Selection};
use crate::patch::{patch_error_text, run_ops, state_of, CanvasPatch, CanvasPatchOp};
use crate::text::{chars_of, string_of};

verus! {

/// Who may change the canvas: in `Explain` and `Operate` patches apply
/// at once; in `Agent` they wait for approval.
#[derive(Debug, Clone, Copy, PartialEq, Eq, Structural)]
pub enum CanvasMode {
    Explain,
    Operate,
    Agent,
}

impl Default for CanvasMode {
    fn default() -> (r: Self)
        ensures
            r == CanvasMode::Operate,
    {
        CanvasMode::Operate
    }
}

/// An action of the command palette that targets the canvas.
#[derive(Debug, Clone, PartialEq)]
pub enum CanvasCommand {
    OpenRepoCanvas,
    OpenAgentCanvas,
    OpenGitCanvas,
    OpenCommandTimeline,
    /// `semantic_id` in its canonical text form.
    RevealInCanvas { semantic_id: String },
    ExportCanvasSvg,
    ExportCanvasMermaid,
    SetView { view: CanvasView },
    SetMode { mode: CanvasMode },
}

pub open spec fn command_id(c: CanvasCommand) -> Seq<char> {
    match c {
        CanvasCommand::OpenRepoCanvas => "wish.canvas.open_repo"@,
        CanvasCommand::OpenAgentCanvas => "wish.canvas.open_agent"@,
        CanvasCommand::OpenGitCanvas => "wish.canvas.open_git"@,
        CanvasCommand::OpenCommandTimeline => "wish.canvas.open_command_timeline"@,
        CanvasCommand::RevealInCanvas { .. } => "wish.canvas.reveal"@,
        CanvasCommand::ExportCanvasSvg => "wish.canvas.export_svg"@,
        CanvasCommand::ExportCanvasMermaid => "wish.canvas.export_mermaid"@,
        CanvasCommand::SetView { .. } => "wish.canvas.set_view"@,
        CanvasCommand::SetMode { .. } => "wish.canvas.set_mode"@,
    }
}

pub open spec fn command_label(c: CanvasCommand) -> Seq<char> {
    match c {
        CanvasCommand::OpenRepoCanvas => "Open Repo Canvas"@,
        CanvasCommand::OpenAgentCanvas => "Open Agent Canvas"@,
        CanvasCommand::OpenGitCanvas => "Open Git Canvas"@,
        CanvasCommand::OpenCommandTimeline => "Open Command Timeline"@,
        CanvasCommand::RevealInCanvas { .. } => "Reveal in Canvas"@,
        CanvasCommand::ExportCanvasSvg => "Export Canvas as SVG"@,
        CanvasCommand::ExportCanvasMermaid => "Export Canvas as Mermaid"@,
        CanvasCommand::SetView { .. } => "Set Canvas View"@,
        CanvasCommand::SetMode { .. } => "Set Canvas Mode"@,
    }
}

impl CanvasCommand {
    /// The stable identifier the palette registers.
    pub fn id(&self) -> (r: &'static str)
        ensures
            r@ == command_id(*self),
    {
        match self {
            CanvasCommand::OpenRepoCanvas => "wish.canvas.open_repo",
            CanvasCommand::OpenAgentCanvas => "wish.canvas.open_agent",
            CanvasCommand::OpenGitCanvas => "wish.canvas.open_git",
            CanvasCommand::OpenCommandTimeline => "wish.canvas.open_command_timeline",
            CanvasCommand::RevealInCanvas { .. } => "wish.canvas.reveal",
            CanvasCommand::ExportCanvasSvg => "wish.canvas.export_svg",
            CanvasCommand::ExportCanvasMermaid => "wish.canvas.export_mermaid",
            CanvasCommand::SetView { .. } => "wish.canvas.set_view",
            CanvasCommand::SetMode { .. } => "wish.canvas.set_mode",
        }
    }

    /// The label the palette shows.
    pub fn label(&self) -> (r: &'static str)
        ensures
            r@ == command_label(*self),
    {
        match self {
            CanvasCommand::OpenRepoCanvas => "Open Repo Canvas",
            CanvasCommand::OpenAgentCanvas => "Open Agent Canvas",
            CanvasCommand::OpenGitCanvas => "Open Git Canvas",
            CanvasCommand::OpenCommandTimeline => "Open Command Timeline",
            CanvasCommand::RevealInCanvas { .. } => "Reveal in Canvas",
            CanvasCommand::ExportCanvasSvg => "Export Canvas as SVG",
            CanvasCommand::ExportCanvasMermaid => "Export Canvas as Mermaid",
            CanvasCommand::SetView { .. } => "Set Canvas View",
            CanvasCommand::SetMode { .. } => "Set Canvas Mode",
        }
    }
}

/// What became of a patch handed to the sink.
#[derive(Debug, Clone, PartialEq, Eq)]
pub enum SinkOutcome {
    Applied,
    PendingApproval,
    /// The patch failed; the text is the error's message.
    Error(String),
}

/// The outcome of applying a patch to `canvas`, given how it ended.
pub open spec fn outcome_of(r: Result<(), crate::canvas::CanvasPatchError>, o: SinkOutcome) -> bool {
    match r {
        Ok(_) => o == SinkOutcome::Applied,
        Err(e) => o matches SinkOutcome::Error(m) && m@ == patch_error_text(e),
    }
}

/// Receives the patches an agent emits, and either applies them or
/// holds them, oldest first, until they are approved or rejected.
#[derive(Debug)]
pub struct AgentSink {
    pub mode: CanvasMode,
    pending: VecDeque<CanvasPatch>,
}

/// Apply `patch` to `canvas` and report how it went.
fn apply_and_report(canvas: &mut Canvas, patch: CanvasPatch) -> (o: SinkOutcome)
    ensures
        ({
            let (st, r) = run_ops(state_of(*old(canvas)), patch.ops@);
            st == state_of(*final(canvas)) && outcome_of(r, o)
        }),
        final(canvas).id == old(canvas).id,
        final(canvas).world_ref == old(canvas).world_ref,
        final(canvas).viewport == old(canvas).viewport,
{
    match canvas.apply_patch(patch) {
        Ok(()) => SinkOutcome::Applied,
        Err(e) => SinkOutcome::Error(e.to_string()),
    }
}

impl View for AgentSink {
    /// The mode, and the patches waiting for approval, oldest first.
    type V = (CanvasMode, Seq<CanvasPatch>);

    closed spec fn view(&self) -> (CanvasMode, Seq<CanvasPatch>) {
        (self.mode, self.pending@)
    }
}

impl AgentSink {
    /// A sink with nothing pending.
    pub fn new(mode: CanvasMode) -> (r: Self)
        ensures
            r@.0 == mode,
            r@.1.len() == 0,
    {
        AgentSink { mode, pending: VecDeque::new() }
    }


    /// Take a patch from the agent: in `Agent` mode queue it, leaving
    /// the canvas alone; otherwise apply it at once.
    pub fn ingest(&mut self, canvas: &mut Canvas, patch: CanvasPatch) -> (o: SinkOutcome)
        ensures
            final(self)@.0 == old(self)@.0,
            old(self)@.0 == CanvasMode::Agent ==> {
                &&& o == SinkOutcome::PendingApproval
                &&& final(self)@.1 == old(self)@.1.push(patch)
                &&& *final(canvas) == *old(canvas)
            },
            old(self)@.0 != CanvasMode::Agent ==> {
                let (st, r) = run_ops(state_of(*old(canvas)), patch.ops@);
                &&& st == state_of(*final(canvas))
                &&& outcome_of(r, o)
                &&& final(self)@.1 == old(self)@.1
                &&& final(canvas).id == old(canvas).id
                &&& final(canvas).world_ref == old(canvas).world_ref
                &&& final(canvas).viewport == old(canvas).viewport
            },
    {
        match self.mode {
            CanvasMode::Agent => {
                self.pending.push_back(patch);
                SinkOutcome::PendingApproval
            },
            _ => apply_and_report(canvas, patch),
        }
    }

    /// Apply the oldest pending patch; `None` when nothing waits.
    pub fn approve_next(&mut self, canvas: &mut Canvas) -> (o: Option<SinkOutcome>)
        ensures
            final(self)@.0 == old(self)@.0,
            old(self)@.1.len() == 0 ==> o is None && final(self)@.1 == old(self)@.1 && *final(canvas) == *old(
                canvas,
            ),
            old(self)@.1.len() > 0 ==> {
                let (st, r) = run_ops(state_of(*old(canvas)), old(self)@.1[0].ops@);
                &&& o matches Some(out) && outcome_of(r, out)
                &&& st == state_of(*final(canvas))
                &&& final(self)@.1 == old(self)@.1.drop_first()
                &&& final(canvas).id == old(canvas).id
                &&& final(canvas).world_ref == old(canvas).world_ref
                &&& final(canvas).viewport == old(canvas).viewport
            },
    {
        match self.pending.pop_front() {
            None => None,
            Some(patch) => Some(apply_and_report(canvas, patch)),
        }
    }

    /// Drop the oldest pending patch; whether there was one.
    pub fn reject_next(&mut self) -> (dropped: bool)
        ensures
            final(self)@.0 == old(self)@.0,
            dropped == (old(self)@.1.len() > 0),
            dropped ==> final(self)@.1 == old(self)@.1.drop_first(),
            !dropped ==> final(self)@.1 == old(self)@.1,
    {
        self.pending.pop_front().is_some()
    }

    /// How many patches wait for approval.
    pub fn pending_len(&self) -> (n: usize)
        ensures
            n == self@.1.len(),
    {
        self.pending.len()
    }
}

impl Default for AgentSink {
    fn default() -> (r: Self)
        ensures
            r@.0 == CanvasMode::Operate,
            r@.1.len() == 0,
    {
        AgentSink::new(CanvasMode::Operate)
    }
}

/// A high-level input on the canvas; pan offsets and zoom factors are
/// `f32` bit patterns.
#[derive(Debug, Clone, Copy, PartialEq, Eq, Structural)]
pub enum CanvasInput {
    Pan { dx: u32, dy: u32 },
    Zoom { factor: u32 },
    Select { node_id: CanvasNodeId },
    DeselectAll,
    DoubleClick { node_id: CanvasNodeId },
}

/// The selection change an input asks for: selecting a node selects it
/// alone, deselecting clears the selection; other inputs ask for none
/// (pan and zoom move the viewport directly, a double click is handled
/// by the editor integration).
pub open spec fn input_selection(input: CanvasInput) -> Option<(Seq<CanvasNodeId>, Seq<u64>)> {
    match input {
        CanvasInput::Select { node_id } => Some((seq![node_id], Seq::empty())),
        CanvasInput::DeselectAll => Some((Seq::empty(), Seq::empty())),
        _ => None,
    }
}

/// Whether `op` sets the selection to `nodes` and `edges`.
pub open spec fn sets_selection(op: CanvasPatchOp, nodes: Seq<CanvasNodeId>, edges: Seq<u64>) -> bool {
    op matches CanvasPatchOp::SetSelection(s) && s.nodes@ == nodes && s.edges@ == edges
}

/// The patch an input turns into, if any: one `SetSelection`.
pub fn input_patch(input: CanvasInput) -> (r: Option<CanvasPatch>)
    ensures
        match input_selection(input) {
            None => r is None,
            Some((nodes, edges)) => r matches Some(p) && p.ops@.len() == 1 && sets_selection(p.ops@[0], nodes, edges),
        },
{
    match input {
        CanvasInput::Select { node_id } => {
            let mut nodes: Vec<CanvasNodeId> = Vec::new();
            nodes.push(node_id);
            let edges: Vec<u64> = Vec::new();
            assert(nodes@ =~= seq![node_id]);
            assert(edges@ =~= Seq::<u64>::empty());
            let mut ops: Vec<CanvasPatchOp> = Vec::new();
            ops.push(CanvasPatchOp::SetSelection(Selection { nodes, edges }));
            assert(sets_selection(ops@[0], seq![node_id], Seq::empty()));
            Some(CanvasPatch::new(ops))
        },
        CanvasInput::DeselectAll => {
            let mut ops: Vec<CanvasPatchOp> = Vec::new();
            let sel = Selection::default();
            assert(sel.nodes@ =~= Seq::<CanvasNodeId>::empty() && sel.edges@ =~= Seq::<u64>::empty());
            ops.push(CanvasPatchOp::SetSelection(sel));
            Some(CanvasPatch::new(ops))
        },
        _ => None,
    }
}

} // verus!
