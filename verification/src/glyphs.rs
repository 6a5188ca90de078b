//! How the viewer marks node kinds and colours edge kinds.
use vstd::prelude::*;
use crate::canvas::{CanvasNodeKind, EdgeKind};

verus! {

/// The glyph drawn before a node's label.
pub open spec fn glyph_of(k: CanvasNodeKind) -> Seq<char> {
    match k {
        CanvasNodeKind::File => "📄"@,
        CanvasNodeKind::Function => "ƒ"@,
        CanvasNodeKind::Crate => "📦"@,
        CanvasNodeKind::Package | CanvasNodeKind::Module => "▤"@,
        CanvasNodeKind::Service => "⚡"@,
        CanvasNodeKind::Agent => "🤖"@,
        CanvasNodeKind::ToolCall | CanvasNodeKind::PlanStep => "▷"@,
        CanvasNodeKind::Test => "✓"@,
        CanvasNodeKind::Commit | CanvasNodeKind::Branch => "⎇"@,
        CanvasNodeKind::Diff => "Δ"@,
        CanvasNodeKind::TerminalBlock => "❯"@,
        CanvasNodeKind::DocumentSection => "¶"@,
        CanvasNodeKind::Npc => "👤"@,
        CanvasNodeKind::Quest => "✦"@,
        CanvasNodeKind::Tensor(_) | CanvasNodeKind::Custom(_) => "◆"@,
    }
}

/// The glyph drawn before a node's label: one per kind, tensors and
/// custom kinds sharing the generic diamond.
pub fn kind_glyph(kind: &CanvasNodeKind) -> (r: &'static str)
    ensures
        r@ == glyph_of(*kind),
{
    match kind {
        CanvasNodeKind::File => "📄",
        CanvasNodeKind::Function => "ƒ",
        CanvasNodeKind::Crate => "📦",
        CanvasNodeKind::Package | CanvasNodeKind::Module => "▤",
        CanvasNodeKind::Service => "⚡",
        CanvasNodeKind::Agent => "🤖",
        CanvasNodeKind::ToolCall | CanvasNodeKind::PlanStep => "▷",
        CanvasNodeKind::Test => "✓",
        CanvasNodeKind::Commit | CanvasNodeKind::Branch => "⎇",
        CanvasNodeKind::Diff => "Δ",
        CanvasNodeKind::TerminalBlock => "❯",
        CanvasNodeKind::DocumentSection => "¶",
        CanvasNodeKind::Npc => "👤",
        CanvasNodeKind::Quest => "✦",
        CanvasNodeKind::Tensor(_) | CanvasNodeKind::Custom(_) => "◆",
    }
}

/// An edge's colour, unmultiplied RGBA.
pub open spec fn edge_rgba_of(k: EdgeKind) -> (u8, u8, u8, u8) {
    match k {
        EdgeKind::Imports | EdgeKind::DependsOn => (97, 175, 239, 160),
        EdgeKind::Calls => (140, 200, 130, 160),
        EdgeKind::Produces | EdgeKind::Triggers => (220, 180, 110, 160),
        EdgeKind::Tests => (120, 200, 120, 160),
        EdgeKind::Spawned => (200, 120, 200, 160),
        EdgeKind::SucceededBy => (100, 200, 100, 160),
        EdgeKind::FailedBy => (220, 100, 100, 160),
        EdgeKind::Mentions | EdgeKind::Custom(_) => (140, 150, 165, 160),
    }
}

/// The colour an edge is drawn in, by kind.
pub fn edge_rgba(kind: &EdgeKind) -> (r: (u8, u8, u8, u8))
    ensures
        r == edge_rgba_of(*kind),
{
    match kind {
        EdgeKind::Imports | EdgeKind::DependsOn => (97, 175, 239, 160),
        EdgeKind::Calls => (140, 200, 130, 160),
        EdgeKind::Produces | EdgeKind::Triggers => (220, 180, 110, 160),
        EdgeKind::Tests => (120, 200, 120, 160),
        EdgeKind::Spawned => (200, 120, 200, 160),
        EdgeKind::SucceededBy => (100, 200, 100, 160),
        EdgeKind::FailedBy => (220, 100, 100, 160),
        EdgeKind::Mentions | EdgeKind::Custom(_) => (140, 150, 165, 160),
    }
}

/// Every node kind has a glyph.
pub proof fn lemma_every_kind_has_a_glyph(k: CanvasNodeKind)
    ensures
        glyph_of(k).len() > 0,
{
    reveal_strlit("📄");
    reveal_strlit("ƒ");
    reveal_strlit("📦");
    reveal_strlit("▤");
    reveal_strlit("⚡");
    reveal_strlit("🤖");
    reveal_strlit("▷");
    reveal_strlit("✓");
    reveal_strlit("⎇");
    reveal_strlit("Δ");
    reveal_strlit("❯");
    reveal_strlit("¶");
    reveal_strlit("👤");
    reveal_strlit("✦");
    reveal_strlit("◆");
}

} // verus!
