//! Perspectives: lenses on one canvas and world.
//!
//! A perspective changes the palette, the layout, the preferred view
//! and which edges are emphasised; it never changes identity, so every
//! object keeps its place across lenses.
use vstd::prelude::*;
use crate::canvas::{CanvasNodeKind, EdgeKind, LayoutMode};
use crate::text::{ascii_lower, ascii_lower_chars, chars_eq_str, chars_of, contains, contains_str};

verus! {

/// Fifteen lenses in two tiers: eight domain lenses (Engineering to
/// Analytic) and seven scientific ones (Math to Biologic).
#[derive(Debug, Clone, Copy, PartialEq, Eq, Hash, Structural)]
pub enum Perspective {
    Engineering,
    Architecture,
    Spatial,
    Financial,
    Education,
    Scientific,
    Design,
    Analytic,
    Math,
    Geometry,
    Chemistry,
    Physics,
    Linguistic,
    Geologic,
    Biologic,
}

/// The tier a perspective belongs to.
#[derive(Debug, Clone, Copy, PartialEq, Eq, Hash, Structural)]
pub enum PerspectiveCategory {
    Domain,
    Science,
}

/// Flat canvas or 3D scene.
#[derive(Debug, Clone, Copy, PartialEq, Eq, Structural)]
pub enum ViewMode {
    Canvas2D,
    Scene3D,
}

/// An opaque 8-bit RGB colour.
#[derive(Debug, Clone, Copy, PartialEq, Eq, Structural)]
pub struct Rgb {
    pub r: u8,
    pub g: u8,
    pub b: u8,
}

impl Default for Perspective {
    fn default() -> (r: Self)
        ensures
            r == Perspective::Engineering,
    {
        Perspective::Engineering
    }
}

/// Every perspective, domain lenses first, in declaration order.
pub open spec fn all_spec() -> Seq<Perspective> {
    seq![
        Perspective::Engineering,
        Perspective::Architecture,
        Perspective::Spatial,
        Perspective::Financial,
        Perspective::Education,
        Perspective::Scientific,
        Perspective::Design,
        Perspective::Analytic,
        Perspective::Math,
        Perspective::Geometry,
        Perspective::Chemistry,
        Perspective::Physics,
        Perspective::Linguistic,
        Perspective::Geologic,
        Perspective::Biologic,
    ]
}

pub open spec fn category_spec(p: Perspective) -> PerspectiveCategory {
    match p {
        Perspective::Engineering => PerspectiveCategory::Domain,
        Perspective::Architecture => PerspectiveCategory::Domain,
        Perspective::Spatial => PerspectiveCategory::Domain,
        Perspective::Financial => PerspectiveCategory::Domain,
        Perspective::Education => PerspectiveCategory::Domain,
        Perspective::Scientific => PerspectiveCategory::Domain,
        Perspective::Design => PerspectiveCategory::Domain,
        Perspective::Analytic => PerspectiveCategory::Domain,
        Perspective::Math => PerspectiveCategory::Science,
        Perspective::Geometry => PerspectiveCategory::Science,
        Perspective::Chemistry => PerspectiveCategory::Science,
        Perspective::Physics => PerspectiveCategory::Science,
        Perspective::Linguistic => PerspectiveCategory::Science,
        Perspective::Geologic => PerspectiveCategory::Science,
        Perspective::Biologic => PerspectiveCategory::Science,
    }
}

pub open spec fn label_spec(p: Perspective) -> Seq<char> {
    match p {
        Perspective::Engineering => "🛠 Engineering"@,
        Perspective::Architecture => "🏛 Architecture"@,
        Perspective::Spatial => "🌐 Spatial"@,
        Perspective::Financial => "💰 Financial"@,
        Perspective::Education => "📚 Education"@,
        Perspective::Scientific => "🧪 Scientific"@,
        Perspective::Design => "🎨 Design"@,
        Perspective::Analytic => "📊 Analytic"@,
        Perspective::Math => "∑ Math"@,
        Perspective::Geometry => "△ Geometry"@,
        Perspective::Chemistry => "⚗ Chemistry"@,
        Perspective::Physics => "⚛ Physics"@,
        Perspective::Linguistic => "🗣 Linguistic"@,
        Perspective::Geologic => "🪨 Geologic"@,
        Perspective::Biologic => "🧬 Biologic"@,
    }
}

pub open spec fn slug_spec(p: Perspective) -> Seq<char> {
    match p {
        Perspective::Engineering => "engineering"@,
        Perspective::Architecture => "architecture"@,
        Perspective::Spatial => "spatial"@,
        Perspective::Financial => "financial"@,
        Perspective::Education => "education"@,
        Perspective::Scientific => "scientific"@,
        Perspective::Design => "design"@,
        Perspective::Analytic => "analytic"@,
        Perspective::Math => "math"@,
        Perspective::Geometry => "geometry"@,
        Perspective::Chemistry => "chemistry"@,
        Perspective::Physics => "physics"@,
        Perspective::Linguistic => "linguistic"@,
        Perspective::Geologic => "geologic"@,
        Perspective::Biologic => "biologic"@,
    }
}

/// The perspective a name selects: its slug or an alias, compared
/// after ASCII lower-casing.
pub open spec fn perspective_named(s: Seq<char>) -> Option<Perspective> {
    let l = ascii_lower(s);
    if l == "engineering"@ || l == "eng"@ || l == "code"@ {
        Some(Perspective::Engineering)
    } else if l == "architecture"@ || l == "arch"@ {
        Some(Perspective::Architecture)
    } else if l == "spatial"@ || l == "world"@ {
        Some(Perspective::Spatial)
    } else if l == "financial"@ || l == "finance"@ {
        Some(Perspective::Financial)
    } else if l == "education"@ || l == "edu"@ || l == "school"@ {
        Some(Perspective::Education)
    } else if l == "scientific"@ || l == "science"@ || l == "research"@ {
        Some(Perspective::Scientific)
    } else if l == "design"@ || l == "ux"@ {
        Some(Perspective::Design)
    } else if l == "analytic"@ || l == "analytics"@ || l == "data"@ {
        Some(Perspective::Analytic)
    } else if l == "math"@ || l == "mathematics"@ {
        Some(Perspective::Math)
    } else if l == "geometry"@ || l == "geo"@ || l == "shape"@ {
        Some(Perspective::Geometry)
    } else if l == "chemistry"@ || l == "chem"@ || l == "molecular"@ {
        Some(Perspective::Chemistry)
    } else if l == "physics"@ || l == "phys"@ || l == "mechanics"@ {
        Some(Perspective::Physics)
    } else if l == "linguistic"@ || l == "language"@ || l == "chat"@ || l == "dialog"@ {
        Some(Perspective::Linguistic)
    } else if l == "geologic"@ || l == "geology"@ || l == "strata"@ {
        Some(Perspective::Geologic)
    } else if l == "biologic"@ || l == "biology"@ || l == "bio"@ || l == "ecology"@ {
        Some(Perspective::Biologic)
    } else {
        None
    }
}

pub open spec fn tagline_spec(p: Perspective) -> Seq<char> {
    match p {
        Perspective::Engineering => "function / file / crate / call — the codegraph kingdom."@,
        Perspective::Architecture => "one node per crate. dep edges only. post-UML."@,
        Perspective::Spatial => "NPCs, sacred sites, scenes. positions in 3D."@,
        Perspective::Financial => "money flow. economic actors tinted by profile."@,
        Perspective::Education => "teachers, students, lessons, halls of learning."@,
        Perspective::Scientific => "hypotheses, experiments, results, citations."@,
        Perspective::Design => "components, variants, instances, tokens."@,
        Perspective::Analytic => "sources, transforms, metrics, dashboards."@,
        Perspective::Math => "concepts, theorems, proofs — the symbolic kingdom."@,
        Perspective::Geometry => "shapes, transforms, dimensions, constructions."@,
        Perspective::Chemistry => "atoms, bonds, reactions — molecular graph."@,
        Perspective::Physics => "position, momentum, energy, time — the physical Tensorium."@,
        Perspective::Linguistic => "turns, speakers, sentiment, topics — conversation graph."@,
        Perspective::Geologic => "strata, depth, age, formations — the deep time axis."@,
        Perspective::Biologic => "species, trophic levels, ecology, genome."@,
    }
}

pub open spec fn layout_spec(p: Perspective) -> LayoutMode {
    match p {
        Perspective::Engineering => LayoutMode::ForceDirected,
        Perspective::Architecture => LayoutMode::Layered,
        Perspective::Spatial => LayoutMode::ForceDirected,
        Perspective::Financial => LayoutMode::ForceDirected,
        Perspective::Education => LayoutMode::Layered,
        Perspective::Scientific => LayoutMode::Layered,
        Perspective::Design => LayoutMode::Grid,
        Perspective::Analytic => LayoutMode::Layered,
        Perspective::Math => LayoutMode::Layered,
        Perspective::Geometry => LayoutMode::ForceDirected,
        Perspective::Chemistry => LayoutMode::ForceDirected,
        Perspective::Physics => LayoutMode::ForceDirected,
        Perspective::Linguistic => LayoutMode::Layered,
        Perspective::Geologic => LayoutMode::Layered,
        Perspective::Biologic => LayoutMode::Layered,
    }
}

pub open spec fn emphasized_spec(p: Perspective) -> Seq<EdgeKind> {
    match p {
        Perspective::Engineering => seq![EdgeKind::Calls, EdgeKind::DependsOn, EdgeKind::Imports],
        Perspective::Architecture => seq![EdgeKind::DependsOn],
        Perspective::Spatial => seq![EdgeKind::Mentions, EdgeKind::Spawned],
        Perspective::Financial => seq![EdgeKind::Produces, EdgeKind::Triggers],
        Perspective::Education => seq![EdgeKind::Mentions, EdgeKind::Spawned, EdgeKind::Tests],
        Perspective::Scientific => seq![EdgeKind::Produces, EdgeKind::SucceededBy, EdgeKind::FailedBy],
        Perspective::Design => seq![EdgeKind::DependsOn, EdgeKind::Imports],
        Perspective::Analytic => seq![EdgeKind::Produces, EdgeKind::Triggers],
        Perspective::Math => seq![EdgeKind::Calls, EdgeKind::DependsOn],
        Perspective::Geometry => seq![EdgeKind::DependsOn, EdgeKind::Mentions],
        Perspective::Chemistry => seq![EdgeKind::DependsOn],
        Perspective::Physics => seq![EdgeKind::Triggers, EdgeKind::Produces, EdgeKind::SucceededBy],
        Perspective::Linguistic => seq![EdgeKind::Mentions, EdgeKind::SucceededBy],
        Perspective::Geologic => seq![EdgeKind::SucceededBy],
        Perspective::Biologic => seq![EdgeKind::SucceededBy, EdgeKind::Produces],
    }
}

impl Perspective {
    /// Every perspective, domain lenses first.
    pub const ALL: [Perspective; 15] = [
        Perspective::Engineering,
        Perspective::Architecture,
        Perspective::Spatial,
        Perspective::Financial,
        Perspective::Education,
        Perspective::Scientific,
        Perspective::Design,
        Perspective::Analytic,
        Perspective::Math,
        Perspective::Geometry,
        Perspective::Chemistry,
        Perspective::Physics,
        Perspective::Linguistic,
        Perspective::Geologic,
        Perspective::Biologic,
    ];

    /// Every perspective, domain lenses first, as a vector.
    pub fn all() -> (r: Vec<Perspective>)
        ensures
            r@ == all_spec(),
    {
        let r = vec![
            Perspective::Engineering,
            Perspective::Architecture,
            Perspective::Spatial,
            Perspective::Financial,
            Perspective::Education,
            Perspective::Scientific,
            Perspective::Design,
            Perspective::Analytic,
            Perspective::Math,
            Perspective::Geometry,
            Perspective::Chemistry,
            Perspective::Physics,
            Perspective::Linguistic,
            Perspective::Geologic,
            Perspective::Biologic,
        ];
        assert(r@ =~= all_spec());
        r
    }

    /// Which tier this perspective belongs to.
    pub fn category(self) -> (r: PerspectiveCategory)
        ensures
            r == category_spec(self),
    {
        match self {
            Perspective::Engineering => PerspectiveCategory::Domain,
            Perspective::Architecture => PerspectiveCategory::Domain,
            Perspective::Spatial => PerspectiveCategory::Domain,
            Perspective::Financial => PerspectiveCategory::Domain,
            Perspective::Education => PerspectiveCategory::Domain,
            Perspective::Scientific => PerspectiveCategory::Domain,
            Perspective::Design => PerspectiveCategory::Domain,
            Perspective::Analytic => PerspectiveCategory::Domain,
            Perspective::Math => PerspectiveCategory::Science,
            Perspective::Geometry => PerspectiveCategory::Science,
            Perspective::Chemistry => PerspectiveCategory::Science,
            Perspective::Physics => PerspectiveCategory::Science,
            Perspective::Linguistic => PerspectiveCategory::Science,
            Perspective::Geologic => PerspectiveCategory::Science,
            Perspective::Biologic => PerspectiveCategory::Science,
        }
    }

    /// Short label for the toolbar.
    pub fn label(self) -> (r: &'static str)
        ensures
            r@ == label_spec(self),
    {
        match self {
            Perspective::Engineering => "🛠 Engineering",
            Perspective::Architecture => "🏛 Architecture",
            Perspective::Spatial => "🌐 Spatial",
            Perspective::Financial => "💰 Financial",
            Perspective::Education => "📚 Education",
            Perspective::Scientific => "🧪 Scientific",
            Perspective::Design => "🎨 Design",
            Perspective::Analytic => "📊 Analytic",
            Perspective::Math => "∑ Math",
            Perspective::Geometry => "△ Geometry",
            Perspective::Chemistry => "⚗ Chemistry",
            Perspective::Physics => "⚛ Physics",
            Perspective::Linguistic => "🗣 Linguistic",
            Perspective::Geologic => "🪨 Geologic",
            Perspective::Biologic => "🧬 Biologic",
        }
    }

    /// Machine-readable name accepted by the `--perspective` flag.
    pub fn slug(self) -> (r: &'static str)
        ensures
            r@ == slug_spec(self),
    {
        match self {
            Perspective::Engineering => "engineering",
            Perspective::Architecture => "architecture",
            Perspective::Spatial => "spatial",
            Perspective::Financial => "financial",
            Perspective::Education => "education",
            Perspective::Scientific => "scientific",
            Perspective::Design => "design",
            Perspective::Analytic => "analytic",
            Perspective::Math => "math",
            Perspective::Geometry => "geometry",
            Perspective::Chemistry => "chemistry",
            Perspective::Physics => "physics",
            Perspective::Linguistic => "linguistic",
            Perspective::Geologic => "geologic",
            Perspective::Biologic => "biologic",
        }
    }

    /// Parse a slug or alias, ignoring ASCII case.
    pub fn from_slug(s: &str) -> (r: Option<Self>)
        ensures
            r == perspective_named(s@),
    {
        let l = ascii_lower_chars(&chars_of(s));
        if chars_eq_str(&l, "engineering") || chars_eq_str(&l, "eng") || chars_eq_str(&l, "code") {
            Some(Perspective::Engineering)
        } else if chars_eq_str(&l, "architecture") || chars_eq_str(&l, "arch") {
            Some(Perspective::Architecture)
        } else if chars_eq_str(&l, "spatial") || chars_eq_str(&l, "world") {
            Some(Perspective::Spatial)
        } else if chars_eq_str(&l, "financial") || chars_eq_str(&l, "finance") {
            Some(Perspective::Financial)
        } else if chars_eq_str(&l, "education") || chars_eq_str(&l, "edu") || chars_eq_str(&l, "school") {
            Some(Perspective::Education)
        } else if chars_eq_str(&l, "scientific") || chars_eq_str(&l, "science") || chars_eq_str(&l, "research") {
            Some(Perspective::Scientific)
        } else if chars_eq_str(&l, "design") || chars_eq_str(&l, "ux") {
            Some(Perspective::Design)
        } else if chars_eq_str(&l, "analytic") || chars_eq_str(&l, "analytics") || chars_eq_str(&l, "data") {
            Some(Perspective::Analytic)
        } else if chars_eq_str(&l, "math") || chars_eq_str(&l, "mathematics") {
            Some(Perspective::Math)
        } else if chars_eq_str(&l, "geometry") || chars_eq_str(&l, "geo") || chars_eq_str(&l, "shape") {
            Some(Perspective::Geometry)
        } else if chars_eq_str(&l, "chemistry") || chars_eq_str(&l, "chem") || chars_eq_str(&l, "molecular") {
            Some(Perspective::Chemistry)
        } else if chars_eq_str(&l, "physics") || chars_eq_str(&l, "phys") || chars_eq_str(&l, "mechanics") {
            Some(Perspective::Physics)
        } else if chars_eq_str(&l, "linguistic") || chars_eq_str(&l, "language") || chars_eq_str(&l, "chat") || chars_eq_str(&l, "dialog") {
            Some(Perspective::Linguistic)
        } else if chars_eq_str(&l, "geologic") || chars_eq_str(&l, "geology") || chars_eq_str(&l, "strata") {
            Some(Perspective::Geologic)
        } else if chars_eq_str(&l, "biologic") || chars_eq_str(&l, "biology") || chars_eq_str(&l, "bio") || chars_eq_str(&l, "ecology") {
            Some(Perspective::Biologic)
        } else {
            None
        }
    }

    /// One sentence naming what the lens shows.
    pub fn tagline(self) -> (r: &'static str)
        ensures
            r@ == tagline_spec(self),
    {
        match self {
            Perspective::Engineering => "function / file / crate / call — the codegraph kingdom.",
            Perspective::Architecture => "one node per crate. dep edges only. post-UML.",
            Perspective::Spatial => "NPCs, sacred sites, scenes. positions in 3D.",
            Perspective::Financial => "money flow. economic actors tinted by profile.",
            Perspective::Education => "teachers, students, lessons, halls of learning.",
            Perspective::Scientific => "hypotheses, experiments, results, citations.",
            Perspective::Design => "components, variants, instances, tokens.",
            Perspective::Analytic => "sources, transforms, metrics, dashboards.",
            Perspective::Math => "concepts, theorems, proofs — the symbolic kingdom.",
            Perspective::Geometry => "shapes, transforms, dimensions, constructions.",
            Perspective::Chemistry => "atoms, bonds, reactions — molecular graph.",
            Perspective::Physics => "position, momentum, energy, time — the physical Tensorium.",
            Perspective::Linguistic => "turns, speakers, sentiment, topics — conversation graph.",
            Perspective::Geologic => "strata, depth, age, formations — the deep time axis.",
            Perspective::Biologic => "species, trophic levels, ecology, genome.",
        }
    }

    /// Default canvas layout for this lens.
    pub fn default_layout(self) -> (r: LayoutMode)
        ensures
            r == layout_spec(self),
    {
        match self {
            Perspective::Engineering => LayoutMode::ForceDirected,
            Perspective::Architecture => LayoutMode::Layered,
            Perspective::Spatial => LayoutMode::ForceDirected,
            Perspective::Financial => LayoutMode::ForceDirected,
            Perspective::Education => LayoutMode::Layered,
            Perspective::Scientific => LayoutMode::Layered,
            Perspective::Design => LayoutMode::Grid,
            Perspective::Analytic => LayoutMode::Layered,
            Perspective::Math => LayoutMode::Layered,
            Perspective::Geometry => LayoutMode::ForceDirected,
            Perspective::Chemistry => LayoutMode::ForceDirected,
            Perspective::Physics => LayoutMode::ForceDirected,
            Perspective::Linguistic => LayoutMode::Layered,
            Perspective::Geologic => LayoutMode::Layered,
            Perspective::Biologic => LayoutMode::Layered,
        }
    }

    /// Only the spatial lens opens in the 3D scene by default.
    pub fn prefers_3d(self) -> (r: bool)
        ensures
            r == (self == Perspective::Spatial),
    {
        match self {
            Perspective::Spatial => true,
            _ => false,
        }
    }

    /// Edge kinds drawn at full opacity; the others are faded.
    pub fn emphasized_edges(self) -> (r: Vec<EdgeKind>)
        ensures
            r@ == emphasized_spec(self),
    {
        let r = match self {
            Perspective::Engineering => vec![EdgeKind::Calls, EdgeKind::DependsOn, EdgeKind::Imports],
            Perspective::Architecture => vec![EdgeKind::DependsOn],
            Perspective::Spatial => vec![EdgeKind::Mentions, EdgeKind::Spawned],
            Perspective::Financial => vec![EdgeKind::Produces, EdgeKind::Triggers],
            Perspective::Education => vec![EdgeKind::Mentions, EdgeKind::Spawned, EdgeKind::Tests],
            Perspective::Scientific => vec![EdgeKind::Produces, EdgeKind::SucceededBy, EdgeKind::FailedBy],
            Perspective::Design => vec![EdgeKind::DependsOn, EdgeKind::Imports],
            Perspective::Analytic => vec![EdgeKind::Produces, EdgeKind::Triggers],
            Perspective::Math => vec![EdgeKind::Calls, EdgeKind::DependsOn],
            Perspective::Geometry => vec![EdgeKind::DependsOn, EdgeKind::Mentions],
            Perspective::Chemistry => vec![EdgeKind::DependsOn],
            Perspective::Physics => vec![EdgeKind::Triggers, EdgeKind::Produces, EdgeKind::SucceededBy],
            Perspective::Linguistic => vec![EdgeKind::Mentions, EdgeKind::SucceededBy],
            Perspective::Geologic => vec![EdgeKind::SucceededBy],
            Perspective::Biologic => vec![EdgeKind::SucceededBy, EdgeKind::Produces],
        };
        proof {
            assert(r@ =~= emphasized_spec(self));
        }
        r
    }
}

/// `c * pct / 100`, rounded down: a channel scaled to `pct` percent.
pub open spec fn scaled(c: u8, pct: u8) -> u8 {
    (c * pct / 100) as u8
}

/// A colour darkened to `pct` percent of each channel.
pub open spec fn fade_spec(c: Rgb, pct: u8) -> Rgb {
    Rgb { r: scaled(c.r, pct), g: scaled(c.g, pct), b: scaled(c.b, pct) }
}

/// A custom node kind whose name contains `pat`.
pub open spec fn custom_has(k: CanvasNodeKind, pat: Seq<char>) -> bool {
    match k {
        CanvasNodeKind::Custom(s) => contains(s@, pat),
        _ => false,
    }
}

/// A custom node kind named exactly `name`.
pub open spec fn custom_is(k: CanvasNodeKind, name: Seq<char>) -> bool {
    match k {
        CanvasNodeKind::Custom(s) => s@ == name,
        _ => false,
    }
}

/// The engineering palette, which the other lenses fall back to.
pub open spec fn default_tint_spec(k: CanvasNodeKind) -> Rgb {
    match k {
        CanvasNodeKind::File => Rgb { r: 56, g: 80, b: 110 },
        CanvasNodeKind::Function => Rgb { r: 82, g: 112, b: 70 },
        CanvasNodeKind::Crate => Rgb { r: 150, g: 100, b: 50 },
        CanvasNodeKind::Package | CanvasNodeKind::Module => Rgb { r: 110, g: 90, b: 130 },
        CanvasNodeKind::Service => Rgb { r: 70, g: 110, b: 140 },
        CanvasNodeKind::Agent => Rgb { r: 140, g: 90, b: 130 },
        CanvasNodeKind::ToolCall | CanvasNodeKind::PlanStep => Rgb { r: 120, g: 110, b: 60 },
        CanvasNodeKind::Test => Rgb { r: 80, g: 130, b: 90 },
        CanvasNodeKind::Commit | CanvasNodeKind::Branch => Rgb { r: 90, g: 100, b: 130 },
        CanvasNodeKind::Diff => Rgb { r: 150, g: 80, b: 70 },
        CanvasNodeKind::TerminalBlock => Rgb { r: 50, g: 60, b: 60 },
        CanvasNodeKind::DocumentSection => Rgb { r: 80, g: 90, b: 100 },
        CanvasNodeKind::Npc => Rgb { r: 160, g: 110, b: 130 },
        CanvasNodeKind::Quest => Rgb { r: 130, g: 120, b: 70 },
        CanvasNodeKind::Tensor(_) => Rgb { r: 90, g: 100, b: 110 },
        CanvasNodeKind::Custom(_) => Rgb { r: 90, g: 100, b: 110 },
    }
}

/// The colour a lens paints a node kind in.
pub open spec fn tint_spec(p: Perspective, k: CanvasNodeKind) -> Rgb {
    let base = default_tint_spec(k);
    match p {
        Perspective::Engineering => base,
        Perspective::Architecture => if k is Crate {
            Rgb { r: 180, g: 130, b: 70 }
        } else if k is Package || k is Module {
            Rgb { r: 140, g: 110, b: 160 }
        } else {
            fade_spec(base, 50)
        },
        Perspective::Spatial => if k is Npc {
            Rgb { r: 190, g: 140, b: 160 }
        } else if custom_has(k, "sacred"@) {
            Rgb { r: 220, g: 180, b: 110 }
        } else if custom_is(k, "world"@) {
            Rgb { r: 70, g: 110, b: 160 }
        } else if k is Quest {
            Rgb { r: 150, g: 130, b: 80 }
        } else {
            base
        },
        Perspective::Financial => if k is Npc {
            Rgb { r: 220, g: 180, b: 90 }
        } else if custom_has(k, "sacred"@) {
            Rgb { r: 120, g: 120, b: 110 }
        } else {
            fade_spec(base, 60)
        },
        Perspective::Education => if k is Npc {
            Rgb { r: 150, g: 200, b: 130 }
        } else if k is Agent {
            Rgb { r: 120, g: 170, b: 220 }
        } else if custom_has(k, "sacred"@) {
            Rgb { r: 180, g: 170, b: 90 }
        } else {
            fade_spec(base, 60)
        },
        Perspective::Scientific => if k is Test {
            Rgb { r: 80, g: 200, b: 130 }
        } else if k is Function {
            Rgb { r: 120, g: 160, b: 200 }
        } else if k is Custom {
            Rgb { r: 170, g: 130, b: 200 }
        } else {
            fade_spec(base, 60)
        },
        Perspective::Design => if k is Custom {
            Rgb { r: 200, g: 140, b: 180 }
        } else if k is Module || k is Package {
            Rgb { r: 150, g: 110, b: 160 }
        } else {
            fade_spec(base, 55)
        },
        Perspective::Analytic => if k is Service {
            Rgb { r: 70, g: 130, b: 180 }
        } else if k is Test {
            Rgb { r: 110, g: 180, b: 110 }
        } else if k is Function {
            Rgb { r: 140, g: 150, b: 170 }
        } else {
            fade_spec(base, 60)
        },
        Perspective::Math => if k is Function {
            Rgb { r: 120, g: 160, b: 220 }
        } else if k is Custom {
            Rgb { r: 170, g: 130, b: 220 }
        } else {
            fade_spec(base, 55)
        },
        Perspective::Geometry => if k is Custom {
            Rgb { r: 220, g: 170, b: 120 }
        } else if k is Module {
            Rgb { r: 180, g: 140, b: 110 }
        } else {
            fade_spec(base, 55)
        },
        Perspective::Chemistry => if custom_has(k, "atom"@) {
            Rgb { r: 200, g: 90, b: 90 }
        } else if custom_has(k, "bond"@) {
            Rgb { r: 140, g: 140, b: 160 }
        } else if custom_has(k, "molecule"@) {
            Rgb { r: 110, g: 180, b: 110 }
        } else {
            fade_spec(base, 60)
        },
        Perspective::Physics => if custom_has(k, "particle"@) {
            Rgb { r: 220, g: 200, b: 80 }
        } else if custom_has(k, "field"@) {
            Rgb { r: 80, g: 160, b: 200 }
        } else if custom_has(k, "force"@) {
            Rgb { r: 200, g: 110, b: 80 }
        } else {
            fade_spec(base, 60)
        },
        Perspective::Linguistic => if custom_has(k, "turn"@) {
            Rgb { r: 120, g: 180, b: 220 }
        } else if custom_has(k, "speaker"@) {
            Rgb { r: 220, g: 160, b: 200 }
        } else if k is Agent {
            Rgb { r: 140, g: 190, b: 220 }
        } else if k is Npc {
            Rgb { r: 190, g: 140, b: 200 }
        } else if k is DocumentSection {
            Rgb { r: 160, g: 160, b: 180 }
        } else {
            fade_spec(base, 60)
        },
        Perspective::Geologic => if custom_has(k, "stratum"@) || custom_has(k, "layer"@) {
            Rgb { r: 160, g: 110, b: 80 }
        } else if custom_has(k, "formation"@) {
            Rgb { r: 120, g: 100, b: 90 }
        } else {
            fade_spec(base, 50)
        },
        Perspective::Biologic => if custom_has(k, "species"@) {
            Rgb { r: 120, g: 180, b: 110 }
        } else if custom_has(k, "genome"@) {
            Rgb { r: 180, g: 140, b: 120 }
        } else if k is Npc {
            Rgb { r: 140, g: 200, b: 130 }
        } else {
            fade_spec(base, 55)
        },
    }
}

fn custom_contains(kind: &CanvasNodeKind, pat: &str) -> (b: bool)
    ensures
        b == custom_has(*kind, pat@),
{
    match kind {
        CanvasNodeKind::Custom(s) => contains_str(&chars_of(s.as_str()), pat),
        _ => false,
    }
}

fn custom_equals(kind: &CanvasNodeKind, name: &str) -> (b: bool)
    ensures
        b == custom_is(*kind, name@),
{
    match kind {
        CanvasNodeKind::Custom(s) => chars_eq_str(&chars_of(s.as_str()), name),
        _ => false,
    }
}

fn fade(c: Rgb, pct: u8) -> (r: Rgb)
    requires
        pct <= 100,
    ensures
        r == fade_spec(c, pct),
{
    proof {
        assert(c.r * pct <= 255 * 100) by (nonlinear_arith)
            requires
                c.r <= 255,
                pct <= 100,
        ;
        assert(c.g * pct <= 255 * 100) by (nonlinear_arith)
            requires
                c.g <= 255,
                pct <= 100,
        ;
        assert(c.b * pct <= 255 * 100) by (nonlinear_arith)
            requires
                c.b <= 255,
                pct <= 100,
        ;
    }
    let r = (c.r as u32 * pct as u32 / 100) as u8;
    let g = (c.g as u32 * pct as u32 / 100) as u8;
    let b = (c.b as u32 * pct as u32 / 100) as u8;
    Rgb { r, g, b }
}

/// The engineering palette, which the other lenses fall back to.
pub fn default_tint(kind: &CanvasNodeKind) -> (r: Rgb)
    ensures
        r == default_tint_spec(*kind),
{
    match kind {
        CanvasNodeKind::File => Rgb { r: 56, g: 80, b: 110 },
        CanvasNodeKind::Function => Rgb { r: 82, g: 112, b: 70 },
        CanvasNodeKind::Crate => Rgb { r: 150, g: 100, b: 50 },
        CanvasNodeKind::Package | CanvasNodeKind::Module => Rgb { r: 110, g: 90, b: 130 },
        CanvasNodeKind::Service => Rgb { r: 70, g: 110, b: 140 },
        CanvasNodeKind::Agent => Rgb { r: 140, g: 90, b: 130 },
        CanvasNodeKind::ToolCall | CanvasNodeKind::PlanStep => Rgb { r: 120, g: 110, b: 60 },
        CanvasNodeKind::Test => Rgb { r: 80, g: 130, b: 90 },
        CanvasNodeKind::Commit | CanvasNodeKind::Branch => Rgb { r: 90, g: 100, b: 130 },
        CanvasNodeKind::Diff => Rgb { r: 150, g: 80, b: 70 },
        CanvasNodeKind::TerminalBlock => Rgb { r: 50, g: 60, b: 60 },
        CanvasNodeKind::DocumentSection => Rgb { r: 80, g: 90, b: 100 },
        CanvasNodeKind::Npc => Rgb { r: 160, g: 110, b: 130 },
        CanvasNodeKind::Quest => Rgb { r: 130, g: 120, b: 70 },
        CanvasNodeKind::Tensor(_) => Rgb { r: 90, g: 100, b: 110 },
        CanvasNodeKind::Custom(_) => Rgb { r: 90, g: 100, b: 110 },
    }
}

impl Perspective {
    /// The colour this lens paints a node kind in; kinds a lens does not
    /// single out keep the engineering colour, usually faded.
    pub fn tint(self, kind: &CanvasNodeKind) -> (r: Rgb)
        ensures
            r == tint_spec(self, *kind),
    {
        let base = default_tint(kind);
        match self {
            Perspective::Engineering => base,
            Perspective::Architecture => {
                if matches!(kind, CanvasNodeKind::Crate) {
                    Rgb { r: 180, g: 130, b: 70 }
                } else if matches!(kind, CanvasNodeKind::Package) || matches!(kind, CanvasNodeKind::Module) {
                    Rgb { r: 140, g: 110, b: 160 }
                } else {
                    fade(base, 50)
                }
            },
            Perspective::Spatial => {
                if matches!(kind, CanvasNodeKind::Npc) {
                    Rgb { r: 190, g: 140, b: 160 }
                } else if custom_contains(kind, "sacred") {
                    Rgb { r: 220, g: 180, b: 110 }
                } else if custom_equals(kind, "world") {
                    Rgb { r: 70, g: 110, b: 160 }
                } else if matches!(kind, CanvasNodeKind::Quest) {
                    Rgb { r: 150, g: 130, b: 80 }
                } else {
                    base
                }
            },
            Perspective::Financial => {
                if matches!(kind, CanvasNodeKind::Npc) {
                    Rgb { r: 220, g: 180, b: 90 }
                } else if custom_contains(kind, "sacred") {
                    Rgb { r: 120, g: 120, b: 110 }
                } else {
                    fade(base, 60)
                }
            },
            Perspective::Education => {
                if matches!(kind, CanvasNodeKind::Npc) {
                    Rgb { r: 150, g: 200, b: 130 }
                } else if matches!(kind, CanvasNodeKind::Agent) {
                    Rgb { r: 120, g: 170, b: 220 }
                } else if custom_contains(kind, "sacred") {
                    Rgb { r: 180, g: 170, b: 90 }
                } else {
                    fade(base, 60)
                }
            },
            Perspective::Scientific => {
                if matches!(kind, CanvasNodeKind::Test) {
                    Rgb { r: 80, g: 200, b: 130 }
                } else if matches!(kind, CanvasNodeKind::Function) {
                    Rgb { r: 120, g: 160, b: 200 }
                } else if matches!(kind, CanvasNodeKind::Custom(_)) {
                    Rgb { r: 170, g: 130, b: 200 }
                } else {
                    fade(base, 60)
                }
            },
            Perspective::Design => {
                if matches!(kind, CanvasNodeKind::Custom(_)) {
                    Rgb { r: 200, g: 140, b: 180 }
                } else if matches!(kind, CanvasNodeKind::Module) || matches!(kind, CanvasNodeKind::Package) {
                    Rgb { r: 150, g: 110, b: 160 }
                } else {
                    fade(base, 55)
                }
            },
            Perspective::Analytic => {
                if matches!(kind, CanvasNodeKind::Service) {
                    Rgb { r: 70, g: 130, b: 180 }
                } else if matches!(kind, CanvasNodeKind::Test) {
                    Rgb { r: 110, g: 180, b: 110 }
                } else if matches!(kind, CanvasNodeKind::Function) {
                    Rgb { r: 140, g: 150, b: 170 }
                } else {
                    fade(base, 60)
                }
            },
            Perspective::Math => {
                if matches!(kind, CanvasNodeKind::Function) {
                    Rgb { r: 120, g: 160, b: 220 }
                } else if matches!(kind, CanvasNodeKind::Custom(_)) {
                    Rgb { r: 170, g: 130, b: 220 }
                } else {
                    fade(base, 55)
                }
            },
            Perspective::Geometry => {
                if matches!(kind, CanvasNodeKind::Custom(_)) {
                    Rgb { r: 220, g: 170, b: 120 }
                } else if matches!(kind, CanvasNodeKind::Module) {
                    Rgb { r: 180, g: 140, b: 110 }
                } else {
                    fade(base, 55)
                }
            },
            Perspective::Chemistry => {
                if custom_contains(kind, "atom") {
                    Rgb { r: 200, g: 90, b: 90 }
                } else if custom_contains(kind, "bond") {
                    Rgb { r: 140, g: 140, b: 160 }
                } else if custom_contains(kind, "molecule") {
                    Rgb { r: 110, g: 180, b: 110 }
                } else {
                    fade(base, 60)
                }
            },
            Perspective::Physics => {
                if custom_contains(kind, "particle") {
                    Rgb { r: 220, g: 200, b: 80 }
                } else if custom_contains(kind, "field") {
                    Rgb { r: 80, g: 160, b: 200 }
                } else if custom_contains(kind, "force") {
                    Rgb { r: 200, g: 110, b: 80 }
                } else {
                    fade(base, 60)
                }
            },
            Perspective::Linguistic => {
                if custom_contains(kind, "turn") {
                    Rgb { r: 120, g: 180, b: 220 }
                } else if custom_contains(kind, "speaker") {
                    Rgb { r: 220, g: 160, b: 200 }
                } else if matches!(kind, CanvasNodeKind::Agent) {
                    Rgb { r: 140, g: 190, b: 220 }
                } else if matches!(kind, CanvasNodeKind::Npc) {
                    Rgb { r: 190, g: 140, b: 200 }
                } else if matches!(kind, CanvasNodeKind::DocumentSection) {
                    Rgb { r: 160, g: 160, b: 180 }
                } else {
                    fade(base, 60)
                }
            },
            Perspective::Geologic => {
                if custom_contains(kind, "stratum") || custom_contains(kind, "layer") {
                    Rgb { r: 160, g: 110, b: 80 }
                } else if custom_contains(kind, "formation") {
                    Rgb { r: 120, g: 100, b: 90 }
                } else {
                    fade(base, 50)
                }
            },
            Perspective::Biologic => {
                if custom_contains(kind, "species") {
                    Rgb { r: 120, g: 180, b: 110 }
                } else if custom_contains(kind, "genome") {
                    Rgb { r: 180, g: 140, b: 120 }
                } else if matches!(kind, CanvasNodeKind::Npc) {
                    Rgb { r: 140, g: 200, b: 130 }
                } else {
                    fade(base, 55)
                }
            },
        }
    }
}

/// Every perspective's slug selects that perspective again.
pub proof fn lemma_slug_round_trip(p: Perspective)
    ensures
        perspective_named(slug_spec(p)) == Some(p),
{
    reveal_strlit("engineering");
    reveal_strlit("eng");
    reveal_strlit("code");
    reveal_strlit("architecture");
    reveal_strlit("arch");
    reveal_strlit("spatial");
    reveal_strlit("world");
    reveal_strlit("financial");
    reveal_strlit("finance");
    reveal_strlit("education");
    reveal_strlit("edu");
    reveal_strlit("school");
    reveal_strlit("scientific");
    reveal_strlit("science");
    reveal_strlit("research");
    reveal_strlit("design");
    reveal_strlit("ux");
    reveal_strlit("analytic");
    reveal_strlit("analytics");
    reveal_strlit("data");
    reveal_strlit("math");
    reveal_strlit("mathematics");
    reveal_strlit("geometry");
    reveal_strlit("geo");
    reveal_strlit("shape");
    reveal_strlit("chemistry");
    reveal_strlit("chem");
    reveal_strlit("molecular");
    reveal_strlit("physics");
    reveal_strlit("phys");
    reveal_strlit("mechanics");
    reveal_strlit("linguistic");
    reveal_strlit("language");
    reveal_strlit("chat");
    reveal_strlit("dialog");
    reveal_strlit("geologic");
    reveal_strlit("geology");
    reveal_strlit("strata");
    reveal_strlit("biologic");
    reveal_strlit("biology");
    reveal_strlit("bio");
    reveal_strlit("ecology");
    match p {
        Perspective::Engineering => {
            assert(ascii_lower("engineering"@) =~= "engineering"@);
        },
        Perspective::Architecture => {
            assert(ascii_lower("architecture"@) =~= "architecture"@);
            assert("architecture"@.len() != "engineering"@.len());
            assert("architecture"@.len() != "eng"@.len());
            assert("architecture"@.len() != "code"@.len());
        },
        Perspective::Spatial => {
            assert(ascii_lower("spatial"@) =~= "spatial"@);
            assert("spatial"@.len() != "engineering"@.len());
            assert("spatial"@.len() != "eng"@.len());
            assert("spatial"@.len() != "code"@.len());
            assert("spatial"@.len() != "architecture"@.len());
            assert("spatial"@.len() != "arch"@.len());
        },
        Perspective::Financial => {
            assert(ascii_lower("financial"@) =~= "financial"@);
            assert("financial"@.len() != "engineering"@.len());
            assert("financial"@.len() != "eng"@.len());
            assert("financial"@.len() != "code"@.len());
            assert("financial"@.len() != "architecture"@.len());
            assert("financial"@.len() != "arch"@.len());
            assert("financial"@.len() != "spatial"@.len());
            assert("financial"@.len() != "world"@.len());
        },
        Perspective::Education => {
            assert(ascii_lower("education"@) =~= "education"@);
            assert("education"@.len() != "engineering"@.len());
            assert("education"@.len() != "eng"@.len());
            assert("education"@.len() != "code"@.len());
            assert("education"@.len() != "architecture"@.len());
            assert("education"@.len() != "arch"@.len());
            assert("education"@.len() != "spatial"@.len());
            assert("education"@.len() != "world"@.len());
            assert("education"@[0] != "financial"@[0]);
            assert("education"@.len() != "finance"@.len());
        },
        Perspective::Scientific => {
            assert(ascii_lower("scientific"@) =~= "scientific"@);
            assert("scientific"@.len() != "engineering"@.len());
            assert("scientific"@.len() != "eng"@.len());
            assert("scientific"@.len() != "code"@.len());
            assert("scientific"@.len() != "architecture"@.len());
            assert("scientific"@.len() != "arch"@.len());
            assert("scientific"@.len() != "spatial"@.len());
            assert("scientific"@.len() != "world"@.len());
            assert("scientific"@.len() != "financial"@.len());
            assert("scientific"@.len() != "finance"@.len());
            assert("scientific"@.len() != "education"@.len());
            assert("scientific"@.len() != "edu"@.len());
            assert("scientific"@.len() != "school"@.len());
        },
        Perspective::Design => {
            assert(ascii_lower("design"@) =~= "design"@);
            assert("design"@.len() != "engineering"@.len());
            assert("design"@.len() != "eng"@.len());
            assert("design"@.len() != "code"@.len());
            assert("design"@.len() != "architecture"@.len());
            assert("design"@.len() != "arch"@.len());
            assert("design"@.len() != "spatial"@.len());
            assert("design"@.len() != "world"@.len());
            assert("design"@.len() != "financial"@.len());
            assert("design"@.len() != "finance"@.len());
            assert("design"@.len() != "education"@.len());
            assert("design"@.len() != "edu"@.len());
            assert("design"@[0] != "school"@[0]);
            assert("design"@.len() != "scientific"@.len());
            assert("design"@.len() != "science"@.len());
            assert("design"@.len() != "research"@.len());
        },
        Perspective::Analytic => {
            assert(ascii_lower("analytic"@) =~= "analytic"@);
            assert("analytic"@.len() != "engineering"@.len());
            assert("analytic"@.len() != "eng"@.len());
            assert("analytic"@.len() != "code"@.len());
            assert("analytic"@.len() != "architecture"@.len());
            assert("analytic"@.len() != "arch"@.len());
            assert("analytic"@.len() != "spatial"@.len());
            assert("analytic"@.len() != "world"@.len());
            assert("analytic"@.len() != "financial"@.len());
            assert("analytic"@.len() != "finance"@.len());
            assert("analytic"@.len() != "education"@.len());
            assert("analytic"@.len() != "edu"@.len());
            assert("analytic"@.len() != "school"@.len());
            assert("analytic"@.len() != "scientific"@.len());
            assert("analytic"@.len() != "science"@.len());
            assert("analytic"@[0] != "research"@[0]);
            assert("analytic"@.len() != "design"@.len());
            assert("analytic"@.len() != "ux"@.len());
        },
        Perspective::Math => {
            assert(ascii_lower("math"@) =~= "math"@);
            assert("math"@.len() != "engineering"@.len());
            assert("math"@.len() != "eng"@.len());
            assert("math"@[0] != "code"@[0]);
            assert("math"@.len() != "architecture"@.len());
            assert("math"@[0] != "arch"@[0]);
            assert("math"@.len() != "spatial"@.len());
            assert("math"@.len() != "world"@.len());
            assert("math"@.len() != "financial"@.len());
            assert("math"@.len() != "finance"@.len());
            assert("math"@.len() != "education"@.len());
            assert("math"@.len() != "edu"@.len());
            assert("math"@.len() != "school"@.len());
            assert("math"@.len() != "scientific"@.len());
            assert("math"@.len() != "science"@.len());
            assert("math"@.len() != "research"@.len());
            assert("math"@.len() != "design"@.len());
            assert("math"@.len() != "ux"@.len());
            assert("math"@.len() != "analytic"@.len());
            assert("math"@.len() != "analytics"@.len());
            assert("math"@[0] != "data"@[0]);
        },
        Perspective::Geometry => {
            assert(ascii_lower("geometry"@) =~= "geometry"@);
            assert("geometry"@.len() != "engineering"@.len());
            assert("geometry"@.len() != "eng"@.len());
            assert("geometry"@.len() != "code"@.len());
            assert("geometry"@.len() != "architecture"@.len());
            assert("geometry"@.len() != "arch"@.len());
            assert("geometry"@.len() != "spatial"@.len());
            assert("geometry"@.len() != "world"@.len());
            assert("geometry"@.len() != "financial"@.len());
            assert("geometry"@.len() != "finance"@.len());
            assert("geometry"@.len() != "education"@.len());
            assert("geometry"@.len() != "edu"@.len());
            assert("geometry"@.len() != "school"@.len());
            assert("geometry"@.len() != "scientific"@.len());
            assert("geometry"@.len() != "science"@.len());
            assert("geometry"@[0] != "research"@[0]);
            assert("geometry"@.len() != "design"@.len());
            assert("geometry"@.len() != "ux"@.len());
            assert("geometry"@[0] != "analytic"@[0]);
            assert("geometry"@.len() != "analytics"@.len());
            assert("geometry"@.len() != "data"@.len());
            assert("geometry"@.len() != "math"@.len());
            assert("geometry"@.len() != "mathematics"@.len());
        },
        Perspective::Chemistry => {
            assert(ascii_lower("chemistry"@) =~= "chemistry"@);
            assert("chemistry"@.len() != "engineering"@.len());
            assert("chemistry"@.len() != "eng"@.len());
            assert("chemistry"@.len() != "code"@.len());
            assert("chemistry"@.len() != "architecture"@.len());
            assert("chemistry"@.len() != "arch"@.len());
            assert("chemistry"@.len() != "spatial"@.len());
            assert("chemistry"@.len() != "world"@.len());
            assert("chemistry"@[0] != "financial"@[0]);
            assert("chemistry"@.len() != "finance"@.len());
            assert("chemistry"@[0] != "education"@[0]);
            assert("chemistry"@.len() != "edu"@.len());
            assert("chemistry"@.len() != "school"@.len());
            assert("chemistry"@.len() != "scientific"@.len());
            assert("chemistry"@.len() != "science"@.len());
            assert("chemistry"@.len() != "research"@.len());
            assert("chemistry"@.len() != "design"@.len());
            assert("chemistry"@.len() != "ux"@.len());
            assert("chemistry"@.len() != "analytic"@.len());
            assert("chemistry"@[0] != "analytics"@[0]);
            assert("chemistry"@.len() != "data"@.len());
            assert("chemistry"@.len() != "math"@.len());
            assert("chemistry"@.len() != "mathematics"@.len());
            assert("chemistry"@.len() != "geometry"@.len());
            assert("chemistry"@.len() != "geo"@.len());
            assert("chemistry"@.len() != "shape"@.len());
        },
        Perspective::Physics => {
            assert(ascii_lower("physics"@) =~= "physics"@);
            assert("physics"@.len() != "engineering"@.len());
            assert("physics"@.len() != "eng"@.len());
            assert("physics"@.len() != "code"@.len());
            assert("physics"@.len() != "architecture"@.len());
            assert("physics"@.len() != "arch"@.len());
            assert("physics"@[0] != "spatial"@[0]);
            assert("physics"@.len() != "world"@.len());
            assert("physics"@.len() != "financial"@.len());
            assert("physics"@[0] != "finance"@[0]);
            assert("physics"@.len() != "education"@.len());
            assert("physics"@.len() != "edu"@.len());
            assert("physics"@.len() != "school"@.len());
            assert("physics"@.len() != "scientific"@.len());
            assert("physics"@[0] != "science"@[0]);
            assert("physics"@.len() != "research"@.len());
            assert("physics"@.len() != "design"@.len());
            assert("physics"@.len() != "ux"@.len());
            assert("physics"@.len() != "analytic"@.len());
            assert("physics"@.len() != "analytics"@.len());
            assert("physics"@.len() != "data"@.len());
            assert("physics"@.len() != "math"@.len());
            assert("physics"@.len() != "mathematics"@.len());
            assert("physics"@.len() != "geometry"@.len());
            assert("physics"@.len() != "geo"@.len());
            assert("physics"@.len() != "shape"@.len());
            assert("physics"@.len() != "chemistry"@.len());
            assert("physics"@.len() != "chem"@.len());
            assert("physics"@.len() != "molecular"@.len());
        },
        Perspective::Linguistic => {
            assert(ascii_lower("linguistic"@) =~= "linguistic"@);
            assert("linguistic"@.len() != "engineering"@.len());
            assert("linguistic"@.len() != "eng"@.len());
            assert("linguistic"@.len() != "code"@.len());
            assert("linguistic"@.len() != "architecture"@.len());
            assert("linguistic"@.len() != "arch"@.len());
            assert("linguistic"@.len() != "spatial"@.len());
            assert("linguistic"@.len() != "world"@.len());
            assert("linguistic"@.len() != "financial"@.len());
            assert("linguistic"@.len() != "finance"@.len());
            assert("linguistic"@.len() != "education"@.len());
            assert("linguistic"@.len() != "edu"@.len());
            assert("linguistic"@.len() != "school"@.len());
            assert("linguistic"@[0] != "scientific"@[0]);
            assert("linguistic"@.len() != "science"@.len());
            assert("linguistic"@.len() != "research"@.len());
            assert("linguistic"@.len() != "design"@.len());
            assert("linguistic"@.len() != "ux"@.len());
            assert("linguistic"@.len() != "analytic"@.len());
            assert("linguistic"@.len() != "analytics"@.len());
            assert("linguistic"@.len() != "data"@.len());
            assert("linguistic"@.len() != "math"@.len());
            assert("linguistic"@.len() != "mathematics"@.len());
            assert("linguistic"@.len() != "geometry"@.len());
            assert("linguistic"@.len() != "geo"@.len());
            assert("linguistic"@.len() != "shape"@.len());
            assert("linguistic"@.len() != "chemistry"@.len());
            assert("linguistic"@.len() != "chem"@.len());
            assert("linguistic"@.len() != "molecular"@.len());
            assert("linguistic"@.len() != "physics"@.len());
            assert("linguistic"@.len() != "phys"@.len());
            assert("linguistic"@.len() != "mechanics"@.len());
        },
        Perspective::Geologic => {
            assert(ascii_lower("geologic"@) =~= "geologic"@);
            assert("geologic"@.len() != "engineering"@.len());
            assert("geologic"@.len() != "eng"@.len());
            assert("geologic"@.len() != "code"@.len());
            assert("geologic"@.len() != "architecture"@.len());
            assert("geologic"@.len() != "arch"@.len());
            assert("geologic"@.len() != "spatial"@.len());
            assert("geologic"@.len() != "world"@.len());
            assert("geologic"@.len() != "financial"@.len());
            assert("geologic"@.len() != "finance"@.len());
            assert("geologic"@.len() != "education"@.len());
            assert("geologic"@.len() != "edu"@.len());
            assert("geologic"@.len() != "school"@.len());
            assert("geologic"@.len() != "scientific"@.len());
            assert("geologic"@.len() != "science"@.len());
            assert("geologic"@[0] != "research"@[0]);
            assert("geologic"@.len() != "design"@.len());
            assert("geologic"@.len() != "ux"@.len());
            assert("geologic"@[0] != "analytic"@[0]);
            assert("geologic"@.len() != "analytics"@.len());
            assert("geologic"@.len() != "data"@.len());
            assert("geologic"@.len() != "math"@.len());
            assert("geologic"@.len() != "mathematics"@.len());
            assert("geologic"@[3] != "geometry"@[3]);
            assert("geologic"@.len() != "geo"@.len());
            assert("geologic"@.len() != "shape"@.len());
            assert("geologic"@.len() != "chemistry"@.len());
            assert("geologic"@.len() != "chem"@.len());
            assert("geologic"@.len() != "molecular"@.len());
            assert("geologic"@.len() != "physics"@.len());
            assert("geologic"@.len() != "phys"@.len());
            assert("geologic"@.len() != "mechanics"@.len());
            assert("geologic"@.len() != "linguistic"@.len());
            assert("geologic"@[0] != "language"@[0]);
            assert("geologic"@.len() != "chat"@.len());
            assert("geologic"@.len() != "dialog"@.len());
        },
        Perspective::Biologic => {
            assert(ascii_lower("biologic"@) =~= "biologic"@);
            assert("biologic"@.len() != "engineering"@.len());
            assert("biologic"@.len() != "eng"@.len());
            assert("biologic"@.len() != "code"@.len());
            assert("biologic"@.len() != "architecture"@.len());
            assert("biologic"@.len() != "arch"@.len());
            assert("biologic"@.len() != "spatial"@.len());
            assert("biologic"@.len() != "world"@.len());
            assert("biologic"@.len() != "financial"@.len());
            assert("biologic"@.len() != "finance"@.len());
            assert("biologic"@.len() != "education"@.len());
            assert("biologic"@.len() != "edu"@.len());
            assert("biologic"@.len() != "school"@.len());
            assert("biologic"@.len() != "scientific"@.len());
            assert("biologic"@.len() != "science"@.len());
            assert("biologic"@[0] != "research"@[0]);
            assert("biologic"@.len() != "design"@.len());
            assert("biologic"@.len() != "ux"@.len());
            assert("biologic"@[0] != "analytic"@[0]);
            assert("biologic"@.len() != "analytics"@.len());
            assert("biologic"@.len() != "data"@.len());
            assert("biologic"@.len() != "math"@.len());
            assert("biologic"@.len() != "mathematics"@.len());
            assert("biologic"@[0] != "geometry"@[0]);
            assert("biologic"@.len() != "geo"@.len());
            assert("biologic"@.len() != "shape"@.len());
            assert("biologic"@.len() != "chemistry"@.len());
            assert("biologic"@.len() != "chem"@.len());
            assert("biologic"@.len() != "molecular"@.len());
            assert("biologic"@.len() != "physics"@.len());
            assert("biologic"@.len() != "phys"@.len());
            assert("biologic"@.len() != "mechanics"@.len());
            assert("biologic"@.len() != "linguistic"@.len());
            assert("biologic"@[0] != "language"@[0]);
            assert("biologic"@.len() != "chat"@.len());
            assert("biologic"@.len() != "dialog"@.len());
            assert("biologic"@[0] != "geologic"@[0]);
            assert("biologic"@.len() != "geology"@.len());
            assert("biologic"@.len() != "strata"@.len());
        },
    }
}

} // verus!
