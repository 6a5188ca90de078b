use wish_core::canvas::{CanvasNodeKind, EdgeKind, LayoutMode};
use wish_core::perspective::{default_tint, Perspective, PerspectiveCategory, Rgb};

#[test]
fn from_slug_round_trips_for_all_perspectives() {
    for p in Perspective::ALL {
        let back = Perspective::from_slug(p.slug()).unwrap();
        assert_eq!(back, p);
    }
}

#[test]
fn from_slug_accepts_aliases() {
    assert_eq!(Perspective::from_slug("eng"), Some(Perspective::Engineering));
    assert_eq!(Perspective::from_slug("arch"), Some(Perspective::Architecture));
    assert_eq!(Perspective::from_slug("finance"), Some(Perspective::Financial));
    assert_eq!(Perspective::from_slug("ux"), Some(Perspective::Design));
    assert_eq!(Perspective::from_slug("data"), Some(Perspective::Analytic));
}

#[test]
fn from_slug_rejects_unknown() {
    assert_eq!(Perspective::from_slug("nope"), None);
}

#[test]
fn from_slug_ignores_ascii_case() {
    assert_eq!(Perspective::from_slug("ENGINEERING"), Some(Perspective::Engineering));
    assert_eq!(Perspective::from_slug("Bio"), Some(Perspective::Biologic));
    assert_eq!(Perspective::from_slug(""), None);
}

#[test]
fn perspectives_have_labels_and_taglines() {
    for p in Perspective::ALL {
        assert!(!p.label().is_empty());
        assert!(!p.tagline().is_empty());
        assert!(!p.slug().is_empty());
    }
    assert_eq!(Perspective::Math.label(), "∑ Math");
    assert_eq!(Perspective::Architecture.tagline(), "one node per crate. dep edges only. post-UML.");
}

#[test]
fn only_spatial_prefers_3d_by_default() {
    for p in Perspective::ALL {
        if p == Perspective::Spatial {
            assert!(p.prefers_3d());
        } else {
            assert!(!p.prefers_3d(), "{:?} should not default to 3D", p);
        }
    }
}

#[test]
fn architecture_emphasizes_dependson_only() {
    assert_eq!(Perspective::Architecture.emphasized_edges(), &[EdgeKind::DependsOn]);
}

#[test]
fn all_perspectives_count_is_fifteen() {
    assert_eq!(Perspective::ALL.len(), 15);
}

#[test]
fn categories_split_into_domain_and_science() {
    let mut domain = 0;
    let mut science = 0;
    for p in Perspective::ALL {
        match p.category() {
            PerspectiveCategory::Domain => domain += 1,
            PerspectiveCategory::Science => science += 1,
        }
    }
    assert_eq!(domain, 8);
    assert_eq!(science, 7);
}

#[test]
fn scientific_perspective_slugs_parse() {
    for slug in &["math", "geometry", "chemistry", "physics", "linguistic", "geologic", "biologic"] {
        assert!(Perspective::from_slug(slug).is_some(), "slug should parse: {slug}");
        let p = Perspective::from_slug(slug).unwrap();
        assert_eq!(p.category(), PerspectiveCategory::Science);
    }
}

#[test]
fn scientific_aliases_parse() {
    assert_eq!(Perspective::from_slug("mathematics"), Some(Perspective::Math));
    assert_eq!(Perspective::from_slug("chem"), Some(Perspective::Chemistry));
    assert_eq!(Perspective::from_slug("phys"), Some(Perspective::Physics));
    assert_eq!(Perspective::from_slug("chat"), Some(Perspective::Linguistic));
    assert_eq!(Perspective::from_slug("strata"), Some(Perspective::Geologic));
    assert_eq!(Perspective::from_slug("ecology"), Some(Perspective::Biologic));
}

#[test]
fn default_layouts_follow_the_lens() {
    assert_eq!(Perspective::Engineering.default_layout(), LayoutMode::ForceDirected);
    assert_eq!(Perspective::Design.default_layout(), LayoutMode::Grid);
    assert_eq!(Perspective::Geologic.default_layout(), LayoutMode::Layered);
    assert_eq!(Perspective::default(), Perspective::Engineering);
}

#[test]
fn tints_pick_lens_colours_and_fade_the_rest() {
    let file = CanvasNodeKind::File;
    assert_eq!(default_tint(&file), Rgb { r: 56, g: 80, b: 110 });
    assert_eq!(Perspective::Engineering.tint(&file), Rgb { r: 56, g: 80, b: 110 });
    // Faded to one half, rounded down.
    assert_eq!(Perspective::Architecture.tint(&file), Rgb { r: 28, g: 40, b: 55 });
    assert_eq!(Perspective::Architecture.tint(&CanvasNodeKind::Crate), Rgb { r: 180, g: 130, b: 70 });
    // Faded to 55%.
    assert_eq!(Perspective::Design.tint(&file), Rgb { r: 30, g: 44, b: 60 });
    // Faded to 60%.
    assert_eq!(Perspective::Financial.tint(&CanvasNodeKind::Function), Rgb { r: 49, g: 67, b: 42 });
    let sacred = CanvasNodeKind::Custom("old sacred grove".to_string());
    assert_eq!(Perspective::Spatial.tint(&sacred), Rgb { r: 220, g: 180, b: 110 });
    let world = CanvasNodeKind::Custom("world".to_string());
    assert_eq!(Perspective::Spatial.tint(&world), Rgb { r: 70, g: 110, b: 160 });
    let worlds = CanvasNodeKind::Custom("worlds".to_string());
    assert_eq!(Perspective::Spatial.tint(&worlds), Rgb { r: 90, g: 100, b: 110 });
    let layer = CanvasNodeKind::Custom("rock layer".to_string());
    assert_eq!(Perspective::Geologic.tint(&layer), Rgb { r: 160, g: 110, b: 80 });
}
