use wish_core::cells::{content_hash_hex, hex_lower, Capabilities, CellError, CellGate, CellManifest, TrustTier};

fn manifest() -> CellManifest {
    CellManifest {
        id: "cell.wish.shader.glsl_v1".into(),
        name: "GLSL Shader Generator".into(),
        version: "0.1.0".into(),
        author: "Hermon".into(),
        created_at: "2026-05-14T20:00:00Z".into(),
        trust_tier: TrustTier::HermonVerified,
        capabilities: Capabilities {
            fs_read: vec!["assets/textures/".into()],
            fs_write: vec!["assets/shaders/".into()],
            model_invoke: true,
            world_read: true,
            world_patch: true,
            ..Default::default()
        },
        wasm_entry: Some("cell.wasm".into()),
        events_in: vec!["scene.entity.selected".into()],
        events_out: vec!["world.patch".into()],
        signature: Some("ed25519:deadbeef".into()),
    }
}

fn texts(v: &[String]) -> serde_json::Value {
    serde_json::Value::Array(v.iter().map(|s| serde_json::Value::String(s.clone())).collect())
}

/// The manifest's JSON, field by field; the signature only when present.
fn json_of(m: &CellManifest) -> Vec<u8> {
    let mut caps = serde_json::Map::new();
    caps.insert("fs_read".into(), texts(&m.capabilities.fs_read));
    caps.insert("fs_write".into(), texts(&m.capabilities.fs_write));
    caps.insert("net_fetch".into(), serde_json::Value::Bool(m.capabilities.net_fetch));
    caps.insert("model_invoke".into(), serde_json::Value::Bool(m.capabilities.model_invoke));
    caps.insert("world_read".into(), serde_json::Value::Bool(m.capabilities.world_read));
    caps.insert("world_patch".into(), serde_json::Value::Bool(m.capabilities.world_patch));
    caps.insert("finance_read".into(), serde_json::Value::Bool(m.capabilities.finance_read));
    caps.insert("finance_transact".into(), serde_json::Value::Bool(m.capabilities.finance_transact));
    let mut o = serde_json::Map::new();
    o.insert("id".into(), serde_json::Value::String(m.id.clone()));
    o.insert("name".into(), serde_json::Value::String(m.name.clone()));
    o.insert("version".into(), serde_json::Value::String(m.version.clone()));
    o.insert("author".into(), serde_json::Value::String(m.author.clone()));
    o.insert("created_at".into(), serde_json::Value::String(m.created_at.clone()));
    o.insert("trust_tier".into(), serde_json::Value::String(format!("{:?}", m.trust_tier)));
    o.insert("capabilities".into(), serde_json::Value::Object(caps));
    if let Some(w) = &m.wasm_entry {
        o.insert("wasm_entry".into(), serde_json::Value::String(w.clone()));
    }
    o.insert("events_in".into(), texts(&m.events_in));
    o.insert("events_out".into(), texts(&m.events_out));
    if let Some(sig) = &m.signature {
        o.insert("signature".into(), serde_json::Value::String(sig.clone()));
    }
    serde_json::to_vec(&serde_json::Value::Object(o)).unwrap()
}

fn content_hash_of(m: &CellManifest) -> String {
    content_hash_hex(&json_of(&m.unsigned()))
}

#[test]
fn content_hash_is_stable_excluding_signature() {
    let mut a = manifest();
    let mut b = manifest();
    a.signature = Some("sig-A".into());
    b.signature = Some("sig-B".into());
    assert_ne!(json_of(&a), json_of(&b));
    assert_eq!(content_hash_of(&a), content_hash_of(&b));
    assert_eq!(content_hash_of(&a).len(), 64);
}

#[test]
fn content_hash_changes_with_capability_change() {
    let a = manifest();
    let mut b = manifest();
    b.capabilities.net_fetch = true;
    assert_ne!(content_hash_of(&a), content_hash_of(&b));
}

#[test]
fn unsigned_clears_only_the_signature() {
    let m = manifest();
    let u = m.unsigned();
    assert!(u.signature.is_none());
    assert_eq!(u.id, m.id);
    assert_eq!(u.created_at, m.created_at);
    assert_eq!(u.capabilities.fs_write, m.capabilities.fs_write);
    assert_eq!(u.events_in, m.events_in);
    assert_eq!(u.wasm_entry, m.wasm_entry);
    assert_eq!(u.trust_tier, m.trust_tier);
}

#[test]
fn content_hash_of_empty_input_is_the_sha256_of_nothing() {
    assert_eq!(
        content_hash_hex(&Vec::new()),
        "e3b0c44298fc1c149afbf4c8996fb92427ae41e4649b934ca495991b7852b855"
    );
}

#[test]
fn hex_is_lower_case_two_digits_per_byte() {
    assert_eq!(hex_lower(&vec![0x00, 0x0f, 0xa5, 0xff]), "000fa5ff");
    assert_eq!(hex_lower(&Vec::new()), "");
}

#[test]
fn gate_accepts_hermon_verified() {
    let m = manifest();
    let gate = CellGate::default();
    assert!(gate.check(&m).is_ok());
}

#[test]
fn gate_rejects_unsigned_when_required() {
    let mut m = manifest();
    m.signature = None;
    let gate = CellGate::default();
    assert!(matches!(gate.check(&m), Err(CellError::Untrusted(_))));
    match gate.check(&m) {
        Err(e) => assert_eq!(e.to_string(), "untrusted cell: missing signature"),
        Ok(()) => panic!("unsigned cell admitted"),
    }
}

#[test]
fn gate_rejects_lower_tiers_with_their_names() {
    let mut m = manifest();
    m.trust_tier = TrustTier::ThirdParty;
    let gate = CellGate { minimum_tier: TrustTier::UserSigned, require_signature: false };
    match gate.check(&m) {
        Err(CellError::Untrusted(msg)) => assert_eq!(msg, "tier ThirdParty below required UserSigned"),
        _ => panic!("third-party cell admitted under a user-signed minimum"),
    }
    m.trust_tier = TrustTier::TeamVerified;
    assert!(gate.check(&m).is_ok());
    let open = CellGate { minimum_tier: TrustTier::Untrusted, require_signature: false };
    m.trust_tier = TrustTier::Untrusted;
    m.signature = None;
    assert!(open.check(&m).is_ok());
}

#[test]
fn gate_admits_exactly_the_tiers_at_or_above_the_minimum() {
    let tiers = [
        TrustTier::Untrusted,
        TrustTier::ThirdParty,
        TrustTier::UserSigned,
        TrustTier::TeamVerified,
        TrustTier::HermonVerified,
    ];
    for (i, min) in tiers.iter().enumerate() {
        for (j, actual) in tiers.iter().enumerate() {
            let mut m = manifest();
            m.trust_tier = *actual;
            let gate = CellGate { minimum_tier: *min, require_signature: true };
            assert_eq!(gate.check(&m).is_ok(), j >= i);
        }
    }
}

#[test]
fn capability_subset_check() {
    let parent = Capabilities {
        fs_read: vec!["assets/".into()],
        fs_write: vec!["assets/shaders/".into()],
        model_invoke: true,
        world_read: true,
        world_patch: true,
        ..Default::default()
    };
    let child = Capabilities {
        fs_read: vec!["assets/textures/".into()],
        fs_write: vec!["assets/shaders/glsl/".into()],
        world_read: true,
        ..Default::default()
    };
    assert!(child.is_subset_of(&parent));
    let mut overreach = child.clone();
    overreach.finance_transact = true;
    assert!(!overreach.is_subset_of(&parent));
}

#[test]
fn capability_subset_is_reflexive_and_path_scoped() {
    let c = manifest().capabilities;
    assert!(c.is_subset_of(&c));
    let wider = Capabilities { fs_read: vec!["other/".into()], ..Default::default() };
    assert!(!wider.is_subset_of(&Capabilities { fs_read: vec!["assets/".into()], ..Default::default() }));
}
