use wish_core::ledger::{
    compare_scenarios, ApprovalState, LedgerError, LedgerEvent, Scenario, ValidationResult, WorldLine, DEFAULT_BRANCH,
};

fn add_event(line: &mut WorldLine, intent: &str, n: i64) -> String {
    let id = format!("ev_{}_{}", intent, n);
    line.append(LedgerEvent {
        id: id.clone(),
        parent: None,
        branch: line.current_branch().to_string(),
        intent: intent.to_string(),
        validation: ValidationResult { ok: true, notes: None },
        approval: ApprovalState::AutoApproved,
        risk_bits: 0,
    });
    id
}

#[test]
fn scenario_open_forks_worldline_with_named_branch() {
    let mut line = WorldLine::from_events(Vec::new());
    add_event(&mut line, "baseline_step_1", 1);
    add_event(&mut line, "baseline_step_2", 2);
    let mut scenario =
        Scenario::new("what_if_x".to_string(), "What if we had not done step 2 the same way?".to_string());
    scenario.open(&mut line, None, 3).unwrap();
    assert!(scenario.fork_event.is_some());
    assert_eq!(line.current_branch(), "what_if_x");
    let branches = line.branches();
    assert!(branches.iter().any(|b| b == "what_if_x"));
}

#[test]
fn scenarios_can_diverge_and_be_compared() {
    let mut line = WorldLine::from_events(Vec::new());
    add_event(&mut line, "baseline_a", 1);
    add_event(&mut line, "baseline_b", 2);
    let mut sx = Scenario::new("scenario_x".to_string(), "alt path X".to_string());
    sx.open(&mut line, None, 3).unwrap();
    let x1 = add_event(&mut line, "x_step_1", 4);
    let x2 = add_event(&mut line, "x_step_2", 5);
    line.switch_to(DEFAULT_BRANCH.to_string());
    let m1 = add_event(&mut line, "main_step_3", 6);
    let diff = compare_scenarios(&line, DEFAULT_BRANCH, "scenario_x");
    assert_eq!(diff.left_event_count, 3);
    assert_eq!(diff.right_event_count, 3);
    assert_eq!(diff.shared.len(), 0);
    assert!(diff.only_in_left.contains(&m1));
    assert!(diff.only_in_right.contains(&x1));
    assert!(diff.only_in_right.contains(&x2));
}

#[test]
fn branch_from_rejects_unknown_parent() {
    let mut line = WorldLine::from_events(Vec::new());
    let err = line.branch_from("nope", Some("ev_does_not_exist"), 1);
    assert!(err.is_err());
    assert_eq!(err.unwrap_err(), LedgerError::ParentNotFound("ev_does_not_exist".to_string()));
    assert_eq!(line.len(), 0);
}

#[test]
fn branch_from_marks_the_fork_and_switches() {
    let mut line = WorldLine::from_events(Vec::new());
    assert_eq!(line.current_branch(), "main");
    let a = add_event(&mut line, "m0", 1);
    add_event(&mut line, "m1", 2);
    let marker = line.branch_from("experiment", Some(&a), 77).unwrap();
    assert_eq!(marker, "ev_branch_77");
    assert_eq!(line.current_branch(), "experiment");
    let last = &line.events()[2];
    assert_eq!(last.parent.as_deref(), Some(a.as_str()));
    assert_eq!(last.intent, "branch_from: experiment");
    assert_eq!(last.approval, ApprovalState::AutoApproved);
    assert_eq!(last.validation.notes.as_deref(), Some("branch marker"));
    add_event(&mut line, "x0", 3);
    assert_eq!(line.count_on(DEFAULT_BRANCH), 2);
    assert_eq!(line.count_on("experiment"), 2);
    line.switch_to("main".to_string());
    add_event(&mut line, "back", 4);
    assert_eq!(line.count_on(DEFAULT_BRANCH), 3);
    let branches = line.branches();
    assert_eq!(branches, vec!["main".to_string(), "experiment".to_string()]);
    let head = line.branch_from("later", None, -5).unwrap();
    assert_eq!(head, "ev_branch_-5");
    assert_eq!(line.events()[line.len() - 1].parent.as_deref(), Some("ev_back_4"));
}

#[test]
fn ledger_reopens_on_last_branch_and_lists_empty_current() {
    let mut line = WorldLine::from_events(Vec::new());
    add_event(&mut line, "a", 1);
    line.switch_to("side".to_string());
    add_event(&mut line, "b", 2);
    let events: Vec<LedgerEvent> = line.events().clone();
    let reopened = WorldLine::from_events(events);
    assert_eq!(reopened.current_branch(), "side");
    assert_eq!(reopened.position("ev_b_2"), Some(1));
    assert_eq!(reopened.position("nope"), None);
    let mut fresh = WorldLine::from_events(Vec::new());
    fresh.switch_to("solo".to_string());
    assert_eq!(fresh.branches(), vec!["solo".to_string()]);
    assert!(fresh.is_empty());
}

#[test]
fn comparing_a_branch_with_itself_shares_everything() {
    let mut line = WorldLine::from_events(Vec::new());
    let a = add_event(&mut line, "a", 1);
    let b = add_event(&mut line, "b", 2);
    let d = compare_scenarios(&line, "main", "main");
    assert_eq!(d.shared, vec![a, b]);
    assert!(d.only_in_left.is_empty() && d.only_in_right.is_empty());
    assert_eq!(
        LedgerError::EventNotFound("x".to_string()).to_string(),
        "patch apply: event not found: x"
    );
    assert_eq!(ValidationResult::default().ok, false);
}

#[test]
fn pending_events_can_be_approved() {
    let mut line = WorldLine::from_events(Vec::new());
    let ev = line.patch_event(10, "wide-reach refactor".to_string(), false, 0.5f32.to_bits());
    assert_eq!(ev.id, "ev_10");
    assert_eq!(ev.approval, ApprovalState::Pending);
    assert_eq!(ev.validation.notes.as_deref(), Some("pending approval"));
    assert!(ev.parent.is_none());
    line.append(ev);
    let auto = line.patch_event(11, "small".to_string(), true, 0);
    assert_eq!(auto.parent.as_deref(), Some("ev_10"));
    assert_eq!(auto.approval, ApprovalState::AutoApproved);
    assert!(auto.validation.ok);
    let id = line.approve_pending("ev_10", 12).unwrap();
    assert_eq!(id, "ev_12_approved");
    assert_eq!(line.len(), 2);
    assert_eq!(line.events()[0].approval, ApprovalState::Approved);
    let rec = &line.events()[1];
    assert_eq!(rec.intent, "approve: wide-reach refactor");
    assert_eq!(rec.parent.as_deref(), Some("ev_10"));
    assert_eq!(rec.risk_bits, 0.5f32.to_bits());
    assert_eq!(
        line.approve_pending("ev_missing", 13),
        Err(LedgerError::EventNotFound("ev_missing".to_string()))
    );
}

fn hex(bytes: &[u8]) -> String {
    bytes.iter().map(|b| format!("{:02x}", b)).collect()
}

fn bare_event(id: &str, branch: &str) -> LedgerEvent {
    LedgerEvent {
        id: id.to_string(),
        parent: None,
        branch: branch.to_string(),
        intent: "step".to_string(),
        validation: ValidationResult { ok: true, notes: None },
        approval: ApprovalState::AutoApproved,
        risk_bits: 0,
    }
}

#[test]
fn merkle_root_of_an_empty_branch_hashes_nothing() {
    let line = WorldLine::from_events(Vec::new());
    let root = line.merkle_root(&Vec::new(), DEFAULT_BRANCH);
    assert_eq!(hex(&root), "e3b0c44298fc1c149afbf4c8996fb92427ae41e4649b934ca495991b7852b855");
}

#[test]
fn merkle_root_hashes_ids_then_patch_bytes_on_the_branch() {
    let line = WorldLine::from_events(vec![bare_event("a", DEFAULT_BRANCH), bare_event("zzz", "other")]);
    let patches = vec![Some(b"bc".to_vec()), Some(b"ignored".to_vec())];
    let root = line.merkle_root(&patches, DEFAULT_BRANCH);
    // SHA-256 of "abc".
    assert_eq!(hex(&root), "ba7816bf8f01cfea414140de5dae2223b00361a396177a9cb410ff61f20015ad");
    let no_patch = line.merkle_root(&vec![None, None], DEFAULT_BRANCH);
    // SHA-256 of "a".
    assert_eq!(hex(&no_patch), "ca978112ca1bbdcafac231b39a23dc4da786eff8147c4e72b9807785afee48bb");
}

#[test]
fn merkle_root_ignores_events_on_other_branches() {
    let short = WorldLine::from_events(vec![bare_event("e1", DEFAULT_BRANCH)]);
    let long = WorldLine::from_events(vec![bare_event("e1", DEFAULT_BRANCH), bare_event("e2", "side")]);
    let a = short.merkle_root(&vec![Some(b"{}".to_vec())], DEFAULT_BRANCH);
    let b = long.merkle_root(&vec![Some(b"{}".to_vec()), Some(b"{}".to_vec())], DEFAULT_BRANCH);
    assert_eq!(a, b);
    assert_eq!(a.len(), 32);
    let side = long.merkle_root(&vec![Some(b"{}".to_vec()), Some(b"{}".to_vec())], "side");
    assert_ne!(a, side);
}

#[test]
fn merkle_root_treats_missing_patch_bytes_as_none() {
    let line = WorldLine::from_events(vec![bare_event("a", DEFAULT_BRANCH), bare_event("b", DEFAULT_BRANCH)]);
    let none = line.merkle_root(&vec![None, None], DEFAULT_BRANCH);
    let short = line.merkle_root(&Vec::new(), DEFAULT_BRANCH);
    assert_eq!(none, short);
    // SHA-256 of "ab".
    assert_eq!(hex(&short), "fb8e20fc2e4c3f248c60c39bd652f3c1347298bb977b8b4d5903b85055620603");
}
