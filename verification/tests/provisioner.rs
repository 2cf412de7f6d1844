use std::collections::BTreeSet;

use tsubasa::provision::{creation_succeeded, plan_index_probe, ProbeAction};

/// Drives the per-index plan against an in-memory backend the way the
/// startup loop does: probe, then create when the plan says so. Returns the
/// names for which a creation request was issued.
fn run_ensure(backend: &mut BTreeSet<String>, names: &[&str]) -> Vec<String> {
    let mut created = Vec::new();
    for name in names {
        let probe_status: u16 = if backend.contains(*name) { 200 } else { 404 };
        match plan_index_probe(probe_status) {
            ProbeAction::AlreadyExists
            | ProbeAction::SkipServerError
            | ProbeAction::SkipClientError => {}
            ProbeAction::Create => {
                backend.insert(name.to_string());
                created.push(name.to_string());
            }
        }
    }
    created
}

#[test]
fn ensure_twice_issues_no_second_creation() {
    let mut backend = BTreeSet::new();
    let first = run_ensure(&mut backend, &["a", "b"]);
    assert_eq!(first, vec!["a".to_string(), "b".to_string()]);
    let second = run_ensure(&mut backend, &["a", "b"]);
    assert!(second.is_empty());
}

#[test]
fn present_index_is_skipped() {
    let mut backend = BTreeSet::new();
    backend.insert("a".to_string());
    let created = run_ensure(&mut backend, &["a", "b"]);
    assert_eq!(created, vec!["b".to_string()]);
}

#[test]
fn probe_policy_matches_the_status_ranges() {
    assert_eq!(plan_index_probe(200), ProbeAction::AlreadyExists);
    assert_eq!(plan_index_probe(204), ProbeAction::AlreadyExists);
    assert_eq!(plan_index_probe(500), ProbeAction::SkipServerError);
    assert_eq!(plan_index_probe(503), ProbeAction::SkipServerError);
    assert_eq!(plan_index_probe(401), ProbeAction::SkipClientError);
    assert_eq!(plan_index_probe(403), ProbeAction::SkipClientError);
    assert_eq!(plan_index_probe(404), ProbeAction::Create);
    assert_eq!(plan_index_probe(302), ProbeAction::Create);
}

#[test]
fn creation_succeeds_only_on_success_statuses() {
    assert!(creation_succeeded(200));
    assert!(creation_succeeded(201));
    assert!(!creation_succeeded(400));
    assert!(!creation_succeeded(503));
}
