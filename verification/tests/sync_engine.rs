//! The synchronization engine, driven over scripted outcomes.

use stacky::sync_machine::{SyncAction, SyncEvent, SyncMachine};
use stacky::sync_model::StepKind;
use stacky::types::Branch;

fn branch(name: &str) -> Branch {
    Branch::new(&name.to_string())
}

fn machine(trunk: &str, names: &[&str]) -> SyncMachine {
    let chain: Vec<Branch> = names.iter().map(|n| branch(n)).collect();
    SyncMachine::new(trunk.to_string(), chain)
}

fn checkout(target: &str) -> SyncAction {
    SyncAction::Checkout { target: target.to_string() }
}

fn query(branch: &str) -> SyncAction {
    SyncAction::QueryRemote { branch: branch.to_string() }
}

fn rebase(base: &str) -> SyncAction {
    SyncAction::Rebase { base: base.to_string() }
}

fn push(branch: &str) -> SyncAction {
    SyncAction::ForcePush { branch: branch.to_string() }
}

fn find_pr(base: &str, head: &str) -> SyncAction {
    SyncAction::FindPullRequest { base: base.to_string(), head: head.to_string() }
}

fn create_pr(base: &str, head: &str) -> SyncAction {
    SyncAction::CreatePullRequest { base: base.to_string(), head: head.to_string() }
}

fn failure(diagnostic: &str) -> SyncEvent {
    SyncEvent::Failure { diagnostic: diagnostic.to_string() }
}

fn remote_exists(exists: bool) -> SyncEvent {
    SyncEvent::RemoteExists { exists }
}

fn pr_found(found: bool) -> SyncEvent {
    SyncEvent::PullRequestFound { found }
}

#[test]
fn rebase_base_is_trunk_then_predecessors() {
    let chain = vec![branch("a"), branch("b"), branch("c")];
    let trunk = "main".to_string();
    assert_eq!(stacky::sync_machine::rebase_base(&trunk, &chain, 0), "main");
    assert_eq!(stacky::sync_machine::rebase_base(&trunk, &chain, 1), "a");
    assert_eq!(stacky::sync_machine::rebase_base(&trunk, &chain, 2), "b");
}

#[test]
fn full_run_orders_rebases_and_reconciles_each_pair() {
    let mut m = machine("main", &["a", "b", "c"]);
    let mut events = vec![SyncEvent::Success, SyncEvent::Success];
    for _ in 0..3 {
        events.extend([
            SyncEvent::Success,
            remote_exists(true),
            SyncEvent::Success,
            SyncEvent::Success,
            SyncEvent::Success,
            pr_found(false),
            SyncEvent::Success,
        ]);
    }
    let actions = m.run_scripted(&events);
    assert!(m.is_done());
    let expected = vec![
        checkout("main"),
        SyncAction::Pull,
        checkout("a"),
        query("a"),
        SyncAction::Pull,
        rebase("main"),
        push("a"),
        find_pr("main", "a"),
        create_pr("main", "a"),
        checkout("b"),
        query("b"),
        SyncAction::Pull,
        rebase("a"),
        push("b"),
        find_pr("a", "b"),
        create_pr("a", "b"),
        checkout("c"),
        query("c"),
        SyncAction::Pull,
        rebase("b"),
        push("c"),
        find_pr("b", "c"),
        create_pr("b", "c"),
    ];
    assert_eq!(actions, expected);
}

#[test]
fn absent_remote_branch_skips_the_pull() {
    let mut m = machine("main", &["x"]);
    let events = vec![
        SyncEvent::Success,
        SyncEvent::Success,
        SyncEvent::Success,
        remote_exists(false),
        SyncEvent::Success,
        SyncEvent::Success,
        pr_found(true),
    ];
    let actions = m.run_scripted(&events);
    assert!(m.is_done());
    let expected = vec![
        checkout("main"),
        SyncAction::Pull,
        checkout("x"),
        query("x"),
        rebase("main"),
        push("x"),
        find_pr("main", "x"),
    ];
    assert_eq!(actions, expected);
}

#[test]
fn present_remote_branch_pulls_once_before_rebase() {
    let mut m = machine("main", &["x"]);
    let events = vec![
        SyncEvent::Success,
        SyncEvent::Success,
        SyncEvent::Success,
        remote_exists(true),
        SyncEvent::Success,
        SyncEvent::Success,
        SyncEvent::Success,
        pr_found(true),
    ];
    let actions = m.run_scripted(&events);
    assert!(m.is_done());
    let expected = vec![
        checkout("main"),
        SyncAction::Pull,
        checkout("x"),
        query("x"),
        SyncAction::Pull,
        rebase("main"),
        push("x"),
        find_pr("main", "x"),
    ];
    assert_eq!(actions, expected);
}

#[test]
fn rebase_failure_stops_the_run_and_identifies_the_branch() {
    let mut m = machine("main", &["a", "b", "c"]);
    let events = vec![
        // trunk
        SyncEvent::Success,
        SyncEvent::Success,
        // a: fully synchronized, nothing to pull, pull request already open
        SyncEvent::Success,
        remote_exists(false),
        SyncEvent::Success,
        SyncEvent::Success,
        pr_found(true),
        // b: rebase hits a conflict
        SyncEvent::Success,
        remote_exists(false),
        failure("conflict in b"),
        // anything later is no answer to a finished run
        SyncEvent::Success,
        SyncEvent::Success,
        SyncEvent::Success,
    ];
    let actions = m.run_scripted(&events);
    assert!(!m.is_done());
    let expected = vec![
        checkout("main"),
        SyncAction::Pull,
        checkout("a"),
        query("a"),
        rebase("main"),
        push("a"),
        find_pr("main", "a"),
        checkout("b"),
        query("b"),
        rebase("a"),
    ];
    assert_eq!(actions, expected);
    let f = m.failure().expect("the run must have failed");
    assert_eq!(f.step, StepKind::Rebase);
    assert_eq!(f.index, Some(1));
    assert_eq!(f.reference, "b");
    assert_eq!(f.diagnostic, "conflict in b");
}

#[test]
fn found_pull_request_suppresses_creation() {
    let mut m = machine("main", &["x"]);
    m.step(&SyncEvent::Success);
    m.step(&SyncEvent::Success);
    m.step(&SyncEvent::Success);
    m.step(&remote_exists(false));
    m.step(&SyncEvent::Success);
    m.step(&SyncEvent::Success);
    assert_eq!(m.pending_action(), Some(find_pr("main", "x")));
    m.step(&pr_found(true));
    assert_eq!(m.pending_action(), None);
    assert!(m.is_done());
}

#[test]
fn missing_pull_request_leads_to_exactly_one_creation() {
    let mut m = machine("main", &["x"]);
    m.step(&SyncEvent::Success);
    m.step(&SyncEvent::Success);
    m.step(&SyncEvent::Success);
    m.step(&remote_exists(false));
    m.step(&SyncEvent::Success);
    m.step(&SyncEvent::Success);
    m.step(&pr_found(false));
    assert_eq!(m.pending_action(), Some(create_pr("main", "x")));
    m.step(&SyncEvent::Success);
    assert!(m.is_done());
}

#[test]
fn second_run_with_open_pull_requests_creates_nothing() {
    // First run: no pull requests open yet, one is created per branch.
    let mut first = machine("main", &["a", "b"]);
    let mut events = vec![SyncEvent::Success, SyncEvent::Success];
    for _ in 0..2 {
        events.extend([
            SyncEvent::Success,
            remote_exists(true),
            SyncEvent::Success,
            SyncEvent::Success,
            SyncEvent::Success,
            pr_found(false),
            SyncEvent::Success,
        ]);
    }
    let first_actions = first.run_scripted(&events);
    assert!(first.is_done());
    let creations = first_actions
        .iter()
        .filter(|a| matches!(a, SyncAction::CreatePullRequest { .. }))
        .count();
    assert_eq!(creations, 2);

    // Second run, nothing changed outside: every search now finds the pull
    // request the first run created, so nothing new is created.
    let mut second = machine("main", &["a", "b"]);
    let mut rerun_events = vec![SyncEvent::Success, SyncEvent::Success];
    for _ in 0..2 {
        rerun_events.extend([
            SyncEvent::Success,
            remote_exists(true),
            SyncEvent::Success,
            SyncEvent::Success,
            SyncEvent::Success,
            pr_found(true),
        ]);
    }
    let second_actions = second.run_scripted(&rerun_events);
    assert!(second.is_done());
    assert!(second_actions
        .iter()
        .all(|a| !matches!(a, SyncAction::CreatePullRequest { .. })));
}

#[test]
fn empty_chain_refreshes_trunk_and_succeeds() {
    let mut m = machine("main", &[]);
    let events = vec![SyncEvent::Success, SyncEvent::Success];
    let actions = m.run_scripted(&events);
    assert!(m.is_done());
    assert_eq!(actions, vec![checkout("main"), SyncAction::Pull]);
}

#[test]
fn an_event_that_answers_nothing_changes_nothing() {
    let mut m = machine("main", &["a"]);
    // A remote-existence answer is no outcome of the trunk checkout.
    let stray = vec![remote_exists(true), pr_found(false)];
    let actions = m.run_scripted(&stray);
    assert!(actions.is_empty());
    assert_eq!(m.pending_action(), Some(checkout("main")));
}

#[test]
fn trunk_checkout_failure_is_fatal_for_the_whole_run() {
    let mut m = machine("main", &["a"]);
    let events = vec![failure("no such ref"), SyncEvent::Success];
    let actions = m.run_scripted(&events);
    assert_eq!(actions, vec![checkout("main")]);
    let f = m.failure().expect("the run must have failed");
    assert_eq!(f.step, StepKind::Checkout);
    assert_eq!(f.index, None);
    assert_eq!(f.reference, "main");
}
