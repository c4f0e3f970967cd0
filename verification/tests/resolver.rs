//! The expiry sweep: planning, batching per owner, and retry behaviour.

use timed_mute::models::{STATUS_CANCELLED, STATUS_PENDING, STATUS_RESOLVED};
use timed_mute::resolver::{plan_sweep, resolve_timed_mutes, SweepGuard};
use timed_mute::store::{create_timed_mute, update_timed_mute_list_v1, MuteTable};

#[test]
fn sweep_before_any_deadline_plans_nothing() {
    let mut table = MuteTable::new();
    create_timed_mute(&mut table, "alice", "did:plc:bob", 0, 3600, STATUS_PENDING);
    create_timed_mute(&mut table, "carol", "did:plc:dan", 0, 7200, STATUS_PENDING);
    let plan = plan_sweep(&table, 3600);
    assert_eq!(plan.len(), 0);
}

#[test]
fn sweep_ignores_terminal_entries() {
    let mut table = MuteTable::new();
    create_timed_mute(&mut table, "alice", "did:plc:bob", 0, 10, STATUS_PENDING);
    create_timed_mute(&mut table, "alice", "did:plc:dan", 0, 10, STATUS_PENDING);
    table.rows[0].status = STATUS_RESOLVED;
    table.rows[1].status = STATUS_CANCELLED;
    let plan = plan_sweep(&table, 100);
    assert_eq!(plan.len(), 0);
}

#[test]
fn sweep_groups_due_entries_by_owner() {
    let mut table = MuteTable::new();
    create_timed_mute(&mut table, "alice", "did:plc:b1", 0, 10, STATUS_PENDING);
    create_timed_mute(&mut table, "carol", "did:plc:c1", 0, 10, STATUS_PENDING);
    create_timed_mute(&mut table, "alice", "did:plc:b2", 0, 20, STATUS_PENDING);
    create_timed_mute(&mut table, "carol", "did:plc:c2", 0, 20, STATUS_PENDING);
    let plan = plan_sweep(&table, 100);
    // one provider authentication per owner: one group per owner
    assert_eq!(plan.len(), 2);
    let alice = plan.iter().find(|g| g.owner == "alice").unwrap();
    let carol = plan.iter().find(|g| g.owner == "carol").unwrap();
    assert_eq!(alice.targets, vec!["did:plc:b1".to_string(), "did:plc:b2".to_string()]);
    assert_eq!(carol.targets, vec!["did:plc:c1".to_string(), "did:plc:c2".to_string()]);
    // four reversal calls in total
    let total: usize = plan.iter().map(|g| g.targets.len()).sum();
    assert_eq!(total, 4);
}

#[test]
fn sweep_takes_only_due_entries_of_an_owner() {
    let mut table = MuteTable::new();
    create_timed_mute(&mut table, "alice", "did:plc:due", 0, 10, STATUS_PENDING);
    create_timed_mute(&mut table, "alice", "did:plc:later", 0, 1000, STATUS_PENDING);
    let plan = plan_sweep(&table, 100);
    assert_eq!(plan.len(), 1);
    assert_eq!(plan[0].owner, "alice");
    assert_eq!(plan[0].targets, vec!["did:plc:due".to_string()]);
}

#[test]
fn resolved_entry_stays_resolved_and_leaves_the_next_plan() {
    let mut table = MuteTable::new();
    create_timed_mute(&mut table, "alice", "did:plc:bob", 0, 10, STATUS_PENDING);
    let plan = plan_sweep(&table, 100);
    assert_eq!(plan.len(), 1);
    // the provider reversal for the entry succeeds
    let succeeded = vec!["did:plc:bob".to_string()];
    let changed = update_timed_mute_list_v1(&mut table, "alice", &succeeded, STATUS_RESOLVED);
    assert!(changed);
    assert_eq!(table.rows[0].status, STATUS_RESOLVED);
    // re-running the sweep with the same clock finds nothing to do
    let replan = plan_sweep(&table, 100);
    assert_eq!(replan.len(), 0);
}

#[test]
fn failed_entry_stays_pending_and_is_retried() {
    let mut table = MuteTable::new();
    create_timed_mute(&mut table, "alice", "did:plc:ok", 0, 10, STATUS_PENDING);
    create_timed_mute(&mut table, "alice", "did:plc:bad", 0, 10, STATUS_PENDING);
    let plan = plan_sweep(&table, 100);
    assert_eq!(plan.len(), 1);
    assert_eq!(plan[0].targets.len(), 2);
    // only the first reversal succeeded; the second is left off the list
    let succeeded = vec!["did:plc:ok".to_string()];
    update_timed_mute_list_v1(&mut table, "alice", &succeeded, STATUS_RESOLVED);
    assert_eq!(table.rows[0].status, STATUS_RESOLVED);
    assert_eq!(table.rows[1].status, STATUS_PENDING);
    // the next sweep retries exactly the failed target
    let replan = plan_sweep(&table, 100);
    assert_eq!(replan.len(), 1);
    assert_eq!(replan[0].owner, "alice");
    assert_eq!(replan[0].targets, vec!["did:plc:bad".to_string()]);
}

#[test]
fn one_owners_group_never_touches_anothers() {
    let mut table = MuteTable::new();
    create_timed_mute(&mut table, "alice", "did:plc:bob", 0, 10, STATUS_PENDING);
    create_timed_mute(&mut table, "carol", "did:plc:bob", 0, 10, STATUS_PENDING);
    // alice's group succeeds; carol's group is aborted (stale credentials)
    let succeeded = vec!["did:plc:bob".to_string()];
    update_timed_mute_list_v1(&mut table, "alice", &succeeded, STATUS_RESOLVED);
    assert_eq!(table.rows[0].status, STATUS_RESOLVED);
    assert_eq!(table.rows[1].status, STATUS_PENDING);
}

#[test]
fn alice_mutes_bob_for_an_hour() {
    // owner alice mutes target bob for 3600 seconds at t = 0
    let mut table = MuteTable::new();
    let ticket = timed_mute::lifecycle::begin_create("alice".to_string(), 3600, 0).unwrap();
    let r = timed_mute::lifecycle::finish_create(&mut table, &ticket, Some("bob"), true);
    assert!(r.is_ok());
    // a sweep at t = 3600 is still too early
    assert_eq!(plan_sweep(&table, 3600).len(), 0);
    // a sweep just past the deadline reverses the mute exactly once
    let plan = plan_sweep(&table, 3601);
    assert_eq!(plan.len(), 1);
    assert_eq!(plan[0].owner, "alice");
    assert_eq!(plan[0].targets, vec!["bob".to_string()]);
    let succeeded = vec!["bob".to_string()];
    update_timed_mute_list_v1(&mut table, "alice", &succeeded, STATUS_RESOLVED);
    assert_eq!(table.rows[0].status, STATUS_RESOLVED);
    // and the entry never reappears in a plan
    assert_eq!(plan_sweep(&table, 3601).len(), 0);
}

#[test]
fn both_kinds_are_swept_against_one_clock_reading() {
    let mut mutes = MuteTable::new();
    let mut words = MuteTable::new();
    create_timed_mute(&mut mutes, "alice", "did:plc:bob", 0, 1, STATUS_PENDING);
    create_timed_mute(&mut words, "alice", "spoilers", 0, 1, STATUS_PENDING);
    let (now, plan) = resolve_timed_mutes(&mutes, &words);
    assert!(now > 1);
    assert_eq!(plan.mutes.len(), 1);
    assert_eq!(plan.mutes[0].targets, vec!["did:plc:bob".to_string()]);
    assert_eq!(plan.mute_words.len(), 1);
    assert_eq!(plan.mute_words[0].targets, vec!["spoilers".to_string()]);
}

#[test]
fn sweep_guard_is_single_flight() {
    let mut guard = SweepGuard::new();
    assert!(guard.try_begin());
    // a second trigger while the sweep runs starts nothing
    assert!(!guard.try_begin());
    guard.finish();
    assert!(guard.try_begin());
}
