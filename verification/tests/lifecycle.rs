//! Creation and cancellation flows of the lifecycle engine.

use timed_mute::errors::{MuteError, UserError};
use timed_mute::lifecycle::{
    begin_create, cancel_requested, cancel_word_requested, finish_cancel, finish_cancel_word,
    finish_create, finish_create_word,
};
use timed_mute::models::{STATUS_CANCELLED, STATUS_PENDING, STATUS_RESOLVED};
use timed_mute::store::{create_timed_mute, MuteTable};

#[test]
fn create_rejects_zero_duration() {
    let r = begin_create("alice".to_string(), 0, 1_000);
    assert_eq!(r.unwrap_err(), MuteError::InvalidDuration);
}

#[test]
fn create_rejects_negative_duration() {
    let r = begin_create("alice".to_string(), -3600, 1_000);
    assert_eq!(r.unwrap_err(), MuteError::InvalidDuration);
}

#[test]
fn create_rejects_overflowing_deadline() {
    let r = begin_create("alice".to_string(), 10, i64::MAX - 5);
    assert_eq!(r.unwrap_err(), MuteError::InvalidDuration);
}

#[test]
fn create_fixes_timestamps() {
    let t = begin_create("alice".to_string(), 3600, 1_000).unwrap();
    assert_eq!(t.owner, "alice");
    assert_eq!(t.created_date, 1_000);
    assert_eq!(t.expiration_date, 4_600);
}

#[test]
fn create_persists_pending_row_on_success() {
    let mut table = MuteTable::new();
    let t = begin_create("alice".to_string(), 3600, 1_000).unwrap();
    let r = finish_create(&mut table, &t, Some("did:plc:bob"), true);
    assert!(r.is_ok());
    assert_eq!(table.rows.len(), 1);
    assert_eq!(table.rows[0].owner, "alice");
    assert_eq!(table.rows[0].target, "did:plc:bob");
    assert_eq!(table.rows[0].created_date, 1_000);
    assert_eq!(table.rows[0].expiration_date, 4_600);
    assert_eq!(table.rows[0].status, STATUS_PENDING);
}

#[test]
fn create_persists_nothing_when_mute_call_fails() {
    let mut table = MuteTable::new();
    let t = begin_create("alice".to_string(), 3600, 1_000).unwrap();
    let r = finish_create(&mut table, &t, Some("did:plc:bob"), false);
    assert_eq!(r.unwrap_err(), MuteError::ProviderActionError);
    assert_eq!(table.rows.len(), 0);
}

#[test]
fn create_persists_nothing_when_resolution_fails() {
    let mut table = MuteTable::new();
    let t = begin_create("alice".to_string(), 3600, 1_000).unwrap();
    let r = finish_create(&mut table, &t, None, true);
    assert_eq!(r.unwrap_err(), MuteError::InvalidTarget);
    assert_eq!(table.rows.len(), 0);
}

#[test]
fn create_word_persists_pending_row_on_success() {
    let mut table = MuteTable::new();
    let t = begin_create("alice".to_string(), 60, 0).unwrap();
    let r = finish_create_word(&mut table, &t, "spoilers", true);
    assert!(r.is_ok());
    assert_eq!(table.rows.len(), 1);
    assert_eq!(table.rows[0].target, "spoilers");
    assert_eq!(table.rows[0].status, STATUS_PENDING);
}

#[test]
fn create_word_persists_nothing_when_mute_call_fails() {
    let mut table = MuteTable::new();
    let t = begin_create("alice".to_string(), 60, 0).unwrap();
    let r = finish_create_word(&mut table, &t, "spoilers", false);
    assert_eq!(r.unwrap_err(), MuteError::ProviderActionError);
    assert_eq!(table.rows.len(), 0);
}

#[test]
fn cancel_finds_pending_entry() {
    let mut table = MuteTable::new();
    create_timed_mute(&mut table, "alice", "did:plc:bob", 0, 3600, STATUS_PENDING);
    assert!(cancel_requested(&table, "alice", "did:plc:bob", 3600).is_ok());
}

#[test]
fn cancel_misses_nonexistent_entry() {
    let table = MuteTable::new();
    let r = cancel_requested(&table, "alice", "did:plc:bob", 3600);
    assert_eq!(r.unwrap_err(), MuteError::NotFoundOrUnauthorized);
}

#[test]
fn cancel_misses_other_owners_entry() {
    let mut table = MuteTable::new();
    create_timed_mute(&mut table, "carol", "did:plc:bob", 0, 3600, STATUS_PENDING);
    // another owner's entry answers exactly like a missing one
    let r = cancel_requested(&table, "alice", "did:plc:bob", 3600);
    assert_eq!(r.unwrap_err(), MuteError::NotFoundOrUnauthorized);
}

#[test]
fn cancel_misses_terminal_entry() {
    let mut table = MuteTable::new();
    create_timed_mute(&mut table, "alice", "did:plc:bob", 0, 3600, STATUS_PENDING);
    table.rows[0].status = STATUS_RESOLVED;
    assert!(cancel_requested(&table, "alice", "did:plc:bob", 3600).is_err());
    let mut table2 = MuteTable::new();
    create_timed_mute(&mut table2, "alice", "did:plc:bob", 0, 3600, STATUS_PENDING);
    table2.rows[0].status = STATUS_CANCELLED;
    assert!(cancel_requested(&table2, "alice", "did:plc:bob", 3600).is_err());
}

#[test]
fn cancel_transitions_entry_when_unmute_succeeds() {
    let mut table = MuteTable::new();
    create_timed_mute(&mut table, "alice", "did:plc:bob", 0, 3600, STATUS_PENDING);
    let r = finish_cancel(&mut table, "alice", "did:plc:bob", 3600, true);
    assert_eq!(r.unwrap(), true);
    assert_eq!(table.rows[0].status, STATUS_CANCELLED);
}

#[test]
fn cancel_leaves_entry_pending_when_unmute_fails() {
    let mut table = MuteTable::new();
    create_timed_mute(&mut table, "alice", "did:plc:bob", 0, 3600, STATUS_PENDING);
    let r = finish_cancel(&mut table, "alice", "did:plc:bob", 3600, false);
    assert_eq!(r.unwrap_err(), MuteError::ProviderActionError);
    assert_eq!(table.rows[0].status, STATUS_PENDING);
}

#[test]
fn cancel_reports_lost_race_as_unchanged() {
    let mut table = MuteTable::new();
    create_timed_mute(&mut table, "alice", "did:plc:bob", 0, 3600, STATUS_PENDING);
    table.rows[0].status = STATUS_RESOLVED;
    let r = finish_cancel(&mut table, "alice", "did:plc:bob", 3600, true);
    assert_eq!(r.unwrap(), false);
    assert_eq!(table.rows[0].status, STATUS_RESOLVED);
}

#[test]
fn cancel_word_flow() {
    let mut table = MuteTable::new();
    create_timed_mute(&mut table, "alice", "spoilers", 0, 60, STATUS_PENDING);
    assert!(cancel_word_requested(&table, "alice", "spoilers").is_ok());
    let miss = cancel_word_requested(&table, "alice", "politics");
    assert_eq!(miss.unwrap_err(), MuteError::NotFoundOrUnauthorized);
    let r = finish_cancel_word(&mut table, "alice", "spoilers", true);
    assert_eq!(r.unwrap(), true);
    assert_eq!(table.rows[0].status, STATUS_CANCELLED);
    assert!(cancel_word_requested(&table, "alice", "spoilers").is_err());
}

#[test]
fn validation_errors_are_classified() {
    assert!(MuteError::InvalidDuration.is_validation());
    assert!(MuteError::InvalidTarget.is_validation());
    assert!(!MuteError::ProviderAuthError.is_validation());
    assert!(!MuteError::ProviderActionError.is_validation());
    assert!(!MuteError::NotFoundOrUnauthorized.is_validation());
}

#[test]
fn user_error_status_codes() {
    assert_eq!(UserError::ValidationError.status_code(), 400);
    assert_eq!(UserError::InternalError.status_code(), 500);
}
