//! Store operations, profiles and the muted-words preference list.

use timed_mute::models::{
    Profile, TimedMute, TimedMuteWord, STATUS_CANCELLED, STATUS_PENDING, STATUS_RESOLVED,
};
use timed_mute::prefs::{add_mute_word_to_pref, remove_mute_word_from_pref, MutedWordsPref};
use timed_mute::errors::MuteError;
use timed_mute::profile::{
    create_profile, credentials_for, deactivate_profile, fetch_profile, fetch_profile_v1,
    record_login, update_profile, ProfileTable, PROFILE_ACTIVE, PROFILE_DEACTIVATED,
};
use timed_mute::store::{
    create_timed_mute, create_timed_mute_word, fetch_timed_mute_words, fetch_timed_mute_words_v1,
    fetch_timed_mutes, fetch_timed_mutes_for_user, fetch_timed_mutes_v1, find_pending,
    update_timed_mute, update_timed_mute_list_v1, update_timed_mute_v1, update_timed_mute_word,
    update_timed_mute_word_list_v1, MuteTable,
};

#[test]
fn row_constructors_keep_fields() {
    let m = TimedMute::new("alice".into(), "did:plc:bob".into(), 1, 2, 0);
    assert_eq!(m.actor, "alice");
    assert_eq!(m.muted_actor, "did:plc:bob");
    assert_eq!(m.created_date, 1);
    assert_eq!(m.expiration_date, 2);
    assert_eq!(m.status, 0);
    let w = TimedMuteWord::new("alice".into(), "spoilers".into(), 1, 2, 0);
    assert_eq!(w.muted_word, "spoilers");
    let p = Profile::new("did:plc:a".into(), "alice.example".into(), "pw".into(), 0);
    assert_eq!(p.handle, "alice.example");
    let e = w.into_entry();
    assert_eq!(e.owner, "alice");
    assert_eq!(e.target, "spoilers");
    let e2 = m.into_entry();
    assert_eq!(e2.target, "did:plc:bob");
}

#[test]
fn fetch_filters_by_owner_and_pending_status() {
    let mut table = MuteTable::new();
    create_timed_mute(&mut table, "alice", "did:plc:b1", 0, 10, STATUS_PENDING);
    create_timed_mute(&mut table, "carol", "did:plc:b2", 0, 10, STATUS_PENDING);
    create_timed_mute(&mut table, "alice", "did:plc:b3", 0, 20, STATUS_PENDING);
    table.rows[2].status = STATUS_RESOLVED;
    let mine = fetch_timed_mutes(&table, "alice");
    assert_eq!(mine.len(), 1);
    assert_eq!(mine[0].actor, "alice");
    assert_eq!(mine[0].muted_actor, "did:plc:b1");
    assert_eq!(mine[0].status, STATUS_PENDING);
    let same = fetch_timed_mutes_for_user(&table, "alice");
    assert_eq!(same.len(), 1);
    let all = fetch_timed_mutes_v1(&table);
    assert_eq!(all.len(), 2);
}

#[test]
fn fetch_words_filters_by_owner_and_pending_status() {
    let mut table = MuteTable::new();
    create_timed_mute_word(&mut table, "alice", "spoilers", 0, 10, STATUS_PENDING);
    create_timed_mute_word(&mut table, "alice", "politics", 0, 10, STATUS_PENDING);
    table.rows[1].status = STATUS_CANCELLED;
    let mine = fetch_timed_mute_words(&table, "alice");
    assert_eq!(mine.len(), 1);
    assert_eq!(mine[0].muted_word, "spoilers");
    let all = fetch_timed_mute_words_v1(&table);
    assert_eq!(all.len(), 1);
}

#[test]
fn update_matches_on_owner_target_and_deadline() {
    let mut table = MuteTable::new();
    create_timed_mute(&mut table, "alice", "did:plc:bob", 0, 10, STATUS_PENDING);
    create_timed_mute(&mut table, "alice", "did:plc:bob", 0, 20, STATUS_PENDING);
    // the deadline disambiguates between historical rows of the same pair
    assert!(update_timed_mute(&mut table, "alice", "did:plc:bob", 20, STATUS_CANCELLED));
    assert_eq!(table.rows[0].status, STATUS_PENDING);
    assert_eq!(table.rows[1].status, STATUS_CANCELLED);
    // a second cancel of the same key finds nothing pending
    assert!(!update_timed_mute(&mut table, "alice", "did:plc:bob", 20, STATUS_CANCELLED));
}

#[test]
fn update_word_matches_on_owner_and_keyword() {
    let mut table = MuteTable::new();
    create_timed_mute_word(&mut table, "alice", "spoilers", 0, 10, STATUS_PENDING);
    create_timed_mute_word(&mut table, "carol", "spoilers", 0, 10, STATUS_PENDING);
    assert!(update_timed_mute_word(&mut table, "alice", "spoilers", STATUS_CANCELLED));
    assert_eq!(table.rows[0].status, STATUS_CANCELLED);
    assert_eq!(table.rows[1].status, STATUS_PENDING);
}

#[test]
fn update_by_index_checks_owner_and_status() {
    let mut table = MuteTable::new();
    create_timed_mute(&mut table, "alice", "did:plc:bob", 0, 10, STATUS_PENDING);
    assert!(!update_timed_mute_v1(&mut table, "carol", 0, STATUS_RESOLVED));
    assert!(!update_timed_mute_v1(&mut table, "alice", 7, STATUS_RESOLVED));
    assert!(update_timed_mute_v1(&mut table, "alice", 0, STATUS_RESOLVED));
    assert_eq!(table.rows[0].status, STATUS_RESOLVED);
    assert!(!update_timed_mute_v1(&mut table, "alice", 0, STATUS_RESOLVED));
}

#[test]
fn bulk_transition_touches_only_listed_pending_targets() {
    let mut table = MuteTable::new();
    create_timed_mute(&mut table, "alice", "did:plc:b1", 0, 10, STATUS_PENDING);
    create_timed_mute(&mut table, "alice", "did:plc:b2", 0, 10, STATUS_PENDING);
    create_timed_mute(&mut table, "carol", "did:plc:b1", 0, 10, STATUS_PENDING);
    let list = vec!["did:plc:b1".to_string()];
    assert!(update_timed_mute_list_v1(&mut table, "alice", &list, STATUS_RESOLVED));
    assert_eq!(table.rows[0].status, STATUS_RESOLVED);
    assert_eq!(table.rows[1].status, STATUS_PENDING);
    assert_eq!(table.rows[2].status, STATUS_PENDING);
    let none: Vec<String> = Vec::new();
    assert!(!update_timed_mute_word_list_v1(&mut table, "alice", &none, STATUS_RESOLVED));
}

#[test]
fn find_pending_reports_the_matching_row() {
    let mut table = MuteTable::new();
    create_timed_mute(&mut table, "alice", "did:plc:bob", 0, 10, STATUS_PENDING);
    assert_eq!(find_pending(&table, "alice", "did:plc:bob", 10), Some(0));
    assert_eq!(find_pending(&table, "alice", "did:plc:bob", 11), None);
    table.rows[0].status = STATUS_RESOLVED;
    assert_eq!(find_pending(&table, "alice", "did:plc:bob", 10), None);
}

#[test]
fn profiles_are_stored_and_fetched_by_did() {
    let mut table = ProfileTable::new();
    create_profile(&mut table, "did:plc:a", "alice.example", "pw1");
    create_profile(&mut table, "did:plc:c", "carol.example", "pw2");
    let found = fetch_profile(&table, "did:plc:a");
    assert_eq!(found.len(), 1);
    assert_eq!(found[0].handle, "alice.example");
    assert_eq!(found[0].password, "pw1");
    assert_eq!(found[0].status, PROFILE_ACTIVE);
    assert_eq!(fetch_profile_v1(&table, "did:plc:x").len(), 0);
}

#[test]
fn update_profile_replaces_the_password() {
    let mut table = ProfileTable::new();
    create_profile(&mut table, "did:plc:a", "alice.example", "pw1");
    update_profile(&mut table, "did:plc:a", "alice.example", "pw2");
    assert_eq!(table.rows[0].password, "pw2");
}

#[test]
fn deactivate_profile_clears_the_credential() {
    let mut table = ProfileTable::new();
    create_profile(&mut table, "did:plc:a", "alice.example", "pw1");
    deactivate_profile(&mut table, "did:plc:a");
    assert_eq!(table.rows[0].password, "");
    assert_eq!(table.rows[0].status, PROFILE_DEACTIVATED);
}

#[test]
fn credentials_require_an_active_profile() {
    let mut table = ProfileTable::new();
    let missing = credentials_for(&table, "did:plc:a");
    assert_eq!(missing.unwrap_err(), MuteError::ProviderAuthError);
    create_profile(&mut table, "did:plc:a", "alice.example", "pw1");
    let p = credentials_for(&table, "did:plc:a").unwrap();
    assert_eq!(p.handle, "alice.example");
    assert_eq!(p.password, "pw1");
    deactivate_profile(&mut table, "did:plc:a");
    let gone = credentials_for(&table, "did:plc:a");
    assert_eq!(gone.unwrap_err(), MuteError::ProviderAuthError);
}

#[test]
fn first_login_stores_the_profile() {
    let mut table = ProfileTable::new();
    record_login(&mut table, "did:plc:a", "alice.example", "pw1");
    assert_eq!(table.rows.len(), 1);
    assert_eq!(table.rows[0].did, "did:plc:a");
    assert_eq!(table.rows[0].password, "pw1");
}

#[test]
fn login_with_wrong_password_changes_nothing() {
    let mut table = ProfileTable::new();
    record_login(&mut table, "did:plc:a", "alice.example", "pw1");
    record_login(&mut table, "did:plc:a", "alice.example", "other");
    assert_eq!(table.rows.len(), 1);
    assert_eq!(table.rows[0].password, "pw1");
}

#[test]
fn muted_word_is_added_with_both_targets() {
    let mut pref = MutedWordsPref::new();
    add_mute_word_to_pref(&mut pref, "spoilers".to_string());
    assert_eq!(pref.items.len(), 1);
    assert_eq!(pref.items[0].value, "spoilers");
    assert_eq!(pref.items[0].targets, vec!["tag".to_string(), "content".to_string()]);
}

#[test]
fn muted_word_is_removed_and_others_kept() {
    let mut pref = MutedWordsPref::new();
    add_mute_word_to_pref(&mut pref, "spoilers".to_string());
    add_mute_word_to_pref(&mut pref, "politics".to_string());
    add_mute_word_to_pref(&mut pref, "spoilers".to_string());
    remove_mute_word_from_pref(&mut pref, "spoilers");
    assert_eq!(pref.items.len(), 1);
    assert_eq!(pref.items[0].value, "politics");
}
