//! The job store's lifecycle bookkeeping: transitions, refusals, and the
//! input-artifact flag.

use quicksim::store::{JobState, JobStore};

#[test]
fn created_job_is_pending_with_input_staged() {
    let mut store = JobStore::new();
    assert!(store.create("a".to_string()));
    assert_eq!(store.get_state(&"a".to_string()), Some(JobState::Pending));
    assert_eq!(store.input_staged(&"a".to_string()), Some(true));
}

#[test]
fn duplicate_id_is_refused() {
    let mut store = JobStore::new();
    assert!(store.create("a".to_string()));
    assert!(!store.create("a".to_string()));
}

#[test]
fn unknown_id_has_no_state() {
    let store = JobStore::new();
    assert_eq!(store.get_state(&"ghost".to_string()), None);
    assert_eq!(store.input_staged(&"ghost".to_string()), None);
}

#[test]
fn dispatch_is_recorded_once() {
    let mut store = JobStore::new();
    assert!(store.create("a".to_string()));
    assert!(store.mark_running(&"a".to_string()));
    assert!(!store.mark_running(&"a".to_string()));
    assert_eq!(store.get_state(&"a".to_string()), Some(JobState::Running));
}

#[test]
fn successful_finish_completes_and_clears_input() {
    let mut store = JobStore::new();
    assert!(store.create("a".to_string()));
    assert!(store.mark_running(&"a".to_string()));
    assert!(store.finish(&"a".to_string(), true));
    assert_eq!(store.get_state(&"a".to_string()), Some(JobState::Completed));
    assert_eq!(store.input_staged(&"a".to_string()), Some(false));
}

#[test]
fn failed_finish_fails_and_clears_input() {
    let mut store = JobStore::new();
    assert!(store.create("a".to_string()));
    assert!(store.mark_running(&"a".to_string()));
    assert!(store.finish(&"a".to_string(), false));
    assert_eq!(store.get_state(&"a".to_string()), Some(JobState::Failed));
    assert_eq!(store.input_staged(&"a".to_string()), Some(false));
}

#[test]
fn finished_job_cannot_finish_again() {
    let mut store = JobStore::new();
    assert!(store.create("a".to_string()));
    assert!(store.finish(&"a".to_string(), true));
    assert!(!store.finish(&"a".to_string(), false));
    assert_eq!(store.get_state(&"a".to_string()), Some(JobState::Completed));
}
