//! End-to-end scenarios of the job lifecycle: submission, polling while the
//! job runs, completion, failure, and independence of concurrent submissions.

use quicksim::poll::{poll_reply, render_reply, PollReply};
use quicksim::store::{JobState, JobStore};
use quicksim::submit::{status_page_target, submit, submit_new};

fn output_doc(mean: &str) -> String {
    format!(
        "{{\"sim\":{{\"players\":[{{\"collected_data\":{{\"dps\":{{\"mean\":{}}}}}}}]}}}}",
        mean
    )
}

#[test]
fn scenario_submit_then_poll_to_completion() {
    let mut store = JobStore::new();
    let t = submit(&mut store, "J1".to_string(), "actor=Warrior").expect("fresh id accepted");
    assert_eq!(t.id, "J1");
    assert_eq!(t.staged, "actor=Warrior\nmax_time=300\niterations=10000\n");
    assert_eq!(t.input_path, "files/J1.simc");
    assert_eq!(t.output_path, "files/J1.json");
    assert_eq!(status_page_target(&t.id), "/quicksim/J1");

    let early = poll_reply(store.get_state(&"J1".to_string()), None);
    assert!(matches!(early, PollReply::StillRunning));
    assert_eq!(render_reply(&early), "{\"error\":\"Simulation running\"}");

    assert!(store.mark_running(&"J1".to_string()));
    assert!(store.finish(&"J1".to_string(), true));
    let out = output_doc("12345.6");
    let done = poll_reply(store.get_state(&"J1".to_string()), Some(&out));
    assert_eq!(render_reply(&done), "{\"dps\":12345.6}");
}

#[test]
fn scenario_failed_execution_reports_terminal_error() {
    let mut store = JobStore::new();
    submit(&mut store, "J2".to_string(), "actor=Mage").expect("fresh id accepted");
    assert!(store.mark_running(&"J2".to_string()));
    assert!(store.finish(&"J2".to_string(), false));

    let after = poll_reply(store.get_state(&"J2".to_string()), None);
    assert!(matches!(after, PollReply::TerminalError));
    assert_eq!(render_reply(&after), "{\"error\":\"Simulation failed\"}");
}

#[test]
fn scenario_two_submissions_are_independent() {
    let mut store = JobStore::new();
    let a = submit(&mut store, "A".to_string(), "actor=One").expect("fresh id accepted");
    let b = submit(&mut store, "B".to_string(), "actor=Two").expect("fresh id accepted");
    assert_ne!(a.id, b.id);
    assert_ne!(a.input_path, b.input_path);
    assert_ne!(a.output_path, b.output_path);
    assert_ne!(a.input_path, a.output_path);
    assert_ne!(a.input_path, b.output_path);
    assert_ne!(b.input_path, a.output_path);
    assert_ne!(b.input_path, b.output_path);
}

#[test]
fn submitted_ids_are_never_reused() {
    let mut store = JobStore::new();
    assert!(submit(&mut store, "same".to_string(), "x").is_some());
    assert!(submit(&mut store, "same".to_string(), "y").is_none());
    assert_eq!(store.get_state(&"same".to_string()), Some(JobState::Pending));
}

#[test]
fn random_ids_are_fresh_tokens() {
    let mut store = JobStore::new();
    let a = submit_new(&mut store, "actor=One").expect("random id accepted");
    let b = submit_new(&mut store, "actor=Two").expect("random id accepted");
    assert_ne!(a.id, b.id);
    assert_eq!(a.id.len(), 36);
    assert_eq!(b.id.len(), 36);
    assert_eq!(a.staged, "actor=One\nmax_time=300\niterations=10000\n");
}

#[test]
fn poll_on_unknown_id_is_still_running() {
    let store = JobStore::new();
    let r = poll_reply(store.get_state(&"nobody".to_string()), None);
    assert!(matches!(r, PollReply::StillRunning));
    assert_eq!(render_reply(&r), "{\"error\":\"Simulation running\"}");
}

#[test]
fn malformed_output_of_live_job_is_still_running() {
    let mut store = JobStore::new();
    submit(&mut store, "J3".to_string(), "actor=Rogue").expect("fresh id accepted");
    assert!(store.mark_running(&"J3".to_string()));
    let partial = "{\"sim\":{\"play".to_string();
    let r = poll_reply(store.get_state(&"J3".to_string()), Some(&partial));
    assert!(matches!(r, PollReply::StillRunning));
}

#[test]
fn metric_is_served_even_for_failed_state_if_readable() {
    let mut store = JobStore::new();
    submit(&mut store, "J4".to_string(), "actor=Druid").expect("fresh id accepted");
    assert!(store.mark_running(&"J4".to_string()));
    assert!(store.finish(&"J4".to_string(), false));
    let out = output_doc("77.5");
    let r = poll_reply(store.get_state(&"J4".to_string()), Some(&out));
    assert_eq!(render_reply(&r), "{\"dps\":77.5}");
}
