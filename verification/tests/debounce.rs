//! Behaviour of the watcher's debounce policy.

use cohen_gig::watch::{coalesce_pending, debounce_batches};

#[test]
fn burst_within_window_triggers_one_rebuild_on_last_state() {
    // Five change events within the 16 ms window collapse to one rebuild,
    // and it uses the state as of the last event.
    let times: Vec<u64> = vec![100, 102, 105, 110, 114];
    let triggers = debounce_batches(&times, 16);
    assert_eq!(triggers, vec![4]);
}

#[test]
fn two_edits_five_millis_apart_build_once() {
    let times: Vec<u64> = vec![0, 5];
    let triggers = debounce_batches(&times, 16);
    assert_eq!(triggers, vec![1]);
}

#[test]
fn separated_bursts_each_trigger_once() {
    // Three bursts: {0, 5}, {40}, {140, 150}.
    let times: Vec<u64> = vec![0, 5, 40, 140, 150];
    let triggers = debounce_batches(&times, 16);
    assert_eq!(triggers, vec![1, 2, 4]);
}

#[test]
fn no_events_trigger_nothing() {
    let times: Vec<u64> = Vec::new();
    let triggers = debounce_batches(&times, 16);
    assert!(triggers.is_empty());
}

#[test]
fn single_event_triggers_itself() {
    let times: Vec<u64> = vec![7];
    assert_eq!(debounce_batches(&times, 16), vec![0]);
}

#[test]
fn window_boundary_is_inclusive() {
    // An event arriving exactly at the deadline still joins the batch; one
    // millisecond later it opens a new one.
    assert_eq!(debounce_batches(&vec![0, 16], 16), vec![1]);
    assert_eq!(debounce_batches(&vec![0, 17], 16), vec![0, 1]);
}

#[test]
fn drain_keeps_the_most_recent_snapshot() {
    assert_eq!(coalesce_pending("first", Vec::<&str>::new()), "first");
    assert_eq!(coalesce_pending("first", vec!["second", "third"]), "third");
}
