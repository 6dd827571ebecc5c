//! Behaviour of the shader receiver state machine, driven with plain integer
//! artifacts in place of loaded libraries.

use cohen_gig::shader::{
    Activity, BuildError, BuildOutcome, LastIncoming, ShaderEvent, ShaderReceiver,
};

fn failure(text: &str) -> BuildOutcome<u32> {
    BuildOutcome::Failure(BuildError::new(text.to_string()))
}

#[test]
fn fresh_receiver_reports_no_build_and_no_artifact() {
    let mut rx: ShaderReceiver<u32> = ShaderReceiver::new(0);
    assert!(matches!(rx.activity(), Activity::LastIncoming(LastIncoming::Succeeded)));
    assert!(matches!(rx.last_incoming(), LastIncoming::Succeeded));
    assert_eq!(rx.last_timestamp(), 0);
    for now in 1..100u64 {
        assert_eq!(rx.update(now), None);
    }
    // No result was ever received, so the timestamp never moved.
    assert_eq!(rx.last_timestamp(), 0);
}

#[test]
fn successful_build_is_delivered_exactly_once() {
    let mut rx: ShaderReceiver<u32> = ShaderReceiver::new(0);
    rx.push_event(ShaderEvent::Announced(1));
    assert_eq!(rx.update(5), None);
    assert!(matches!(rx.activity(), Activity::Incoming));
    rx.push_event(ShaderEvent::Completed(1, BuildOutcome::Success(7)));
    assert_eq!(rx.update(6), Some(7));
    assert_eq!(rx.last_timestamp(), 6);
    assert!(matches!(rx.activity(), Activity::LastIncoming(LastIncoming::Succeeded)));
    // The artifact was handed over once; later polls yield nothing.
    assert_eq!(rx.update(7), None);
    assert_eq!(rx.update(8), None);
}

#[test]
fn failed_build_reports_diagnostics_and_no_artifact() {
    let mut rx: ShaderReceiver<u32> = ShaderReceiver::new(0);
    rx.push_event(ShaderEvent::Announced(1));
    rx.push_event(ShaderEvent::Completed(1, failure("expected one of `::`, `;`")));
    assert_eq!(rx.update(9), None);
    match rx.last_incoming() {
        LastIncoming::Failed(err) => {
            assert!(!err.message().is_empty());
            assert_eq!(err.message(), "expected one of `::`, `;`");
        }
        LastIncoming::Succeeded => panic!("failure was not recorded"),
    }
    assert_eq!(rx.last_timestamp(), 9);
}

#[test]
fn superseded_build_is_never_delivered() {
    // Two builds complete while the receiver is away; only the newer counts.
    let mut rx: ShaderReceiver<u32> = ShaderReceiver::new(0);
    rx.push_event(ShaderEvent::Announced(1));
    rx.push_event(ShaderEvent::Completed(1, BuildOutcome::Success(1)));
    rx.push_event(ShaderEvent::Announced(2));
    rx.push_event(ShaderEvent::Completed(2, failure("newer build broke")));
    assert_eq!(rx.update(10), None);
    assert!(matches!(rx.last_incoming(), LastIncoming::Failed(_)));
}

#[test]
fn latest_of_stacked_successes_wins() {
    let mut rx: ShaderReceiver<u32> = ShaderReceiver::new(0);
    rx.push_event(ShaderEvent::Announced(1));
    rx.push_event(ShaderEvent::Completed(1, BuildOutcome::Success(11)));
    rx.push_event(ShaderEvent::Announced(2));
    rx.push_event(ShaderEvent::Completed(2, BuildOutcome::Success(22)));
    assert_eq!(rx.update(3), Some(22));
    assert_eq!(rx.update(4), None);
}

#[test]
fn awaited_build_resolves_before_newer_announcement_is_accepted() {
    let mut rx: ShaderReceiver<u32> = ShaderReceiver::new(0);
    rx.push_event(ShaderEvent::Announced(1));
    assert_eq!(rx.update(1), None);
    // While build 1 is awaited, build 2 is announced and build 1 completes.
    rx.push_event(ShaderEvent::Announced(2));
    rx.push_event(ShaderEvent::Completed(1, BuildOutcome::Success(100)));
    assert_eq!(rx.update(2), Some(100));
    // Only now is build 2's announcement taken up.
    assert_eq!(rx.update(3), None);
    assert!(matches!(rx.activity(), Activity::Incoming));
    rx.push_event(ShaderEvent::Completed(2, BuildOutcome::Success(200)));
    assert_eq!(rx.update(4), Some(200));
}

#[test]
fn no_success_means_none_forever() {
    let mut rx: ShaderReceiver<u32> = ShaderReceiver::new(0);
    for id in 1..20u64 {
        rx.push_event(ShaderEvent::Announced(id));
        rx.push_event(ShaderEvent::Completed(id, failure("still broken")));
    }
    for now in 0..200u64 {
        assert_eq!(rx.update(now), None);
        match rx.activity() {
            Activity::Incoming => {}
            Activity::LastIncoming(LastIncoming::Succeeded) => {
                // Only the initial sentinel may read as succeeded, before any
                // completion has been observed.
                assert_eq!(rx.last_timestamp(), 0);
            }
            Activity::LastIncoming(LastIncoming::Failed(_)) => {}
        }
    }
    assert!(matches!(rx.last_incoming(), LastIncoming::Failed(_)));
}

#[test]
fn failing_rebuild_leaves_delivered_artifact_untouched() {
    let mut rx: ShaderReceiver<u32> = ShaderReceiver::new(0);
    rx.push_event(ShaderEvent::Announced(1));
    rx.push_event(ShaderEvent::Completed(1, BuildOutcome::Success(42)));
    let artifact = rx.update(1).expect("first build should be delivered");
    // A later rebuild fails; the artifact the render loop holds is its own
    // value now and keeps working.
    rx.push_event(ShaderEvent::Announced(2));
    rx.push_event(ShaderEvent::Completed(2, failure("edit broke the shader")));
    assert_eq!(rx.update(2), None);
    assert!(matches!(rx.last_incoming(), LastIncoming::Failed(_)));
    assert_eq!(artifact, 42);
}

#[test]
fn polling_is_cheap_and_repeatable() {
    let mut rx: ShaderReceiver<u32> = ShaderReceiver::new(0);
    rx.push_event(ShaderEvent::Announced(1));
    for now in 0..10_000u64 {
        assert_eq!(rx.update(now), None);
        assert!(matches!(rx.activity(), Activity::Incoming));
    }
}
