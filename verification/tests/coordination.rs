//! Update coordination: the watermark, the defer/retry policy, and the
//! starvation warning.

use peerd::bird::ExtractError;
use peerd::coord::{plan_cycle, BirdCoordinator, BirdSettings, CycleAction, RetryDecision};
use peerd::render::RenderOutcome;

fn settings(do_reconfigure: bool) -> BirdSettings {
    BirdSettings {
        generated_conf: b"/etc/bird/peers.conf".to_vec(),
        control_sock: b"/run/bird/bird.ctl".to_vec(),
        do_reconfigure,
    }
}

#[test]
fn watermark_advances_monotonically() {
    let mut c = BirdCoordinator::new();
    assert_eq!(c.watermark_millis, 0);
    c.note_request(100);
    assert_eq!(c.watermark_millis, 100);
    c.note_request(50);
    assert_eq!(c.watermark_millis, 100);
    c.note_request(170);
    assert_eq!(c.watermark_millis, 170);
}

#[test]
fn superseded_retry_is_dropped() {
    let mut c = BirdCoordinator::new();
    c.note_request(100);
    c.note_request(200);
    assert_eq!(c.on_retry_timer(100, 0), RetryDecision::Drop);
}

#[test]
fn current_retry_fires_with_incremented_count() {
    let mut c = BirdCoordinator::new();
    c.note_request(100);
    assert_eq!(
        c.on_retry_timer(100, 3),
        RetryDecision::Fire { attempt: 4, warn: false }
    );
    assert_eq!(
        c.on_retry_timer(250, 0),
        RetryDecision::Fire { attempt: 1, warn: false }
    );
}

#[test]
fn starvation_warning_on_51st_attempt_and_chain_continues() {
    let mut c = BirdCoordinator::new();
    c.note_request(10);
    let mut retry_count: u32 = 0;
    let mut first_warn_at: Option<u32> = None;
    while retry_count <= 60 {
        match c.on_retry_timer(10, retry_count) {
            RetryDecision::Fire { attempt, warn } => {
                assert_eq!(attempt, retry_count + 1);
                if warn && first_warn_at.is_none() {
                    first_warn_at = Some(retry_count);
                }
                retry_count = attempt;
            }
            RetryDecision::Drop => panic!("a current retry must fire"),
        }
    }
    assert_eq!(first_warn_at, Some(51));
}

#[test]
fn deferral_is_not_a_failure_and_keeps_the_count() {
    let a = plan_cycle(&settings(true), RenderOutcome::Deferred, 7);
    match a {
        CycleAction::Defer { retry_count } => assert_eq!(retry_count, 7),
        _ => panic!("a contended roster must defer"),
    }
}

#[test]
fn rendered_artifact_is_written_and_reconfigures_when_asked() {
    let a = plan_cycle(&settings(true), RenderOutcome::Rendered(b"# x".to_vec()), 0);
    match a {
        CycleAction::Write { text, reconfigure } => {
            assert_eq!(text, b"# x".to_vec());
            assert!(reconfigure);
        }
        _ => panic!("a rendered artifact must be written"),
    }
    let b = plan_cycle(&settings(false), RenderOutcome::Rendered(b"# x".to_vec()), 0);
    match b {
        CycleAction::Write { reconfigure, .. } => assert!(!reconfigure),
        _ => panic!("a rendered artifact must be written"),
    }
}

#[test]
fn extraction_error_fails_the_cycle() {
    let a = plan_cycle(&settings(true), RenderOutcome::Failed(ExtractError::AsMissing), 0);
    match a {
        CycleAction::Fail(e) => assert_eq!(e, ExtractError::AsMissing),
        _ => panic!("an extraction error must fail the cycle"),
    }
}
