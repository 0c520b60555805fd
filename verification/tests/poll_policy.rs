//! Tests of the steady-state per-event policy: what `poll_next` hands
//! the caller and whether the reclaimed slot is refilled.

use easycap::easycap::CaptureError;
use easycap::streaming::poll_policy;
use easycap::usb::PollEvent;

#[test]
fn completed_buffer_is_delivered_unchanged_and_resubmitted() {
    let payload: Vec<u8> = vec![0x88, 0x00, 0x42, 0xFF];
    let step = poll_policy(PollEvent::Completed(payload.clone()));
    assert!(step.resubmit);
    assert_eq!(step.outcome, Ok(payload));
}

#[test]
fn zero_length_buffer_is_delivered_unchanged_and_resubmitted() {
    let step = poll_policy(PollEvent::Completed(Vec::new()));
    assert!(step.resubmit);
    assert_eq!(step.outcome, Ok(Vec::new()));
}

#[test]
fn timeout_resubmits_nothing() {
    let step = poll_policy(PollEvent::TimedOut);
    assert!(!step.resubmit);
    assert_eq!(step.outcome, Err(CaptureError::Timeout));
}

#[test]
fn failed_transfer_is_dropped_and_resubmitted() {
    let step = poll_policy(PollEvent::Failed);
    assert!(step.resubmit);
    assert_eq!(step.outcome, Err(CaptureError::TransferFailed));
}
