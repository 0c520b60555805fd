//! Discovery against the real host stack: a vendor/product pair that no
//! attached device carries must come back as `NotFound`, with no device
//! touched.

use easycap::easycap::{
    fault_error, scan_decision, CaptureError, EasyCap, ScanDecision, EASYCAP_PID, EASYCAP_VID,
};
use easycap::usb::UsbFault;

#[test]
fn unmatched_ids_return_not_found() {
    // An id pair reserved to no vendor; nothing attached can match it.
    // On a host whose USB stack cannot be brought up at all (as in a
    // bare container), initialization itself fails first and is
    // reported as IoError; with a working bus the scan must come back
    // NotFound. Nothing is ever opened, so AccessDenied cannot occur.
    let r = EasyCap::discover_and_open(0x0000, 0x0000);
    match r {
        Ok(_) => panic!("no device with vendor id 0 should exist"),
        Err(CaptureError::NotFound) | Err(CaptureError::IoError) => (),
        Err(e) => panic!("unexpected discovery error: {:?}", e),
    }
}

#[test]
fn matching_descriptor_is_opened() {
    let d = scan_decision(Ok((EASYCAP_VID, EASYCAP_PID)), EASYCAP_VID, EASYCAP_PID);
    assert_eq!(d, ScanDecision::OpenDevice);
}

#[test]
fn non_matching_descriptor_is_skipped() {
    // Either id off means no match.
    let d = scan_decision(Ok((EASYCAP_VID, 0x3003)), EASYCAP_VID, EASYCAP_PID);
    assert_eq!(d, ScanDecision::Skip);
    let d2 = scan_decision(Ok((0x1b72, EASYCAP_PID)), EASYCAP_VID, EASYCAP_PID);
    assert_eq!(d2, ScanDecision::Skip);
}

#[test]
fn unreadable_descriptor_aborts_the_scan() {
    let d = scan_decision(Err(()), EASYCAP_VID, EASYCAP_PID);
    assert_eq!(d, ScanDecision::Abort(CaptureError::IoError));
}

#[test]
fn open_faults_map_to_their_error_kinds() {
    assert_eq!(fault_error(UsbFault::Access), CaptureError::AccessDenied);
    assert_eq!(fault_error(UsbFault::Other), CaptureError::IoError);
}

#[test]
fn error_values_compare_by_case_and_payload() {
    assert_eq!(CaptureError::WriteFailed(0xC008), CaptureError::WriteFailed(0xC008));
    assert_ne!(CaptureError::WriteFailed(0xC008), CaptureError::WriteFailed(0xC115));
    assert_ne!(CaptureError::Timeout, CaptureError::TransferFailed);
}
