//! The fixed identifiers and streaming defaults the device is driven
//! with.

use easycap::easycap::{EASYCAP_PID, EASYCAP_VID, STREAMING_ALT_SETTING, VIDEO_INTERFACE};
use easycap::streaming::{
    DEFAULT_BUFFER_CAPACITY, DEFAULT_PACKETS_PER_TRANSFER, DEFAULT_SLOT_COUNT, VIDEO_ENDPOINT,
};
use easycap::usb::CONTROL_REGISTER_REQUEST;

#[test]
fn device_identifiers_are_fixed() {
    assert_eq!(EASYCAP_VID, 0x1b71);
    assert_eq!(EASYCAP_PID, 0x3002);
    assert_eq!(VIDEO_INTERFACE, 0);
    assert_eq!(STREAMING_ALT_SETTING, 1);
    assert_eq!(CONTROL_REGISTER_REQUEST, 12);
}

#[test]
fn streaming_defaults_match_the_endpoint() {
    assert_eq!(VIDEO_ENDPOINT, 0x81);
    assert_eq!(DEFAULT_SLOT_COUNT, 20);
    assert_eq!(DEFAULT_BUFFER_CAPACITY, 0x6000);
    assert_eq!(DEFAULT_PACKETS_PER_TRANSFER, 8);
}
