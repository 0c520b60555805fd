//! Golden-table tests: every configuration batch must equal its known-good
//! (address, value) list, entry for entry and in order.

use easycap::easycap::{Input, TVStandard};
use easycap::tables::{bringup_registers, input_registers, standard_registers};

const BASE: u16 = 0xC000;

#[test]
fn bringup_batch_is_the_golden_table() {
    let expected: Vec<(u16, u8)> = vec![
        (BASE + 0x0008, 0x01),
        (BASE + 0x01D0, 0xFF),
        (BASE + 0x01D9, 0x02),
        (BASE + 0x0239, 0x40),
        (BASE + 0x0240, 0x00),
        (BASE + 0x0241, 0x00),
        (BASE + 0x0242, 0x02),
        (BASE + 0x0243, 0x80),
        (BASE + 0x0244, 0x12),
        (BASE + 0x0245, 0x90),
        (BASE + 0x0246, 0x00),
        (BASE + 0x0278, 0x2D),
        (BASE + 0x0279, 0x0A),
        (BASE + 0x027A, 0x32),
        (0xF890, 0x0C),
        (0xF894, 0x86),
        (BASE + 0x00AC, 0xC0),
        (BASE + 0x00AD, 0x00),
        (BASE + 0x00A2, 0x12),
        (BASE + 0x00A3, 0xE0),
        (BASE + 0x00A4, 0x28),
        (BASE + 0x00A5, 0x82),
        (BASE + 0x00A7, 0x80),
        (BASE + 0x0000, 0x14),
        (BASE + 0x0006, 0x03),
        (BASE + 0x0090, 0x99),
        (BASE + 0x0091, 0x90),
        (BASE + 0x0094, 0x68),
        (BASE + 0x0095, 0x70),
        (BASE + 0x009C, 0x30),
        (BASE + 0x009D, 0xC0),
        (BASE + 0x009E, 0xE0),
        (BASE + 0x0019, 0x06),
        (BASE + 0x008C, 0xBA),
        (BASE + 0x0101, 0xFF),
        (BASE + 0x010C, 0xB3),
        (BASE + 0x01B2, 0x80),
        (BASE + 0x01B4, 0xA0),
        (BASE + 0x014C, 0xFF),
        (BASE + 0x014D, 0xCA),
        (BASE + 0x0113, 0x53),
        (BASE + 0x0119, 0x8A),
        (BASE + 0x013C, 0x03),
        (BASE + 0x0150, 0x9C),
        (BASE + 0x0151, 0x71),
        (BASE + 0x0152, 0xC6),
        (BASE + 0x0153, 0x84),
        (BASE + 0x0154, 0xBC),
        (BASE + 0x0155, 0xA0),
        (BASE + 0x0156, 0xA0),
        (BASE + 0x0157, 0x9C),
        (BASE + 0x0158, 0x1F),
        (BASE + 0x0159, 0x06),
        (BASE + 0x015D, 0x00),
    ];
    let got = bringup_registers();
    assert_eq!(got.len(), 54);
    assert_eq!(got, expected);
}

#[test]
fn pal_batch_is_the_golden_table() {
    let expected: Vec<(u16, u8)> = vec![
        (BASE + 0x0003, 0x04),
        (BASE + 0x001A, 0x68),
        (BASE + 0x0100, 0xD3),
        (BASE + 0x010E, 0x72),
        (BASE + 0x010F, 0xA2),
        (BASE + 0x0112, 0xB0),
        (BASE + 0x0115, 0x15),
        (BASE + 0x0117, 0x01),
        (BASE + 0x0118, 0x2C),
        (BASE + 0x012D, 0x10),
        (BASE + 0x012F, 0x20),
        (BASE + 0x0220, 0x2E),
        (BASE + 0x0225, 0x08),
        (BASE + 0x024E, 0x02),
        (BASE + 0x024F, 0x02),
        (BASE + 0x0254, 0x59),
        (BASE + 0x025A, 0x16),
        (BASE + 0x025B, 0x35),
        (BASE + 0x0263, 0x17),
        (BASE + 0x0266, 0x16),
        (BASE + 0x0267, 0x36),
        (BASE + 0x024E, 0x02),
        (BASE + 0x024F, 0x02),
        (BASE + 0x016F, 0xEE),
    ];
    let got = standard_registers(TVStandard::PAL);
    assert_eq!(got.len(), 24);
    assert_eq!(got, expected);
}

#[test]
fn ntsc_batch_is_the_golden_table() {
    let expected: Vec<(u16, u8)> = vec![
        (BASE + 0x0003, 0x04),
        (BASE + 0x001A, 0x79),
        (BASE + 0x0100, 0xD3),
        (BASE + 0x010E, 0x68),
        (BASE + 0x010F, 0x9C),
        (BASE + 0x0112, 0xF0),
        (BASE + 0x0115, 0x15),
        (BASE + 0x0117, 0x00),
        (BASE + 0x0118, 0xFC),
        (BASE + 0x012D, 0x04),
        (BASE + 0x012F, 0x08),
        (BASE + 0x0220, 0x2E),
        (BASE + 0x0225, 0x08),
        (BASE + 0x024E, 0x02),
        (BASE + 0x024F, 0x01),
        (BASE + 0x0254, 0x5F),
        (BASE + 0x025A, 0x12),
        (BASE + 0x025B, 0x01),
        (BASE + 0x0263, 0x1C),
        (BASE + 0x0266, 0x11),
        (BASE + 0x0267, 0x05),
        (BASE + 0x024E, 0x02),
        (BASE + 0x024F, 0x02),
        (BASE + 0x016F, 0xB8),
    ];
    let got = standard_registers(TVStandard::NTSC);
    assert_eq!(got.len(), 24);
    assert_eq!(got, expected);
}

#[test]
fn secam_batch_is_the_golden_table() {
    let expected: Vec<(u16, u8)> = vec![
        (BASE + 0x0003, 0x04),
        (BASE + 0x001A, 0x73),
        (BASE + 0x0100, 0xDC),
        (BASE + 0x010E, 0x72),
        (BASE + 0x010F, 0xA2),
        (BASE + 0x0112, 0x90),
        (BASE + 0x0115, 0x35),
        (BASE + 0x0117, 0x01),
        (BASE + 0x0118, 0x30),
        (BASE + 0x012D, 0x04),
        (BASE + 0x012F, 0x08),
        (BASE + 0x0220, 0x2D),
        (BASE + 0x0225, 0x28),
        (BASE + 0x024E, 0x08),
        (BASE + 0x024F, 0x02),
        (BASE + 0x0254, 0x69),
        (BASE + 0x025A, 0x16),
        (BASE + 0x025B, 0x35),
        (BASE + 0x0263, 0x21),
        (BASE + 0x0266, 0x16),
        (BASE + 0x0267, 0x36),
        (BASE + 0x024E, 0x02),
        (BASE + 0x024F, 0x02),
        (BASE + 0x016F, 0xFF),
    ];
    let got = standard_registers(TVStandard::SECAM);
    assert_eq!(got.len(), 24);
    assert_eq!(got, expected);
}

#[test]
fn composite_batch_is_the_golden_table() {
    let expected: Vec<(u16, u8)> = vec![
        (BASE + 0x0105, 0x60),
        (BASE + 0x011F, 0xF2),
        (BASE + 0x0127, 0x60),
        (BASE + 0x00AE, 0x10),
        (BASE + 0x0239, 0x60),
    ];
    let got = input_registers(Input::Composite);
    assert_eq!(got.len(), 5);
    assert_eq!(got, expected);
}

#[test]
fn svideo_batch_is_the_golden_table() {
    let expected: Vec<(u16, u8)> = vec![
        (BASE + 0x0105, 0x10),
        (BASE + 0x011F, 0xFF),
        (BASE + 0x0127, 0x60),
        (BASE + 0x00AE, 0x30),
        (BASE + 0x0239, 0x60),
    ];
    let got = input_registers(Input::SVideo);
    assert_eq!(got.len(), 5);
    assert_eq!(got, expected);
}

#[test]
fn standard_batches_differ_from_each_other() {
    let pal = standard_registers(TVStandard::PAL);
    let ntsc = standard_registers(TVStandard::NTSC);
    let secam = standard_registers(TVStandard::SECAM);
    assert_ne!(pal, ntsc);
    assert_ne!(pal, secam);
    assert_ne!(ntsc, secam);
    assert_ne!(input_registers(Input::Composite), input_registers(Input::SVideo));
}
