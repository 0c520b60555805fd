//! The register batches that configure the chipset.
//!
//! Every configuration operation of the control plane is an ordered list
//! of (address, value) pairs, written one at a time. The order within a
//! batch is a hard invariant: the sequences come from known-good device
//! bring-up traces, and reordering them is not guaranteed equivalent.
//! Each batch exists twice here: as a spec-level sequence (the golden
//! table that contracts speak of) and as an executable builder proved to
//! produce exactly that sequence.

use vstd::prelude::*;
use crate::easycap::{Input, TVStandard};

verus! {

/// Base of the chipset's vendor-specific register window; most register
/// addresses are this base plus a small sub-offset.
pub const USBTV_BASE: u16 = 0xC000;

/// The address of the register at `off` within the vendor register window.
pub open spec fn reg(off: u16) -> u16 {
    (0xC000 + off) as u16
}

/// Device bring-up batch: powers on the capture pipeline and sets the
/// baseline color and timing parameters. Fifty-four writes; the first
/// three enable the device, the next block tunes color parameters, and
/// the rest are setup values taken from a known-good trace. Two writes
/// (0xF890, 0xF894) fall outside the vendor register window.
pub open spec fn bringup_table() -> Seq<(u16, u8)> {
    seq![
        (reg(0x0008), 0x01),
        (reg(0x01D0), 0xFF),
        (reg(0x01D9), 0x02),
        (reg(0x0239), 0x40),
        (reg(0x0240), 0x00),
        (reg(0x0241), 0x00),
        (reg(0x0242), 0x02),
        (reg(0x0243), 0x80),
        (reg(0x0244), 0x12),
        (reg(0x0245), 0x90),
        (reg(0x0246), 0x00),
        (reg(0x0278), 0x2D),
        (reg(0x0279), 0x0A),
        (reg(0x027A), 0x32),
        (0xF890u16, 0x0C),
        (0xF894u16, 0x86),
        (reg(0x00AC), 0xC0),
        (reg(0x00AD), 0x00),
        (reg(0x00A2), 0x12),
        (reg(0x00A3), 0xE0),
        (reg(0x00A4), 0x28),
        (reg(0x00A5), 0x82),
        (reg(0x00A7), 0x80),
        (reg(0x0000), 0x14),
        (reg(0x0006), 0x03),
        (reg(0x0090), 0x99),
        (reg(0x0091), 0x90),
        (reg(0x0094), 0x68),
        (reg(0x0095), 0x70),
        (reg(0x009C), 0x30),
        (reg(0x009D), 0xC0),
        (reg(0x009E), 0xE0),
        (reg(0x0019), 0x06),
        (reg(0x008C), 0xBA),
        (reg(0x0101), 0xFF),
        (reg(0x010C), 0xB3),
        (reg(0x01B2), 0x80),
        (reg(0x01B4), 0xA0),
        (reg(0x014C), 0xFF),
        (reg(0x014D), 0xCA),
        (reg(0x0113), 0x53),
        (reg(0x0119), 0x8A),
        (reg(0x013C), 0x03),
        (reg(0x0150), 0x9C),
        (reg(0x0151), 0x71),
        (reg(0x0152), 0xC6),
        (reg(0x0153), 0x84),
        (reg(0x0154), 0xBC),
        (reg(0x0155), 0xA0),
        (reg(0x0156), 0xA0),
        (reg(0x0157), 0x9C),
        (reg(0x0158), 0x1F),
        (reg(0x0159), 0x06),
        (reg(0x015D), 0x00),
    ]
}

/// Bring-up issues exactly fifty-four register writes, in the fixed
/// order of [`bringup_table`]; changing the count (or the order, which
/// the table equality in `begin_capture`'s contract pins) would leave
/// the device in an undefined state.
pub proof fn lemma_bringup_count()
    ensures
        bringup_table().len() == 54,
{
}

/// "AVPAL" tuning batch: horizontal/vertical timing and chroma/luma
/// tuning for PAL, ending with the "norm" register (kept for fidelity
/// with known-good configurations even though its effect is unconfirmed).
pub open spec fn pal_table() -> Seq<(u16, u8)> {
    seq![
        (reg(0x0003), 0x04),
        (reg(0x001A), 0x68),
        (reg(0x0100), 0xD3),
        (reg(0x010E), 0x72),
        (reg(0x010F), 0xA2),
        (reg(0x0112), 0xB0),
        (reg(0x0115), 0x15),
        (reg(0x0117), 0x01),
        (reg(0x0118), 0x2C),
        (reg(0x012D), 0x10),
        (reg(0x012F), 0x20),
        (reg(0x0220), 0x2E),
        (reg(0x0225), 0x08),
        (reg(0x024E), 0x02),
        (reg(0x024F), 0x02),
        (reg(0x0254), 0x59),
        (reg(0x025A), 0x16),
        (reg(0x025B), 0x35),
        (reg(0x0263), 0x17),
        (reg(0x0266), 0x16),
        (reg(0x0267), 0x36),
        (reg(0x024E), 0x02),
        (reg(0x024F), 0x02),
        (reg(0x016F), 0xEE),
    ]
}

/// "AVNTSC" tuning batch for NTSC; same shape as [`pal_table`].
pub open spec fn ntsc_table() -> Seq<(u16, u8)> {
    seq![
        (reg(0x0003), 0x04),
        (reg(0x001A), 0x79),
        (reg(0x0100), 0xD3),
        (reg(0x010E), 0x68),
        (reg(0x010F), 0x9C),
        (reg(0x0112), 0xF0),
        (reg(0x0115), 0x15),
        (reg(0x0117), 0x00),
        (reg(0x0118), 0xFC),
        (reg(0x012D), 0x04),
        (reg(0x012F), 0x08),
        (reg(0x0220), 0x2E),
        (reg(0x0225), 0x08),
        (reg(0x024E), 0x02),
        (reg(0x024F), 0x01),
        (reg(0x0254), 0x5F),
        (reg(0x025A), 0x12),
        (reg(0x025B), 0x01),
        (reg(0x0263), 0x1C),
        (reg(0x0266), 0x11),
        (reg(0x0267), 0x05),
        (reg(0x024E), 0x02),
        (reg(0x024F), 0x02),
        (reg(0x016F), 0xB8),
    ]
}

/// "AVSECAM" tuning batch for SECAM; same shape as [`pal_table`].
pub open spec fn secam_table() -> Seq<(u16, u8)> {
    seq![
        (reg(0x0003), 0x04),
        (reg(0x001A), 0x73),
        (reg(0x0100), 0xDC),
        (reg(0x010E), 0x72),
        (reg(0x010F), 0xA2),
        (reg(0x0112), 0x90),
        (reg(0x0115), 0x35),
        (reg(0x0117), 0x01),
        (reg(0x0118), 0x30),
        (reg(0x012D), 0x04),
        (reg(0x012F), 0x08),
        (reg(0x0220), 0x2D),
        (reg(0x0225), 0x28),
        (reg(0x024E), 0x08),
        (reg(0x024F), 0x02),
        (reg(0x0254), 0x69),
        (reg(0x025A), 0x16),
        (reg(0x025B), 0x35),
        (reg(0x0263), 0x21),
        (reg(0x0266), 0x16),
        (reg(0x0267), 0x36),
        (reg(0x024E), 0x02),
        (reg(0x024F), 0x02),
        (reg(0x016F), 0xFF),
    ]
}

/// Input routing batch for the composite (RCA) input: signal routing,
/// gain and clamp registers.
pub open spec fn composite_table() -> Seq<(u16, u8)> {
    seq![
        (reg(0x0105), 0x60),
        (reg(0x011F), 0xF2),
        (reg(0x0127), 0x60),
        (reg(0x00AE), 0x10),
        (reg(0x0239), 0x60),
    ]
}

/// Input routing batch for the S-Video input.
pub open spec fn svideo_table() -> Seq<(u16, u8)> {
    seq![
        (reg(0x0105), 0x10),
        (reg(0x011F), 0xFF),
        (reg(0x0127), 0x60),
        (reg(0x00AE), 0x30),
        (reg(0x0239), 0x60),
    ]
}

/// The tuning batch selected by a video standard.
pub open spec fn standard_table(s: TVStandard) -> Seq<(u16, u8)> {
    match s {
        TVStandard::PAL => pal_table(),
        TVStandard::NTSC => ntsc_table(),
        TVStandard::SECAM => secam_table(),
    }
}

/// The routing batch selected by an input source.
pub open spec fn input_table(i: Input) -> Seq<(u16, u8)> {
    match i {
        Input::Composite => composite_table(),
        Input::SVideo => svideo_table(),
    }
}

/// Pushes the pair `(reg(off), val)` onto the batch being built.
fn push_reg(v: &mut Vec<(u16, u8)>, off: u16, val: u8)
    requires
        off <= 0x3FFF,
    ensures
        final(v)@ == old(v)@.push((reg(off), val)),
{
    let addr: u16 = 0xC000 + off;
    v.push((addr, val));
}

/// The bring-up batch as a vector, exactly [`bringup_table`].
#[verifier::rlimit(60)]
pub fn bringup_registers() -> (r: Vec<(u16, u8)>)
    ensures
        r@ == bringup_table(),
{
    let mut v: Vec<(u16, u8)> = Vec::new();
    push_reg(&mut v, 0x0008, 0x01);
    push_reg(&mut v, 0x01D0, 0xFF);
    push_reg(&mut v, 0x01D9, 0x02);
    push_reg(&mut v, 0x0239, 0x40);
    push_reg(&mut v, 0x0240, 0x00);
    push_reg(&mut v, 0x0241, 0x00);
    push_reg(&mut v, 0x0242, 0x02);
    push_reg(&mut v, 0x0243, 0x80);
    push_reg(&mut v, 0x0244, 0x12);
    push_reg(&mut v, 0x0245, 0x90);
    push_reg(&mut v, 0x0246, 0x00);
    push_reg(&mut v, 0x0278, 0x2D);
    push_reg(&mut v, 0x0279, 0x0A);
    push_reg(&mut v, 0x027A, 0x32);
    v.push((0xF890, 0x0C));
    v.push((0xF894, 0x86));
    push_reg(&mut v, 0x00AC, 0xC0);
    push_reg(&mut v, 0x00AD, 0x00);
    push_reg(&mut v, 0x00A2, 0x12);
    push_reg(&mut v, 0x00A3, 0xE0);
    push_reg(&mut v, 0x00A4, 0x28);
    push_reg(&mut v, 0x00A5, 0x82);
    push_reg(&mut v, 0x00A7, 0x80);
    push_reg(&mut v, 0x0000, 0x14);
    push_reg(&mut v, 0x0006, 0x03);
    push_reg(&mut v, 0x0090, 0x99);
    push_reg(&mut v, 0x0091, 0x90);
    push_reg(&mut v, 0x0094, 0x68);
    push_reg(&mut v, 0x0095, 0x70);
    push_reg(&mut v, 0x009C, 0x30);
    push_reg(&mut v, 0x009D, 0xC0);
    push_reg(&mut v, 0x009E, 0xE0);
    push_reg(&mut v, 0x0019, 0x06);
    push_reg(&mut v, 0x008C, 0xBA);
    push_reg(&mut v, 0x0101, 0xFF);
    push_reg(&mut v, 0x010C, 0xB3);
    push_reg(&mut v, 0x01B2, 0x80);
    push_reg(&mut v, 0x01B4, 0xA0);
    push_reg(&mut v, 0x014C, 0xFF);
    push_reg(&mut v, 0x014D, 0xCA);
    push_reg(&mut v, 0x0113, 0x53);
    push_reg(&mut v, 0x0119, 0x8A);
    push_reg(&mut v, 0x013C, 0x03);
    push_reg(&mut v, 0x0150, 0x9C);
    push_reg(&mut v, 0x0151, 0x71);
    push_reg(&mut v, 0x0152, 0xC6);
    push_reg(&mut v, 0x0153, 0x84);
    push_reg(&mut v, 0x0154, 0xBC);
    push_reg(&mut v, 0x0155, 0xA0);
    push_reg(&mut v, 0x0156, 0xA0);
    push_reg(&mut v, 0x0157, 0x9C);
    push_reg(&mut v, 0x0158, 0x1F);
    push_reg(&mut v, 0x0159, 0x06);
    push_reg(&mut v, 0x015D, 0x00);
    proof {
        assert(v@ =~= bringup_table());
    }
    v
}

/// The tuning batch for `s` as a vector, exactly `standard_table(s)`.
#[verifier::rlimit(60)]
pub fn standard_registers(s: TVStandard) -> (r: Vec<(u16, u8)>)
    ensures
        r@ == standard_table(s),
{
    let mut v: Vec<(u16, u8)> = Vec::new();
    push_reg(&mut v, 0x0003, 0x04);
    match s {
        TVStandard::PAL => {
            push_reg(&mut v, 0x001A, 0x68);
            push_reg(&mut v, 0x0100, 0xD3);
            push_reg(&mut v, 0x010E, 0x72);
            push_reg(&mut v, 0x010F, 0xA2);
            push_reg(&mut v, 0x0112, 0xB0);
            push_reg(&mut v, 0x0115, 0x15);
            push_reg(&mut v, 0x0117, 0x01);
            push_reg(&mut v, 0x0118, 0x2C);
            push_reg(&mut v, 0x012D, 0x10);
            push_reg(&mut v, 0x012F, 0x20);
            push_reg(&mut v, 0x0220, 0x2E);
            push_reg(&mut v, 0x0225, 0x08);
            push_reg(&mut v, 0x024E, 0x02);
            push_reg(&mut v, 0x024F, 0x02);
            push_reg(&mut v, 0x0254, 0x59);
            push_reg(&mut v, 0x025A, 0x16);
            push_reg(&mut v, 0x025B, 0x35);
            push_reg(&mut v, 0x0263, 0x17);
            push_reg(&mut v, 0x0266, 0x16);
            push_reg(&mut v, 0x0267, 0x36);
            push_reg(&mut v, 0x024E, 0x02);
            push_reg(&mut v, 0x024F, 0x02);
            push_reg(&mut v, 0x016F, 0xEE);
            proof {
                assert(v@ =~= pal_table());
            }
        }
        TVStandard::NTSC => {
            push_reg(&mut v, 0x001A, 0x79);
            push_reg(&mut v, 0x0100, 0xD3);
            push_reg(&mut v, 0x010E, 0x68);
            push_reg(&mut v, 0x010F, 0x9C);
            push_reg(&mut v, 0x0112, 0xF0);
            push_reg(&mut v, 0x0115, 0x15);
            push_reg(&mut v, 0x0117, 0x00);
            push_reg(&mut v, 0x0118, 0xFC);
            push_reg(&mut v, 0x012D, 0x04);
            push_reg(&mut v, 0x012F, 0x08);
            push_reg(&mut v, 0x0220, 0x2E);
            push_reg(&mut v, 0x0225, 0x08);
            push_reg(&mut v, 0x024E, 0x02);
            push_reg(&mut v, 0x024F, 0x01);
            push_reg(&mut v, 0x0254, 0x5F);
            push_reg(&mut v, 0x025A, 0x12);
            push_reg(&mut v, 0x025B, 0x01);
            push_reg(&mut v, 0x0263, 0x1C);
            push_reg(&mut v, 0x0266, 0x11);
            push_reg(&mut v, 0x0267, 0x05);
            push_reg(&mut v, 0x024E, 0x02);
            push_reg(&mut v, 0x024F, 0x02);
            push_reg(&mut v, 0x016F, 0xB8);
            proof {
                assert(v@ =~= ntsc_table());
            }
        }
        TVStandard::SECAM => {
            push_reg(&mut v, 0x001A, 0x73);
            push_reg(&mut v, 0x0100, 0xDC);
            push_reg(&mut v, 0x010E, 0x72);
            push_reg(&mut v, 0x010F, 0xA2);
            push_reg(&mut v, 0x0112, 0x90);
            push_reg(&mut v, 0x0115, 0x35);
            push_reg(&mut v, 0x0117, 0x01);
            push_reg(&mut v, 0x0118, 0x30);
            push_reg(&mut v, 0x012D, 0x04);
            push_reg(&mut v, 0x012F, 0x08);
            push_reg(&mut v, 0x0220, 0x2D);
            push_reg(&mut v, 0x0225, 0x28);
            push_reg(&mut v, 0x024E, 0x08);
            push_reg(&mut v, 0x024F, 0x02);
            push_reg(&mut v, 0x0254, 0x69);
            push_reg(&mut v, 0x025A, 0x16);
            push_reg(&mut v, 0x025B, 0x35);
            push_reg(&mut v, 0x0263, 0x21);
            push_reg(&mut v, 0x0266, 0x16);
            push_reg(&mut v, 0x0267, 0x36);
            push_reg(&mut v, 0x024E, 0x02);
            push_reg(&mut v, 0x024F, 0x02);
            push_reg(&mut v, 0x016F, 0xFF);
            proof {
                assert(v@ =~= secam_table());
            }
        }
    }
    v
}

/// The routing batch for `i` as a vector, exactly `input_table(i)`.
pub fn input_registers(i: Input) -> (r: Vec<(u16, u8)>)
    ensures
        r@ == input_table(i),
{
    let mut v: Vec<(u16, u8)> = Vec::new();
    match i {
        Input::Composite => {
            push_reg(&mut v, 0x0105, 0x60);
            push_reg(&mut v, 0x011F, 0xF2);
            push_reg(&mut v, 0x0127, 0x60);
            push_reg(&mut v, 0x00AE, 0x10);
            push_reg(&mut v, 0x0239, 0x60);
            proof {
                assert(v@ =~= composite_table());
            }
        }
        Input::SVideo => {
            push_reg(&mut v, 0x0105, 0x10);
            push_reg(&mut v, 0x011F, 0xFF);
            push_reg(&mut v, 0x0127, 0x60);
            push_reg(&mut v, 0x00AE, 0x30);
            push_reg(&mut v, 0x0239, 0x60);
            proof {
                assert(v@ =~= svideo_table());
            }
        }
    }
    v
}

} // verus!
