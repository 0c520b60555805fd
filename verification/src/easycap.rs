//! Device control plane: discovery, bring-up, and configuration.
//!
//! An [`EasyCap`] is an opened, interface-claimed capture device
//! together with its logical configuration. Every configuration
//! operation applies one ordered register batch from [`crate::tables`];
//! the contracts state, over the port's ghost write log, exactly which
//! writes the device has acknowledged: the whole batch on success, or a
//! strict prefix of it on failure, with the failing address surfaced.

use vstd::prelude::*;
use crate::tables::{bringup_table, bringup_registers, standard_table, standard_registers,
    input_table, input_registers};
use crate::usb;
use crate::usb::{ControlPort, UsbFault};

verus! {

/// Vendor id of the supported capture chipset.
pub const EASYCAP_VID: u16 = 0x1b71;

/// Product id of the supported capture chipset.
pub const EASYCAP_PID: u16 = 0x3002;

/// The interface that carries both the register file and the video
/// endpoint.
pub const VIDEO_INTERFACE: u8 = 0;

/// The alternate setting of [`VIDEO_INTERFACE`] in which the video
/// endpoint is bandwidth-active.
pub const STREAMING_ALT_SETTING: u8 = 1;

/// The analog video standard whose tuning batch is applied by
/// `set_standard`.
#[derive(Clone, Copy, Debug, PartialEq, Eq, Structural)]
pub enum TVStandard {
    NTSC,
    PAL,
    SECAM,
}

/// The physical input whose routing batch is applied by `set_input`.
#[derive(Clone, Copy, Debug, PartialEq, Eq, Structural)]
pub enum Input {
    Composite,
    SVideo,
}

/// Everything that can go wrong in the control plane and the streaming
/// engine.
#[derive(Clone, Copy, Debug, PartialEq, Eq, Structural)]
pub enum CaptureError {
    /// No attached device matched the requested vendor/product ids.
    NotFound,
    /// A device matched but opening it or claiming its interface was
    /// denied (typically permissions, or another process holds it).
    AccessDenied,
    /// Any other transport failure while discovering or configuring.
    IoError,
    /// A single register write failed or timed out; the payload is the
    /// address of the failing register. The batch aborts at that entry.
    WriteFailed(u16),
    /// The transport rejected an isochronous submission (usually the
    /// streaming alternate setting was never activated).
    SubmissionError,
    /// No transfer completed within the requested window.
    Timeout,
    /// A transfer completed with a transport-reported error instead of
    /// data.
    TransferFailed,
}

/// An opened, interface-claimed capture device and its logical
/// configuration. The configuration fields start out unknown: the
/// device may retain state from a previous session, so nothing is
/// assumed until a batch has been applied.
pub struct EasyCap {
    /// The claimed handle and the ghost log of acknowledged writes.
    pub port: ControlPort,
    /// The last standard whose batch was fully applied, if any.
    pub standard: Option<TVStandard>,
    /// The last input whose batch was fully applied, if any.
    pub input: Option<Input>,
}

/// True exactly when a device descriptor's (vendor, product) pair is
/// the requested one.
pub open spec fn ids_match(ids: (u16, u16), vid: u16, pid: u16) -> bool {
    ids.0 == vid && ids.1 == pid
}

/// What the discovery scan does with one enumerated device.
#[derive(Clone, Copy, Debug, PartialEq, Eq, Structural)]
pub enum ScanDecision {
    /// The descriptor matched: open this device.
    OpenDevice,
    /// The descriptor did not match: keep scanning.
    Skip,
    /// The descriptor could not be read: abort the scan with this
    /// error.
    Abort(CaptureError),
}

/// The per-device policy of the discovery scan: a readable descriptor
/// is opened exactly when its ids are the requested pair, and a
/// transport failure while reading it aborts the whole scan as an
/// `IoError`.
pub fn scan_decision(ids: Result<(u16, u16), ()>, vid: u16, pid: u16) -> (r: ScanDecision)
    ensures
        ids matches Ok(p) && ids_match(p, vid, pid) ==> r is OpenDevice,
        ids matches Ok(p) && !ids_match(p, vid, pid) ==> r is Skip,
        ids is Err ==> r == ScanDecision::Abort(CaptureError::IoError),
{
    match ids {
        Ok((dev_vid, dev_pid)) => {
            if dev_vid == vid && dev_pid == pid {
                ScanDecision::OpenDevice
            } else {
                ScanDecision::Skip
            }
        }
        Err(()) => ScanDecision::Abort(CaptureError::IoError),
    }
}

/// The error a failed open or interface claim surfaces as.
pub open spec fn fault_to_error(f: UsbFault) -> CaptureError {
    match f {
        UsbFault::Access => CaptureError::AccessDenied,
        UsbFault::Other => CaptureError::IoError,
    }
}

/// Maps a host-stack fault from opening or claiming to the error the
/// caller sees: an access fault is a permissions problem, anything
/// else an I/O one.
pub fn fault_error(f: UsbFault) -> (r: CaptureError)
    ensures
        r == fault_to_error(f),
{
    match f {
        UsbFault::Access => CaptureError::AccessDenied,
        UsbFault::Other => CaptureError::IoError,
    }
}

/// Writes `batch` to the device in order, aborting at the first entry
/// the transport does not acknowledge. On success the whole batch is
/// appended to the acknowledged-write log; on failure exactly the
/// entries before the failing one are, and the error carries the
/// failing address. No alternate setting is touched.
fn apply_batch(port: &mut ControlPort, batch: &Vec<(u16, u8)>) -> (r: Result<(), CaptureError>)
    ensures
        r is Ok ==> final(port).writes@ == old(port).writes@ + batch@,
        r matches Err(e) ==> exists|i: int|
            0 <= i < batch@.len()
                && final(port).writes@ == old(port).writes@ + batch@.take(i)
                && e == CaptureError::WriteFailed(batch@[i].0),
        final(port).alt_selections@ == old(port).alt_selections@,
{
    let mut k: usize = 0;
    while k < batch.len()
        invariant
            k <= batch@.len(),
            port.writes@ == old(port).writes@ + batch@.take(k as int),
            port.alt_selections@ == old(port).alt_selections@,
        decreases batch@.len() - k,
    {
        let (address, value) = batch[k];
        match port.write_register(address, value) {
            Ok(()) => {
                proof {
                    assert(batch@.take(k + 1) =~= batch@.take(k as int).push(batch@[k as int]));
                }
                k += 1;
            }
            Err(()) => {
                proof {
                    let i = k as int;
                    assert(0 <= i < batch@.len()
                        && port.writes@ == old(port).writes@ + batch@.take(i)
                        && CaptureError::WriteFailed(address) == CaptureError::WriteFailed(
                        batch@[i].0,
                    ));
                }
                return Err(CaptureError::WriteFailed(address));
            }
        }
    }
    proof {
        assert(batch@.take(batch@.len() as int) =~= batch@);
    }
    Ok(())
}

impl EasyCap {
    /// Scans the attached devices for the first whose descriptor matches
    /// `vid`/`pid` (the per-device test is [`scan_decision`]), opens it
    /// and claims its interface, with open and claim faults mapped by
    /// [`fault_error`]. Which match is taken is non-deterministic across
    /// runs if several devices match: the first enumerated wins. No
    /// register is written and no alternate setting selected: a freshly
    /// opened device has empty acknowledgement logs and an unknown
    /// configuration.
    pub fn discover_and_open(vid: u16, pid: u16) -> (r: Result<EasyCap, CaptureError>)
        ensures
            r matches Ok(cap) ==> cap.port.writes@ == Seq::<(u16, u8)>::empty()
                && cap.port.alt_selections@ == Seq::<(u8, u8)>::empty() && cap.standard is None
                && cap.input is None,
            r matches Err(e) ==> (e is NotFound || e is AccessDenied || e is IoError),
    {
        let bus = match usb::new_context() {
            Ok(b) => b,
            Err(()) => {
                return Err(CaptureError::IoError);
            }
        };
        let devices = match usb::list_devices(&bus) {
            Ok(d) => d,
            Err(()) => {
                return Err(CaptureError::IoError);
            }
        };
        let mut k: usize = 0;
        while k < devices.len()
            invariant
                k <= devices@.len(),
            decreases devices@.len() - k,
        {
            match scan_decision(usb::device_ids(&devices[k]), vid, pid) {
                ScanDecision::Skip => {
                    k += 1;
                }
                ScanDecision::Abort(e) => {
                    return Err(e);
                }
                ScanDecision::OpenDevice => {
                    let handle = match usb::open_device(&devices[k]) {
                        Ok(h) => h,
                        Err(f) => {
                            return Err(fault_error(f));
                        }
                    };
                    match usb::claim_interface(&handle, VIDEO_INTERFACE) {
                        Ok(()) => (),
                        Err(f) => {
                            return Err(fault_error(f));
                        }
                    }
                    return Ok(
                        EasyCap {
                            port: ControlPort {
                                handle,
                                writes: Ghost(Seq::empty()),
                                alt_selections: Ghost(Seq::empty()),
                            },
                            standard: None,
                            input: None,
                        },
                    );
                }
            }
        }
        Err(CaptureError::NotFound)
    }

    /// Opens the supported capture device ([`EASYCAP_VID`] /
    /// [`EASYCAP_PID`]).
    pub fn new() -> (r: Result<EasyCap, CaptureError>)
        ensures
            r matches Ok(cap) ==> cap.port.writes@ == Seq::<(u16, u8)>::empty()
                && cap.port.alt_selections@ == Seq::<(u8, u8)>::empty() && cap.standard is None
                && cap.input is None,
            r matches Err(e) ==> (e is NotFound || e is AccessDenied || e is IoError),
    {
        Self::discover_and_open(EASYCAP_VID, EASYCAP_PID)
    }

    /// Applies the fixed bring-up batch that powers on the capture
    /// pipeline and sets baseline color and timing parameters. Must run
    /// before `set_standard`/`set_input` have a visible effect and
    /// before streaming mode is activated. Idempotent, though redundant,
    /// when repeated. On failure the batch aborts at the failing entry
    /// and the error carries its address; the configuration fields are
    /// untouched either way.
    pub fn begin_capture(&mut self) -> (r: Result<(), CaptureError>)
        ensures
            r is Ok ==> final(self).port.writes@ == old(self).port.writes@ + bringup_table(),
            r matches Err(e) ==> exists|i: int|
                0 <= i < bringup_table().len()
                    && final(self).port.writes@ == old(self).port.writes@ + bringup_table().take(i)
                    && e == CaptureError::WriteFailed(bringup_table()[i].0),
            final(self).standard == old(self).standard,
            final(self).input == old(self).input,
            final(self).port.alt_selections@ == old(self).port.alt_selections@,
    {
        let batch = bringup_registers();
        apply_batch(&mut self.port, &batch)
    }

    /// Applies the tuning batch for `standard`. On success the
    /// in-memory current-standard field follows; on failure it is left
    /// unchanged (the device itself may hold a partial batch — the
    /// recovery path is to rerun the whole bring-up sequence).
    pub fn set_standard(&mut self, standard: TVStandard) -> (r: Result<(), CaptureError>)
        ensures
            r is Ok ==> final(self).port.writes@ == old(self).port.writes@ + standard_table(
                standard,
            ) && final(self).standard == Some(standard),
            r matches Err(e) ==> exists|i: int|
                0 <= i < standard_table(standard).len()
                    && final(self).port.writes@ == old(self).port.writes@ + standard_table(
                    standard,
                ).take(i)
                    && e == CaptureError::WriteFailed(standard_table(standard)[i].0),
            r is Err ==> final(self).standard == old(self).standard,
            final(self).input == old(self).input,
            final(self).port.alt_selections@ == old(self).port.alt_selections@,
    {
        let batch = standard_registers(standard);
        match apply_batch(&mut self.port, &batch) {
            Ok(()) => {
                self.standard = Some(standard);
                Ok(())
            }
            Err(e) => Err(e),
        }
    }

    /// Applies the routing batch for `input`, with the same
    /// success/failure contract as [`Self::set_standard`].
    pub fn set_input(&mut self, input: Input) -> (r: Result<(), CaptureError>)
        ensures
            r is Ok ==> final(self).port.writes@ == old(self).port.writes@ + input_table(input)
                && final(self).input == Some(input),
            r matches Err(e) ==> exists|i: int|
                0 <= i < input_table(input).len()
                    && final(self).port.writes@ == old(self).port.writes@ + input_table(
                    input,
                ).take(i)
                    && e == CaptureError::WriteFailed(input_table(input)[i].0),
            r is Err ==> final(self).input == old(self).input,
            final(self).standard == old(self).standard,
            final(self).port.alt_selections@ == old(self).port.alt_selections@,
    {
        let batch = input_registers(input);
        match apply_batch(&mut self.port, &batch) {
            Ok(()) => {
                self.input = Some(input);
                Ok(())
            }
            Err(e) => Err(e),
        }
    }

    /// Activates the streaming alternate setting, switching the video
    /// endpoint from idle to isochronous-bandwidth mode. This is the
    /// last control-plane step before transfers are submitted. On
    /// success exactly the selection ([`VIDEO_INTERFACE`],
    /// [`STREAMING_ALT_SETTING`]) is acknowledged; it is no register
    /// write, so the acknowledged-write log is unchanged either way.
    pub fn alt_setting(&mut self) -> (r: Result<(), CaptureError>)
        ensures
            r is Ok ==> final(self).port.alt_selections@ == old(self).port.alt_selections@.push(
                (VIDEO_INTERFACE, STREAMING_ALT_SETTING),
            ),
            r is Err ==> final(self).port.alt_selections@ == old(self).port.alt_selections@,
            final(self).port.writes@ == old(self).port.writes@,
            final(self).standard == old(self).standard,
            final(self).input == old(self).input,
            r matches Err(e) ==> e is IoError,
    {
        match self.port.select_alternate_setting(VIDEO_INTERFACE, STREAMING_ALT_SETTING) {
            Ok(()) => Ok(()),
            Err(()) => Err(CaptureError::IoError),
        }
    }
}

} // verus!
