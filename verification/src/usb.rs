//! The trusted boundary to the USB host stack.
//!
//! Every call into `rusb` (control plane) and `rusb_async` (isochronous
//! transfer pool) is made through one of the `external_body` wrappers in
//! this module; nothing else in the crate touches either crate. The
//! host stack's handle types are generic over a context trait that the
//! verifier cannot take in a type declaration, so each is held opaquely
//! in a one-field struct here. Two model-level notions live here as
//! well: the ghost log of acknowledged register writes carried by a
//! [`ControlPort`], and the uninterpreted flight count [`pool_flight`]
//! of a transfer pool.

use std::sync::Arc;
use std::time::Duration;
use rusb::UsbContext;
use vstd::prelude::*;

verus! {

/// The fixed vendor-class request code that addresses the chipset's
/// register file.
pub const CONTROL_REGISTER_REQUEST: u8 = 12;

/// An initialized libusb context (rusb::Context), opaque to the
/// verifier.
#[verifier::external_body]
pub struct UsbBus {
    ctx: rusb::Context,
}

/// One attached, not yet opened device (rusb::Device), opaque to the
/// verifier.
#[verifier::external_body]
pub struct UsbDevice {
    dev: rusb::Device<rusb::Context>,
}

/// An opened device handle (rusb::DeviceHandle), opaque to the
/// verifier.
#[verifier::external_body]
pub struct UsbHandle {
    handle: rusb::DeviceHandle<rusb::Context>,
}

/// The pool of in-flight isochronous transfers
/// (rusb_async::TransferPool), opaque to the verifier; its one observable
/// is [`pool_flight`].
#[verifier::external_body]
pub struct IsoPool {
    pool: rusb_async::TransferPool<rusb::Context>,
}

/// How opening a device or claiming its interface can fail, as far as
/// the control plane tells the cases apart.
#[derive(Clone, Copy, Debug, PartialEq, Eq, Structural)]
pub enum UsbFault {
    /// The host stack reported an access (permission) error.
    Access,
    /// Any other transport error.
    Other,
}

/// What one wait on the transfer pool produced.
pub enum PollEvent {
    /// The oldest in-flight transfer completed and delivered this
    /// payload (possibly zero-length).
    Completed(Vec<u8>),
    /// Nothing completed within the window; the pool is untouched.
    TimedOut,
    /// The oldest in-flight transfer completed with a transport error
    /// and was removed from the pool without delivering data.
    Failed,
}

/// The number of transfers a pool currently has in flight (submitted and
/// not yet reclaimed). Uninterpreted; the wrappers below state how each
/// pool operation moves it, matching `TransferPool::pending`.
pub uninterp spec fn pool_flight(pool: IsoPool) -> nat;

/// Relies on rusb::Context::new: initializes a libusb context.
#[verifier::external_body]
pub(crate) fn new_context() -> (r: Result<UsbBus, ()>) {
    match rusb::Context::new() {
        Ok(ctx) => Ok(UsbBus { ctx }),
        Err(_) => Err(()),
    }
}

/// Relies on rusb's UsbContext::devices: a snapshot of the devices
/// currently attached to the bus, here collected into a vector.
#[verifier::external_body]
pub(crate) fn list_devices(bus: &UsbBus) -> (r: Result<Vec<UsbDevice>, ()>) {
    match bus.ctx.devices() {
        Ok(list) => Ok(list.iter().map(|dev| UsbDevice { dev }).collect()),
        Err(_) => Err(()),
    }
}

/// Relies on rusb::Device::device_descriptor: reads the device
/// descriptor and hands back its vendor and product id fields.
#[verifier::external_body]
pub(crate) fn device_ids(dev: &UsbDevice) -> (r: Result<(u16, u16), ()>) {
    match dev.dev.device_descriptor() {
        Ok(d) => Ok((d.vendor_id(), d.product_id())),
        Err(_) => Err(()),
    }
}

/// Relies on rusb::Device::open; an access error is told apart from the
/// rest so the caller can report a permissions problem.
#[verifier::external_body]
pub(crate) fn open_device(dev: &UsbDevice) -> (r: Result<UsbHandle, UsbFault>) {
    match dev.dev.open() {
        Ok(handle) => Ok(UsbHandle { handle }),
        Err(rusb::Error::Access) => Err(UsbFault::Access),
        Err(_) => Err(UsbFault::Other),
    }
}

/// Relies on rusb::DeviceHandle::claim_interface.
#[verifier::external_body]
pub(crate) fn claim_interface(h: &UsbHandle, iface: u8) -> (r: Result<(), UsbFault>) {
    match h.handle.claim_interface(iface) {
        Ok(()) => Ok(()),
        Err(rusb::Error::Access) => Err(UsbFault::Access),
        Err(_) => Err(UsbFault::Other),
    }
}

/// An opened, interface-claimed handle, together with the ghost logs of
/// what the device has acknowledged through it: register writes, and
/// alternate-setting selections.
pub struct ControlPort {
    pub handle: UsbHandle,
    /// Ghost log of acknowledged register writes, oldest first.
    pub writes: Ghost<Seq<(u16, u8)>>,
    /// Ghost log of acknowledged alternate-setting selections, as
    /// (interface, setting) pairs, oldest first.
    pub alt_selections: Ghost<Seq<(u8, u8)>>,
}

impl ControlPort {
    /// Relies on rusb::DeviceHandle::write_control: one blocking
    /// vendor-class, host-to-device control request to the interface,
    /// request code [`CONTROL_REGISTER_REQUEST`], the register's value in
    /// the `value` field, its address in the `index` field, no data
    /// stage, 1-second timeout. On success the write is acknowledged and
    /// the ghost log grows by exactly that entry; on failure nothing was
    /// acknowledged and the log is unchanged (the device may still have
    /// seen a partial effect, which is why a batch aborts here).
    #[verifier::external_body]
    pub(crate) fn write_register(&mut self, address: u16, value: u8) -> (r: Result<(), ()>)
        ensures
            r is Ok ==> final(self).writes@ == old(self).writes@.push((address, value)),
            r is Err ==> final(self).writes@ == old(self).writes@,
            final(self).alt_selections@ == old(self).alt_selections@,
    {
        let rt = rusb::request_type(
            rusb::Direction::Out, rusb::RequestType::Vendor, rusb::Recipient::Interface,
        );
        let res = self.handle.handle.write_control(
            rt, CONTROL_REGISTER_REQUEST, value as u16, address, &[], Duration::from_secs(1),
        );
        match res {
            Ok(_) => Ok(()),
            Err(_) => Err(()),
        }
    }

    /// Relies on rusb::DeviceHandle::set_alternate_setting: asks the
    /// host stack to select an alternate setting of the claimed
    /// interface. On success the selection was acknowledged and the
    /// ghost selection log grows by exactly that (interface, setting)
    /// pair; on failure the log is unchanged. No register write is
    /// involved either way.
    #[verifier::external_body]
    pub(crate) fn select_alternate_setting(&mut self, iface: u8, setting: u8) -> (r: Result<
        (),
        (),
    >)
        ensures
            r is Ok ==> final(self).alt_selections@ == old(self).alt_selections@.push(
                (iface, setting),
            ),
            r is Err ==> final(self).alt_selections@ == old(self).alt_selections@,
            final(self).writes@ == old(self).writes@,
    {
        match self.handle.handle.set_alternate_setting(iface, setting) {
            Ok(()) => Ok(()),
            Err(_) => Err(()),
        }
    }
}

/// Relies on rusb_async::TransferPool::new: constructs an empty pool
/// (in this version its only code path returns Ok, so the unwrap cannot
/// fail).
#[verifier::external_body]
pub(crate) fn pool_new(h: UsbHandle) -> (r: IsoPool)
    ensures
        pool_flight(r) == 0,
{
    IsoPool { pool: rusb_async::TransferPool::new(Arc::new(h.handle)).unwrap() }
}

/// Relies on rusb_async::TransferPool::pending: the number of transfers
/// submitted and not yet reclaimed.
#[verifier::external_body]
pub(crate) fn pool_pending(pool: &IsoPool) -> (n: usize)
    ensures
        n == pool_flight(*pool),
{
    pool.pool.pending()
}

/// Relies on rusb_async::TransferPool::submit_iso: submits one
/// isochronous transfer with a fresh buffer of the given capacity,
/// split into `packets` equal packets. On success the transfer joins
/// the pool; on rejection the pool is unchanged. The bounds keep the
/// callee from its two panic paths (a zero packet count divides by
/// zero, and a buffer over i32::MAX overflows the transfer length).
#[verifier::external_body]
pub(crate) fn submit_fresh_iso(
    pool: &mut IsoPool,
    endpoint: u8,
    capacity: usize,
    packets: u8,
) -> (r: Result<(), ()>)
    requires
        1 <= packets,
        capacity <= 0x7FFF_FFFF,
    ensures
        r is Ok ==> pool_flight(*final(pool)) == pool_flight(*old(pool)) + 1,
        r is Err ==> pool_flight(*final(pool)) == pool_flight(*old(pool)),
{
    match pool.pool.submit_iso(endpoint, Vec::with_capacity(capacity), packets as i32) {
        Ok(()) => Ok(()),
        Err(_) => Err(()),
    }
}

/// Relies on rusb_async::TransferPool::poll: waits up to the timeout
/// for the pool's oldest transfer to complete. A completion (with data
/// or with a transport error) removes that transfer from the pool; a
/// timeout leaves the pool untouched. The pool must not be empty (the
/// callee would report no transfers pending). The timeout case is told
/// apart by the error's debug name because this version of the crate
/// does not export its error type. The three events are not the whole
/// story: the callee's event loop panics, aborting the process, on any
/// libusb event-handling error other than a timeout — an environmental
/// condition no precondition can exclude, so the contract covers only
/// the returning paths.
#[verifier::external_body]
pub(crate) fn pool_poll(pool: &mut IsoPool, timeout_ms: u64) -> (r: PollEvent)
    requires
        1 <= pool_flight(*old(pool)),
    ensures
        r is Completed ==> pool_flight(*final(pool)) + 1 == pool_flight(*old(pool)),
        r is TimedOut ==> pool_flight(*final(pool)) == pool_flight(*old(pool)),
        r is Failed ==> pool_flight(*final(pool)) + 1 == pool_flight(*old(pool)),
{
    match pool.pool.poll(Duration::from_millis(timeout_ms)) {
        Ok(data) => PollEvent::Completed(data),
        Err(e) => {
            if format!("{:?}", e) == "PollTimeout" {
                PollEvent::TimedOut
            } else {
                PollEvent::Failed
            }
        }
    }
}

/// Relies on rusb_async::TransferPool::cancel_all: asks the host stack
/// to cancel every in-flight transfer (newest first). Cancellation is
/// asynchronous, so nothing is reclaimed yet and the flight count is
/// unchanged; the cancelled transfers are reclaimed when the pool is
/// dropped.
#[verifier::external_body]
pub(crate) fn pool_cancel_all(pool: &mut IsoPool)
    ensures
        pool_flight(*final(pool)) == pool_flight(*old(pool)),
{
    pool.pool.cancel_all()
}

} // verus!
