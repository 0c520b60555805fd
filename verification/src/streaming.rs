//! Isochronous streaming engine.
//!
//! Once the device is in streaming mode, a [`StreamEngine`] keeps a
//! fixed number of isochronous transfers in flight against the video
//! endpoint. Isochronous delivery has no retry: if the pool ever runs
//! dry, the hardware silently drops data for that interval. The
//! engine's central invariant is therefore that, from the moment
//! `start` returns until the engine fails or is shut down, the flight
//! count equals the configured slot count — every reclaimed slot is
//! resubmitted before `poll_next` returns.

use vstd::prelude::*;
use crate::easycap::{CaptureError, EasyCap};
use crate::usb;
use crate::usb::{IsoPool, PollEvent, pool_flight};

verus! {

/// Address of the device's isochronous IN video endpoint.
pub const VIDEO_ENDPOINT: u8 = 0x81;

/// Default number of transfers kept in flight.
pub const DEFAULT_SLOT_COUNT: usize = 20;

/// Default capacity, in bytes, of each transfer's buffer.
pub const DEFAULT_BUFFER_CAPACITY: usize = 0x6000;

/// Default number of isochronous packets per transfer.
pub const DEFAULT_PACKETS_PER_TRANSFER: u8 = 8;

/// What `poll_next` does with one pool event: whether the reclaimed
/// slot is resubmitted, and what the caller is handed.
pub struct PollStep {
    /// True exactly when a slot was reclaimed (with data or with a
    /// transport error) and must be refilled to keep the pool full.
    pub resubmit: bool,
    /// What `poll_next` returns for this event, before any resubmission
    /// failure is taken into account.
    pub outcome: Result<Vec<u8>, CaptureError>,
}

/// The per-event policy of the steady-state loop: a completed buffer is
/// delivered to the caller exactly as it arrived — zero-length included,
/// since an isochronous packet may legitimately carry no bytes — and its
/// slot is refilled; a timeout reclaims nothing, so nothing is
/// resubmitted; a transport-failed transfer is dropped and its slot is
/// refilled, because isolated packet loss must not halt capture.
pub fn poll_policy(event: PollEvent) -> (r: PollStep)
    ensures
        event matches PollEvent::Completed(data) ==> r.resubmit && r.outcome == Ok::<
            Vec<u8>,
            CaptureError,
        >(data),
        event is TimedOut ==> !r.resubmit && r.outcome == Err::<Vec<u8>, CaptureError>(
            CaptureError::Timeout,
        ),
        event is Failed ==> r.resubmit && r.outcome == Err::<Vec<u8>, CaptureError>(
            CaptureError::TransferFailed,
        ),
{
    match event {
        PollEvent::Completed(data) => PollStep { resubmit: true, outcome: Ok(data) },
        PollEvent::TimedOut => PollStep { resubmit: false, outcome: Err(CaptureError::Timeout) },
        PollEvent::Failed => PollStep { resubmit: true, outcome: Err(CaptureError::TransferFailed) },
    }
}

/// The pool of in-flight transfers and its configuration. Constructed
/// only by [`StreamEngine::start`], which leaves it in its steady
/// state: as long as `active` holds, exactly `slot_count` transfers are
/// in flight.
pub struct StreamEngine {
    /// The transfer pool handed to the host stack.
    pub pool: IsoPool,
    /// The number of transfers the engine keeps in flight.
    pub slot_count: usize,
    /// Capacity, in bytes, of each transfer's buffer.
    pub buffer_capacity: usize,
    /// Isochronous packets per transfer.
    pub packets_per_transfer: u8,
    /// True until a resubmission is rejected or the engine is shut
    /// down; while it holds, the steady-state invariant does too.
    pub active: bool,
}

impl StreamEngine {
    /// The engine's well-formedness: its configuration is in the range
    /// the transport accepts, and while it is active the pool holds
    /// exactly `slot_count` transfers in flight.
    pub open spec fn wf(&self) -> bool {
        &&& 1 <= self.slot_count
        &&& 1 <= self.packets_per_transfer
        &&& self.buffer_capacity <= 0x7FFF_FFFF
        &&& self.active ==> pool_flight(self.pool) == self.slot_count
    }

    /// The number of transfers currently in flight.
    pub open spec fn flight(&self) -> nat {
        pool_flight(self.pool)
    }

    /// Takes ownership of the configured device's handle and fills the
    /// pool: fresh transfers are submitted one by one until `slot_count`
    /// are in flight. If the transport rejects a submission — typically
    /// because the streaming alternate setting was never activated —
    /// the filling aborts with `SubmissionError` and the partially
    /// filled pool is torn down.
    pub fn start(
        cap: EasyCap,
        slot_count: usize,
        buffer_capacity: usize,
        packets_per_transfer: u8,
    ) -> (r: Result<StreamEngine, CaptureError>)
        requires
            1 <= slot_count,
            1 <= packets_per_transfer,
            buffer_capacity <= 0x7FFF_FFFF,
        ensures
            r matches Ok(engine) ==> engine.wf() && engine.active && engine.slot_count
                == slot_count && engine.buffer_capacity == buffer_capacity
                && engine.packets_per_transfer == packets_per_transfer,
            r matches Err(e) ==> e is SubmissionError,
    {
        let mut pool = usb::pool_new(cap.port.handle);
        let mut submitted: usize = 0;
        while submitted < slot_count
            invariant
                submitted <= slot_count,
                pool_flight(pool) == submitted,
                1 <= packets_per_transfer,
                buffer_capacity <= 0x7FFF_FFFF,
            decreases slot_count - submitted,
        {
            match usb::submit_fresh_iso(
                &mut pool,
                VIDEO_ENDPOINT,
                buffer_capacity,
                packets_per_transfer,
            ) {
                Ok(()) => {
                    submitted += 1;
                }
                Err(()) => {
                    return Err(CaptureError::SubmissionError);
                }
            }
        }
        Ok(
            StreamEngine {
                pool,
                slot_count,
                buffer_capacity,
                packets_per_transfer,
                active: true,
            },
        )
    }

    /// Starts with the documented defaults: 20 slots of 0x6000 bytes,
    /// 8 packets each.
    pub fn start_default(cap: EasyCap) -> (r: Result<StreamEngine, CaptureError>)
        ensures
            r matches Ok(engine) ==> engine.wf() && engine.active && engine.slot_count
                == DEFAULT_SLOT_COUNT && engine.buffer_capacity == DEFAULT_BUFFER_CAPACITY
                && engine.packets_per_transfer == DEFAULT_PACKETS_PER_TRANSFER,
            r matches Err(e) ==> e is SubmissionError,
    {
        Self::start(cap, DEFAULT_SLOT_COUNT, DEFAULT_BUFFER_CAPACITY, DEFAULT_PACKETS_PER_TRANSFER)
    }

    /// The flight count as the pool reports it.
    pub fn flight_count(&self) -> (n: usize)
        ensures
            n == self.flight(),
    {
        usb::pool_pending(&self.pool)
    }

    /// Blocks up to `timeout_ms` for the next reclaimed slot and applies
    /// [`poll_policy`] to it: a completed payload is returned to the
    /// caller — unchanged, zero-length included — and its slot is
    /// refilled before this returns, so the flight count is back at
    /// `slot_count`; a timeout returns `Timeout` and resubmits nothing,
    /// leaving the flight count exactly as it was; a transport-failed
    /// transfer returns `TransferFailed` with its slot refilled and the
    /// stream still active. Only a rejected resubmission deactivates
    /// the engine, surfaced as `SubmissionError`.
    pub fn poll_next(&mut self, timeout_ms: u64) -> (r: Result<Vec<u8>, CaptureError>)
        requires
            old(self).wf(),
            old(self).active,
        ensures
            final(self).wf(),
            final(self).slot_count == old(self).slot_count,
            final(self).buffer_capacity == old(self).buffer_capacity,
            final(self).packets_per_transfer == old(self).packets_per_transfer,
            r is Ok ==> final(self).active,
            r == Err::<Vec<u8>, CaptureError>(CaptureError::Timeout) ==> final(self).active
                && final(self).flight() == old(self).flight(),
            r == Err::<Vec<u8>, CaptureError>(CaptureError::TransferFailed) ==> final(self).active,
            r matches Err(e) ==> (e is Timeout || e is TransferFailed || e is SubmissionError),
            !final(self).active ==> r == Err::<Vec<u8>, CaptureError>(
                CaptureError::SubmissionError,
            ),
    {
        let event = usb::pool_poll(&mut self.pool, timeout_ms);
        let step = poll_policy(event);
        if step.resubmit {
            match usb::submit_fresh_iso(
                &mut self.pool,
                VIDEO_ENDPOINT,
                self.buffer_capacity,
                self.packets_per_transfer,
            ) {
                Ok(()) => step.outcome,
                Err(()) => {
                    self.active = false;
                    Err(CaptureError::SubmissionError)
                }
            }
        } else {
            step.outcome
        }
    }

    /// Shuts the stream down: resubmission stops, every in-flight
    /// transfer is asked to cancel, and the pool is released — which
    /// reclaims or abandons the outstanding transfers and frees their
    /// buffers. Safe to call whatever state the engine is in.
    pub fn shutdown(self) {
        let StreamEngine { mut pool, .. } = self;
        usb::pool_cancel_all(&mut pool);
    }
}

/// While streaming is active, the pool never runs dry: an active,
/// well-formed engine has exactly `slot_count` transfers in flight, so
/// the hardware always has a buffer to fill.
pub proof fn lemma_steady_flight(engine: StreamEngine)
    requires
        engine.wf(),
        engine.active,
    ensures
        engine.flight() == engine.slot_count,
{
}

} // verus!
