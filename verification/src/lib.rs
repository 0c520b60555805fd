//! Driver core for a USBTV-chipset analog video capture adapter.
//!
//! The crate has two halves: a device control plane that programs the
//! chipset's vendor registers in fixed, order-sensitive batches
//! ([`easycap`], with the batches themselves in [`tables`]), and an
//! isochronous streaming engine that keeps a fixed pool of transfers in
//! flight against the video endpoint ([`streaming`]). All calls into the
//! USB host stack go through the narrow trusted layer in [`usb`].

pub mod easycap;
pub mod streaming;
pub mod tables;
pub mod usb;
