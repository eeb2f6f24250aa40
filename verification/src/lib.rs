//! Bare-metal driver library for the BCM2837 VideoCore subsystem.
//!
//! The core of the crate builds the binary artefacts that the VideoCore
//! firmware and the V3D 3D pipeline consume: mailbox property-channel
//! messages, GPU command lists (binning and render configuration), and the
//! bookkeeping around GPU-space addresses.  Everything here is pure
//! computation over plain values; the thin layer that pokes the actual
//! memory-mapped registers lives outside the library and only copies the
//! byte blocks produced here into place.

pub mod addr;
pub mod gauge;
pub mod gl;
pub mod hvs;
pub mod mailbox;
pub mod v3d;

pub use addr::{GpuHandle, Vc4Addr};
