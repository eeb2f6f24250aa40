//! The V3D fixed-function 3D pipeline: register map, memory-allocation
//! messages, and the bounded writer used to serialize command lists.
//!
//! The V3D block is driven entirely through binary control lists placed in
//! GPU memory and through a small set of memory-mapped registers.  This
//! module holds the pure parts: the register offsets, the property-channel
//! messages that allocate and lock GPU memory, and the cursor type that
//! lays out hardware-defined records byte by byte.

pub mod buffer;
pub mod flags;
pub mod message;
pub mod registers;

use vstd::prelude::*;

verus! {

/// The value the `Ident0` register must read back on the expected V3D
/// hardware revision.
pub const V3D_IDENT0_EXPECTED: u32 = 0x02443356;

/// Failures of V3D bring-up.
#[derive(Debug, Clone, Copy, PartialEq, Eq, Structural)]
pub enum V3DError {
    Init,
    Check,
    MaxClockRequest,
    CurrentClockRequest,
}

impl V3DError {
    /// A human-readable description of the failure.
    pub fn message(&self) -> (r: &'static str)
        ensures
            *self is Init ==> r@ == "V3D Core Initialization failed"@,
            *self is Check ==> r@ == "V3D Check Failed"@,
            *self is MaxClockRequest ==> r@ == "Failed to request max clock speed"@,
            *self is CurrentClockRequest ==> r@ == "Failed to get current clock speed"@,
    {
        match self {
            V3DError::Init => "V3D Core Initialization failed",
            V3DError::Check => "V3D Check Failed",
            V3DError::MaxClockRequest => "Failed to request max clock speed",
            V3DError::CurrentClockRequest => "Failed to get current clock speed",
        }
    }
}

/// Decide whether a value read back from `Ident0` identifies the expected
/// GPU revision; anything else must abort initialization.
pub fn check_v3d_ident0(ident0_value: u32) -> (r: Result<(), V3DError>)
    ensures
        r is Ok <==> ident0_value == V3D_IDENT0_EXPECTED,
        r is Err ==> r->Err_0 == V3DError::Check,
{
    if ident0_value != 0x02443356 {
        return Err(V3DError::Check);
    }
    Ok(())
}

} // verus!
