//! Flag bits for the firmware's allocate-memory call.

use vstd::prelude::*;

verus! {

/// Namespace for the allocate-memory flag bits.  The flags form a bitset
/// and are combined with `|`.
pub struct MemAllocFlags;

impl MemAllocFlags {
    /// Can be resized to 0 at any time.  Use for cached data.
    pub const DISCARDABLE: u32 = 0x1;

    /// Normal allocating alias.  Don't use from ARM.
    pub const NORMAL: u32 = 0x0;

    /// 0xC alias, uncached.
    pub const DIRECT: u32 = 0x4;

    /// 0x8 alias.  Non-allocating in L2 but coherent.
    pub const COHERENT: u32 = 0x8;

    /// Allocating in L2: both the direct and the coherent bit.
    pub const L1_NONALLOCATING: u32 = 0xC;

    /// Initialize the buffer to all zeroes.
    pub const ZERO: u32 = 0x10;

    /// Don't initialize (the default is to initialize to all ones).
    pub const NO_INIT: u32 = 0x20;

    /// Likely to be locked for long periods of time.
    pub const HINT_PERMALOCK: u32 = 0x40;
}

} // verus!
