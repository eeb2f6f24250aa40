//! GPU-space addresses and the ARM alias translation.
//!
//! The same physical memory is visible to the VideoCore GPU and to the ARM
//! core under different address encodings: the GPU-space form carries cache
//! alias information in its top two bits, while the ARM view has those bits
//! cleared.  Every pointer the CPU dereferences must use the masked form;
//! every address written into a command list for the GPU must keep the
//! GPU-space form.

use vstd::prelude::*;

verus! {

/// A 32-bit address in VideoCore GPU address space.
pub type Vc4Addr = u32;

/// An opaque 32-bit handle returned by the firmware's allocate-memory call.
pub type GpuHandle = u32;

/// The two top bits that select the GPU cache alias.
pub const GPU_ALIAS_BITS: u32 = 0xC000_0000;

/// The ARM-visible view of a GPU-space address: the alias bits cleared.
pub open spec fn spec_gpu_to_arm(addr: Vc4Addr) -> u32 {
    addr & 0x3FFF_FFFFu32
}

/// The GPU-space (coherent alias) view of an ARM address: the alias bits set.
pub open spec fn spec_arm_to_gpu(addr: u32) -> Vc4Addr {
    addr | 0xC000_0000u32
}

/// Clear the alias bits so the CPU can dereference the address.
pub fn gpu_to_arm_addr(addr: Vc4Addr) -> (r: u32)
    ensures
        r == spec_gpu_to_arm(addr),
        r & GPU_ALIAS_BITS == 0,
{
    proof {
        lemma_mask_clears_alias(addr);
    }
    addr & 0x3FFF_FFFFu32
}

/// Set the alias bits so the GPU sees the address through the uncached alias.
pub fn arm_to_gpu_addr(addr: u32) -> (r: Vc4Addr)
    ensures
        r == spec_arm_to_gpu(addr),
{
    addr | 0xC000_0000u32
}

/// Masking always lands in the ARM-addressable window: no address that went
/// through `gpu_to_arm_addr` still carries an alias bit.
pub proof fn lemma_mask_clears_alias(a: Vc4Addr)
    ensures
        spec_gpu_to_arm(a) & 0xC000_0000u32 == 0,
{
    assert((a & 0x3FFF_FFFFu32) & 0xC000_0000u32 == 0) by (bit_vector);
}

/// Round trip between the two encodings: for a GPU-space address whose two
/// alias bits are both set, masking and re-deriving the GPU form gives the
/// original address back.  (An address with only one alias bit set names a
/// different cache alias and does not round-trip through the coherent form.)
pub proof fn lemma_mask_round_trip(a: Vc4Addr)
    requires
        a & 0xC000_0000u32 == 0xC000_0000u32,
    ensures
        spec_arm_to_gpu(spec_gpu_to_arm(a)) == a,
{
    assert((a & 0xC000_0000u32 == 0xC000_0000u32) ==> ((a & 0x3FFF_FFFFu32) | 0xC000_0000u32
        == a)) by (bit_vector);
}

} // verus!
