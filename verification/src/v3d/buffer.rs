//! A bounded cursor over a GPU memory region.
//!
//! Command lists are laid out by appending fixed-width records one after
//! another.  The writer owns the staged bytes and remembers which region
//! they are destined for: the region's ARM-masked base address and its
//! declared length.  Writes never exceed that length, and the cursor only
//! moves forward; once a list is complete, the staged bytes are copied in
//! one piece to the ARM view of the region's base address.

use vstd::prelude::*;

use crate::addr::spec_gpu_to_arm;

verus! {

/// Cursor writer for one command list or data block.
pub struct Writer {
    base: u32,
    buf: Vec<u8>,
    capacity: usize,
}

impl View for Writer {
    type V = Seq<u8>;

    /// The bytes written so far, in order.
    closed spec fn view(&self) -> Seq<u8> {
        self.buf@
    }
}

impl Writer {
    /// The ARM-masked base address of the destination region.
    pub closed spec fn spec_base(&self) -> u32 {
        self.base
    }

    /// The declared length of the destination region.
    pub closed spec fn spec_capacity(&self) -> usize {
        self.capacity
    }

    /// Start a fresh writer for the region that begins at the GPU-space
    /// address `addr` and is `len` bytes long.
    pub fn new(addr: u32, len: usize) -> (w: Writer)
        ensures
            w@ == Seq::<u8>::empty(),
            w.spec_base() == spec_gpu_to_arm(addr),
            w.spec_capacity() == len,
    {
        Writer { base: crate::addr::gpu_to_arm_addr(addr), buf: Vec::new(), capacity: len }
    }

    /// Append `data` at the current cursor.  Each call lands exactly after
    /// everything written before it, and the cursor advances by the length
    /// of `data`: after any series of writes, `bytes_written` equals the sum
    /// of the slice lengths and the staged bytes are their concatenation.
    pub fn write(&mut self, data: &[u8])
        requires
            old(self)@.len() + data@.len() <= old(self).spec_capacity(),
        ensures
            final(self)@ == old(self)@ + data@,
            final(self).spec_base() == old(self).spec_base(),
            final(self).spec_capacity() == old(self).spec_capacity(),
    {
        let mut i: usize = 0;
        while i < data.len()
            invariant
                i <= data@.len(),
                self@ == old(self)@ + data@.subrange(0, i as int),
                self.spec_base() == old(self).spec_base(),
                self.spec_capacity() == old(self).spec_capacity(),
            decreases data@.len() - i,
        {
            self.buf.push(data[i]);
            i = i + 1;
            proof {
                assert(data@.subrange(0, i as int) == data@.subrange(0, i - 1).push(
                    data@[i - 1],
                ));
            }
        }
        proof {
            assert(data@.subrange(0, data@.len() as int) == data@);
        }
    }

    /// Append a single byte.
    pub fn write_u8(&mut self, val: u8)
        requires
            old(self)@.len() + 1 <= old(self).spec_capacity(),
        ensures
            final(self)@ == old(self)@ + seq![val],
            final(self).spec_base() == old(self).spec_base(),
            final(self).spec_capacity() == old(self).spec_capacity(),
    {
        let mut one: Vec<u8> = Vec::new();
        one.push(val);
        self.write(one.as_slice());
        proof {
            assert(one@ =~= seq![val]);
        }
    }

    /// Append a 16-bit value in little-endian order.
    pub fn write_u16(&mut self, val: u16)
        requires
            old(self)@.len() + 2 <= old(self).spec_capacity(),
        ensures
            final(self)@ == old(self)@ + vstd::bytes::spec_u16_to_le_bytes(val),
            final(self)@.len() == old(self)@.len() + 2,
            final(self).spec_base() == old(self).spec_base(),
            final(self).spec_capacity() == old(self).spec_capacity(),
    {
        proof {
            vstd::bytes::lemma_auto_spec_u16_to_from_le_bytes();
        }
        let bytes = vstd::bytes::u16_to_le_bytes(val);
        self.write(bytes.as_slice());
    }

    /// Append a 32-bit value in little-endian order.
    pub fn write_u32(&mut self, val: u32)
        requires
            old(self)@.len() + 4 <= old(self).spec_capacity(),
        ensures
            final(self)@ == old(self)@ + vstd::bytes::spec_u32_to_le_bytes(val),
            final(self)@.len() == old(self)@.len() + 4,
            final(self).spec_base() == old(self).spec_base(),
            final(self).spec_capacity() == old(self).spec_capacity(),
    {
        proof {
            vstd::bytes::lemma_auto_spec_u32_to_from_le_bytes();
        }
        let bytes = vstd::bytes::u32_to_le_bytes(val);
        self.write(bytes.as_slice());
    }

    /// How many bytes have been written so far.
    pub fn bytes_written(&self) -> (n: usize)
        ensures
            n == self@.len(),
    {
        self.buf.len()
    }

    /// The staged bytes, ready to be copied to the destination region.
    pub fn data(&self) -> (d: &Vec<u8>)
        ensures
            d@ == self@,
    {
        &self.buf
    }

    /// The ARM-masked base address the staged bytes belong at.
    pub fn base_addr(&self) -> (a: u32)
        ensures
            a == self.spec_base(),
    {
        self.base
    }
}

} // verus!
