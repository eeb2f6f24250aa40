//! Property-channel messages for GPU memory and QPU control.
//!
//! Every message is an array of 32-bit words: word 0 holds the total buffer
//! size in bytes, word 1 the request/response code, then one tag block
//! (tag id, value-buffer size, request/response length, payload words) and
//! the terminating zero tag.  The firmware overwrites the buffer in place;
//! the response value sits at a fixed word index for each message kind.

use vstd::prelude::*;

use crate::mailbox::{spec_well_sized, Channel, MailboxTag, Message, LAST_TAG, MBOX_REQUEST};

verus! {

/// Classification of the request/response word of a property message.
#[derive(Debug, Clone, Copy, PartialEq, Eq, Structural)]
pub enum MailboxResponse {
    /// The buffer still holds a request: the firmware has not answered.
    Request,
    /// The firmware answered and reports success.
    Success,
    /// Any other code: the firmware reports an error.
    Error,
}

/// What a request/response word means.  Total on all 32-bit inputs.
pub open spec fn spec_response_of(value: u32) -> MailboxResponse {
    if value == 0x00000000 {
        MailboxResponse::Request
    } else if value == 0x80000000 {
        MailboxResponse::Success
    } else {
        MailboxResponse::Error
    }
}

impl From<u32> for MailboxResponse {
    /// Decode a request/response word.  `0` is still a request,
    /// `0x80000000` is success, anything else is an error.
    fn from(value: u32) -> (r: Self)
        ensures
            r == spec_response_of(value),
    {
        match value {
            0x00000000 => Self::Request,
            0x80000000 => Self::Success,
            _ => Self::Error,
        }
    }
}

impl vstd::std_specs::convert::FromSpecImpl<u32> for MailboxResponse {
    open spec fn obeys_from_spec() -> bool {
        true
    }

    open spec fn from_spec(value: u32) -> Self {
        spec_response_of(value)
    }
}

/// The words of the allocate-memory message: 10 words, tag `0x0003000C`,
/// payload size, alignment, flags, and a response slot.
pub open spec fn spec_mem_alloc_words(size: u32, align: u32, flags: u32) -> Seq<u32> {
    seq![40u32, MBOX_REQUEST, MailboxTag::ALLOCATE_MEMORY, 12u32, 12u32, size, align, flags, 0u32, LAST_TAG]
}

/// The words of the release-memory message: 7 words, tag `0x0003000F`.
pub open spec fn spec_mem_free_words(handle: u32) -> Seq<u32> {
    seq![28u32, MBOX_REQUEST, MailboxTag::RELEASE_MEMORY, 4u32, 4u32, handle, LAST_TAG]
}

/// The words of the lock-memory message: 8 words, tag `0x0003000D`, with a
/// response slot for the locked bus address.
pub open spec fn spec_mem_lock_words(handle: u32) -> Seq<u32> {
    seq![32u32, MBOX_REQUEST, MailboxTag::LOCK_MEMORY, 4u32, 4u32, handle, 0u32, LAST_TAG]
}

/// The words of the unlock-memory message: 7 words, tag `0x0003000E`.
pub open spec fn spec_mem_unlock_words(handle: u32) -> Seq<u32> {
    seq![28u32, MBOX_REQUEST, MailboxTag::UNLOCK_MEMORY, 4u32, 4u32, handle, LAST_TAG]
}

/// The words of the execute-code message: 13 words, tag `0x00030010`, with
/// the code address and the six argument registers.
pub open spec fn spec_execute_code_words(
    code: u32,
    r0: u32,
    r1: u32,
    r2: u32,
    r3: u32,
    r4: u32,
    r5: u32,
) -> Seq<u32> {
    seq![52u32, MBOX_REQUEST, MailboxTag::EXECUTE_CODE, 28u32, 28u32, code, r0, r1, r2, r3, r4, r5, LAST_TAG]
}

/// The words of the execute-QPU message: 10 words, tag `0x00030011`.
pub open spec fn spec_execute_qpu_words(
    num_qpus: u32,
    control: u32,
    noflush: u32,
    timeout: u32,
) -> Seq<u32> {
    seq![40u32, MBOX_REQUEST, MailboxTag::EXECUTE_QPU, 16u32, 16u32, num_qpus, control, noflush, timeout, LAST_TAG]
}

/// The words of the execute-QPU request as the tag-message builder frames
/// it: the firmware expects it under the enable-QPU tag.
pub open spec fn spec_execute_qpu_tag_words(
    num_qpus: u32,
    control: u32,
    noflush: u32,
    timeout: u32,
) -> Seq<u32> {
    seq![40u32, MBOX_REQUEST, MailboxTag::ENABLE_QPU, 16u32, 16u32, num_qpus, control, noflush, timeout, LAST_TAG]
}

/// The words of the get-clock-rate query for the V3D core (clock id `0x5`).
pub open spec fn spec_current_gpu_clock_rate_words() -> Seq<u32> {
    seq![36u32, MBOX_REQUEST, MailboxTag::GET_CLOCK_RATE, 8u32, 8u32, 0x5u32, 0u32, LAST_TAG, 0u32]
}

/// The words of the get-max-clock-rate query for the V3D core.
pub open spec fn spec_max_gpu_clock_rate_words() -> Seq<u32> {
    seq![36u32, MBOX_REQUEST, MailboxTag::GET_MAX_CLOCK_RATE, 8u32, 8u32, 0x5u32, 0u32, LAST_TAG, 0u32]
}

/// Build the allocate-memory message for `size` bytes with the given
/// alignment and flag bits.  After a successful exchange the handle sits
/// at word 5.
pub fn mem_alloc(size: u32, align: u32, flags: u32) -> (m: Message)
    ensures
        m@ == spec_mem_alloc_words(size, align, flags),
        spec_well_sized(m@),
{
    let mut ret: Vec<u32> = Vec::new();
    ret.push(40);
    ret.push(MBOX_REQUEST);
    ret.push(MailboxTag::ALLOCATE_MEMORY);
    ret.push(12);
    ret.push(12);
    ret.push(size);
    ret.push(align);
    ret.push(flags);
    ret.push(0);
    ret.push(LAST_TAG);
    proof {
        assert(ret@ =~= spec_mem_alloc_words(size, align, flags));
    }
    Message::new(ret)
}

/// Build the release-memory message for a handle.
pub fn mem_free(handle: u32) -> (m: Message)
    ensures
        m@ == spec_mem_free_words(handle),
        spec_well_sized(m@),
{
    let mut ret: Vec<u32> = Vec::new();
    ret.push(28);
    ret.push(MBOX_REQUEST);
    ret.push(MailboxTag::RELEASE_MEMORY);
    ret.push(4);
    ret.push(4);
    ret.push(handle);
    ret.push(LAST_TAG);
    proof {
        assert(ret@ =~= spec_mem_free_words(handle));
    }
    Message::new(ret)
}

/// Build the lock-memory message for a handle.  After a successful exchange
/// the GPU-space bus address sits at word 5.
pub fn mem_lock(handle: u32) -> (m: Message)
    ensures
        m@ == spec_mem_lock_words(handle),
        spec_well_sized(m@),
{
    let mut ret: Vec<u32> = Vec::new();
    ret.push(32);
    ret.push(MBOX_REQUEST);
    ret.push(MailboxTag::LOCK_MEMORY);
    ret.push(4);
    ret.push(4);
    ret.push(handle);
    ret.push(0);
    ret.push(LAST_TAG);
    proof {
        assert(ret@ =~= spec_mem_lock_words(handle));
    }
    Message::new(ret)
}

/// Build the unlock-memory message for a handle.
pub fn mem_unlock(handle: u32) -> (m: Message)
    ensures
        m@ == spec_mem_unlock_words(handle),
        spec_well_sized(m@),
{
    let mut ret: Vec<u32> = Vec::new();
    ret.push(28);
    ret.push(MBOX_REQUEST);
    ret.push(MailboxTag::UNLOCK_MEMORY);
    ret.push(4);
    ret.push(4);
    ret.push(handle);
    ret.push(LAST_TAG);
    proof {
        assert(ret@ =~= spec_mem_unlock_words(handle));
    }
    Message::new(ret)
}

/// Build the execute-code message.
pub fn execute_code(code: u32, r0: u32, r1: u32, r2: u32, r3: u32, r4: u32, r5: u32) -> (m:
    Message)
    ensures
        m@ == spec_execute_code_words(code, r0, r1, r2, r3, r4, r5),
        spec_well_sized(m@),
{
    let mut ret: Vec<u32> = Vec::new();
    ret.push(52);
    ret.push(MBOX_REQUEST);
    ret.push(MailboxTag::EXECUTE_CODE);
    ret.push(28);
    ret.push(28);
    ret.push(code);
    ret.push(r0);
    ret.push(r1);
    ret.push(r2);
    ret.push(r3);
    ret.push(r4);
    ret.push(r5);
    ret.push(LAST_TAG);
    proof {
        assert(ret@ =~= spec_execute_code_words(code, r0, r1, r2, r3, r4, r5));
    }
    Message::new(ret)
}

/// Build the execute-QPU message.
pub fn execute_qpu(num_qpus: u32, control: u32, noflush: u32, timeout: u32) -> (m: Message)
    ensures
        m@ == spec_execute_qpu_words(num_qpus, control, noflush, timeout),
        spec_well_sized(m@),
{
    let mut ret: Vec<u32> = Vec::new();
    ret.push(40);
    ret.push(MBOX_REQUEST);
    ret.push(MailboxTag::EXECUTE_QPU);
    ret.push(16);
    ret.push(16);
    ret.push(num_qpus);
    ret.push(control);
    ret.push(noflush);
    ret.push(timeout);
    ret.push(LAST_TAG);
    proof {
        assert(ret@ =~= spec_execute_qpu_words(num_qpus, control, noflush, timeout));
    }
    Message::new(ret)
}

/// The words of the QPU-enable message sent during V3D bring-up: a single
/// four-byte value of 1 under the enable-QPU tag, padded to 13 words.
pub open spec fn spec_enable_qpu_words() -> Seq<u32> {
    seq![
        52u32,
        MBOX_REQUEST,
        MailboxTag::ENABLE_QPU,
        4u32,
        4u32,
        1u32,
        0u32,
        0u32,
        0u32,
        0u32,
        0u32,
        0u32,
        0u32,
    ]
}

/// Build the QPU-enable message for V3D bring-up.
pub fn enable_qpu_message() -> (m: Message)
    ensures
        m@ == spec_enable_qpu_words(),
        spec_well_sized(m@),
{
    let mut ret: Vec<u32> = Vec::new();
    ret.push(52);
    ret.push(MBOX_REQUEST);
    ret.push(MailboxTag::ENABLE_QPU);
    ret.push(4);
    ret.push(4);
    ret.push(1);
    ret.push(0);
    ret.push(0);
    ret.push(0);
    ret.push(0);
    ret.push(0);
    ret.push(0);
    ret.push(0);
    proof {
        assert(ret@ =~= spec_enable_qpu_words());
    }
    Message::new(ret)
}

/// Build the query for the V3D core's current clock rate.  The rate sits at
/// word 6 of the response.
pub fn get_current_gpu_clock_rate_message() -> (m: Message)
    ensures
        m@ == spec_current_gpu_clock_rate_words(),
        spec_well_sized(m@),
{
    let mut ret: Vec<u32> = Vec::new();
    ret.push(36);
    ret.push(MBOX_REQUEST);
    ret.push(MailboxTag::GET_CLOCK_RATE);
    ret.push(8);
    ret.push(8);
    ret.push(0x5);
    ret.push(0);
    ret.push(LAST_TAG);
    ret.push(0);
    proof {
        assert(ret@ =~= spec_current_gpu_clock_rate_words());
    }
    Message::new(ret)
}

/// Build the query for the V3D core's maximum clock rate.  The rate sits at
/// word 6 of the response.
pub fn max_gpu_clock_rate_message() -> (m: Message)
    ensures
        m@ == spec_max_gpu_clock_rate_words(),
        spec_well_sized(m@),
{
    let mut ret: Vec<u32> = Vec::new();
    ret.push(36);
    ret.push(MBOX_REQUEST);
    ret.push(MailboxTag::GET_MAX_CLOCK_RATE);
    ret.push(8);
    ret.push(8);
    ret.push(0x5);
    ret.push(0);
    ret.push(LAST_TAG);
    ret.push(0);
    proof {
        assert(ret@ =~= spec_max_gpu_clock_rate_words());
    }
    Message::new(ret)
}

/// A property message together with its tag-protocol framing, kept as
/// explicit fields: total size, request/response status, leading tag id,
/// and the remaining payload words.
#[derive(Debug, Clone)]
pub struct MailboxTagMessage {
    pub size: u32,
    pub status: u32,
    pub tag: u32,
    pub payload: Vec<u32>,
}

impl MailboxTagMessage {
    /// The flat word sequence this message occupies in memory.
    pub open spec fn spec_words(&self) -> Seq<u32> {
        seq![self.size, self.status, self.tag] + self.payload@
    }

    /// The size field is consistent: it covers the three header words plus
    /// the payload, four bytes each.
    pub open spec fn well_sized(&self) -> bool {
        self.size == 4 * (3 + self.payload@.len())
    }

    /// Allocate-memory request with the same layout as `spec_mem_alloc_words`.
    pub fn mem_alloc(size: u32, align: u32, flags: u32) -> (m: MailboxTagMessage)
        ensures
            m.spec_words() == spec_mem_alloc_words(size, align, flags),
            m.well_sized(),
    {
        let mut payload: Vec<u32> = Vec::new();
        payload.push(12);
        payload.push(12);
        payload.push(size);
        payload.push(align);
        payload.push(flags);
        payload.push(0);
        payload.push(LAST_TAG);
        let m = MailboxTagMessage {
            size: 40,
            status: MBOX_REQUEST,
            tag: MailboxTag::ALLOCATE_MEMORY,
            payload,
        };
        proof {
            assert(m.spec_words() =~= spec_mem_alloc_words(size, align, flags));
        }
        m
    }

    /// Release-memory request.
    pub fn mem_free(handle: u32) -> (m: MailboxTagMessage)
        ensures
            m.spec_words() == spec_mem_free_words(handle),
            m.well_sized(),
    {
        let mut payload: Vec<u32> = Vec::new();
        payload.push(4);
        payload.push(4);
        payload.push(handle);
        payload.push(LAST_TAG);
        let m = MailboxTagMessage {
            size: 28,
            status: MBOX_REQUEST,
            tag: MailboxTag::RELEASE_MEMORY,
            payload,
        };
        proof {
            assert(m.spec_words() =~= spec_mem_free_words(handle));
        }
        m
    }

    /// Lock-memory request.
    pub fn mem_lock(handle: u32) -> (m: MailboxTagMessage)
        ensures
            m.spec_words() == spec_mem_lock_words(handle),
            m.well_sized(),
    {
        let mut payload: Vec<u32> = Vec::new();
        payload.push(4);
        payload.push(4);
        payload.push(handle);
        payload.push(0);
        payload.push(LAST_TAG);
        let m = MailboxTagMessage {
            size: 32,
            status: MBOX_REQUEST,
            tag: MailboxTag::LOCK_MEMORY,
            payload,
        };
        proof {
            assert(m.spec_words() =~= spec_mem_lock_words(handle));
        }
        m
    }

    /// Unlock-memory request.
    pub fn mem_unlock(handle: u32) -> (m: MailboxTagMessage)
        ensures
            m.spec_words() == spec_mem_unlock_words(handle),
            m.well_sized(),
    {
        let mut payload: Vec<u32> = Vec::new();
        payload.push(4);
        payload.push(4);
        payload.push(handle);
        payload.push(LAST_TAG);
        let m = MailboxTagMessage {
            size: 28,
            status: MBOX_REQUEST,
            tag: MailboxTag::UNLOCK_MEMORY,
            payload,
        };
        proof {
            assert(m.spec_words() =~= spec_mem_unlock_words(handle));
        }
        m
    }

    /// Execute-code request.
    pub fn execute_code(code: u32, r0: u32, r1: u32, r2: u32, r3: u32, r4: u32, r5: u32) -> (m:
        MailboxTagMessage)
        ensures
            m.spec_words() == spec_execute_code_words(code, r0, r1, r2, r3, r4, r5),
            m.well_sized(),
    {
        let mut payload: Vec<u32> = Vec::new();
        payload.push(28);
        payload.push(28);
        payload.push(code);
        payload.push(r0);
        payload.push(r1);
        payload.push(r2);
        payload.push(r3);
        payload.push(r4);
        payload.push(r5);
        payload.push(LAST_TAG);
        let m = MailboxTagMessage {
            size: 52,
            status: MBOX_REQUEST,
            tag: MailboxTag::EXECUTE_CODE,
            payload,
        };
        proof {
            assert(m.spec_words() =~= spec_execute_code_words(code, r0, r1, r2, r3, r4, r5));
        }
        m
    }

    /// Execute-QPU request (tag `EnableQpu`, as the firmware expects).
    pub fn execute_qpu(num_qpus: u32, control: u32, noflush: u32, timeout: u32) -> (m:
        MailboxTagMessage)
        ensures
            m.spec_words() == spec_execute_qpu_tag_words(num_qpus, control, noflush, timeout),
            m.well_sized(),
    {
        let mut payload: Vec<u32> = Vec::new();
        payload.push(16);
        payload.push(16);
        payload.push(num_qpus);
        payload.push(control);
        payload.push(noflush);
        payload.push(timeout);
        payload.push(LAST_TAG);
        let m = MailboxTagMessage {
            size: 40,
            status: MBOX_REQUEST,
            tag: MailboxTag::ENABLE_QPU,
            payload,
        };
        proof {
            assert(m.spec_words() =~= spec_execute_qpu_tag_words(num_qpus, control, noflush, timeout));
        }
        m
    }

    /// The value to put in the mailbox write register for a buffer of this
    /// message placed at `buffer_addr`: the 16-byte-aligned address with the
    /// property channel id in the low four bits.
    pub fn to_mailbox_addr(&self, buffer_addr: u32) -> (r: u32)
        ensures
            r == (buffer_addr & 0xFFFF_FFF0u32) | 8u32,
    {
        (buffer_addr & 0xFFFF_FFF0u32) | Channel::Prop.code()
    }

    /// The word at `idx` of the message as it sits in memory, read back
    /// after an exchange: word 0 is the size, word 1 the status, word 2 the
    /// tag, the rest the payload.  `None` when the index is out of bounds.
    pub fn read_word(&self, idx: usize) -> (r: Option<u32>)
        ensures
            idx < self.spec_words().len() ==> r == Some(self.spec_words()[idx as int]),
            idx >= self.spec_words().len() ==> r is None,
    {
        if idx == 0 {
            Some(self.size)
        } else if idx == 1 {
            Some(self.status)
        } else if idx - 2 <= self.payload.len() {
            if idx == 2 {
                Some(self.tag)
            } else {
                Some(self.payload[idx - 3])
            }
        } else {
            None
        }
    }

    /// Classify the status word after an exchange.
    pub fn response(&self) -> (r: MailboxResponse)
        ensures
            r == spec_response_of(self.status),
    {
        MailboxResponse::from(self.status)
    }
}

/// Namespace mirror of the message builders, for callers that reach them
/// through the `MailboxMessage` name.
pub struct MailboxMessage;

impl MailboxMessage {
    /// Allocate-memory request; see `MailboxTagMessage::mem_alloc`.
    pub fn mem_alloc(size: u32, align: u32, flags: u32) -> (m: MailboxTagMessage)
        ensures
            m.spec_words() == spec_mem_alloc_words(size, align, flags),
            m.well_sized(),
    {
        MailboxTagMessage::mem_alloc(size, align, flags)
    }

    /// Release-memory request; see `MailboxTagMessage::mem_free`.
    pub fn mem_free(handle: u32) -> (m: MailboxTagMessage)
        ensures
            m.spec_words() == spec_mem_free_words(handle),
            m.well_sized(),
    {
        MailboxTagMessage::mem_free(handle)
    }

    /// Lock-memory request; see `MailboxTagMessage::mem_lock`.
    pub fn mem_lock(handle: u32) -> (m: MailboxTagMessage)
        ensures
            m.spec_words() == spec_mem_lock_words(handle),
            m.well_sized(),
    {
        MailboxTagMessage::mem_lock(handle)
    }

    /// Unlock-memory request; see `MailboxTagMessage::mem_unlock`.
    pub fn mem_unlock(handle: u32) -> (m: MailboxTagMessage)
        ensures
            m.spec_words() == spec_mem_unlock_words(handle),
            m.well_sized(),
    {
        MailboxTagMessage::mem_unlock(handle)
    }

    /// Execute-code request; see `MailboxTagMessage::execute_code`.
    pub fn execute_code(code: u32, r0: u32, r1: u32, r2: u32, r3: u32, r4: u32, r5: u32) -> (m:
        MailboxTagMessage)
        ensures
            m.spec_words() == spec_execute_code_words(code, r0, r1, r2, r3, r4, r5),
            m.well_sized(),
    {
        MailboxTagMessage::execute_code(code, r0, r1, r2, r3, r4, r5)
    }

    /// Execute-QPU request; see `MailboxTagMessage::execute_qpu`.
    pub fn execute_qpu(num_qpus: u32, control: u32, noflush: u32, timeout: u32) -> (m:
        MailboxTagMessage)
        ensures
            m.spec_words() == spec_execute_qpu_tag_words(num_qpus, control, noflush, timeout),
            m.well_sized(),
    {
        MailboxTagMessage::execute_qpu(num_qpus, control, noflush, timeout)
    }
}

} // verus!
