//! The VideoCore mailbox: property-channel messages and the exchange
//! protocol's decisions.
//!
//! A message is a 16-byte-aligned array of 32-bit words: word 0 is the
//! total size in bytes, word 1 the request/response code, then tag blocks
//! terminated by a zero tag.  The exchange itself is a blocking poll
//! against two status bits and the read register; the functions here make
//! every decision of that protocol (when the mailbox can be written, when
//! a reply is present, whether a reply belongs to a message, and what the
//! response code means), while the raw volatile register accesses stay
//! with the thin layer around the library.

use vstd::prelude::*;

verus! {

/// Fixed width of the physical display this firmware drives.
pub const SCREEN_WIDTH: u32 = 480;

/// Fixed height of the physical display this firmware drives.
pub const SCREEN_HEIGHT: u32 = 480;

/// Pixels in one physical screen (width times height).
pub const FB_BUFFER_LEN: usize = 230400;

/// Pixels in the double-height virtual buffer used for page flipping.
pub const TOTAL_FB_BUFFER_LEN: usize = 460800;

/// Request code placed in word 1 when a message is sent.
pub const MBOX_REQUEST: u32 = 0;

/// The terminating tag id of every property message.
pub const LAST_TAG: u32 = 0;

/// Mailbox status bit: the mailbox is full and must not be written.
pub const STATUS_FULL: u32 = 0x8000_0000;

/// Mailbox status bit: the mailbox is empty and holds no reply.
pub const STATUS_EMPTY: u32 = 0x4000_0000;

/// Namespace for the property-channel tag identifiers.
pub struct MailboxTag;

impl MailboxTag {
    /// Get firmware revision.
    pub const GET_VERSION: u32 = 0x00000001;

    /// Get board model.
    pub const GET_BOARD_MODEL: u32 = 0x00010001;

    /// Get board revision.
    pub const GET_BOARD_REVISION: u32 = 0x00010002;

    /// Get board MAC address.
    pub const GET_BOARD_MAC_ADDRESS: u32 = 0x00010003;

    /// Get board serial.
    pub const GET_BOARD_SERIAL: u32 = 0x00010004;

    /// Get ARM memory.
    pub const GET_ARM_MEMORY: u32 = 0x00010005;

    /// Get VC memory.
    pub const GET_VC_MEMORY: u32 = 0x00010006;

    /// Get clocks.
    pub const GET_CLOCKS: u32 = 0x00010007;

    /// Get power state.
    pub const GET_POWER_STATE: u32 = 0x00020001;

    /// Get timing.
    pub const GET_TIMING: u32 = 0x00020002;

    /// Set power state.
    pub const SET_POWER_STATE: u32 = 0x00028001;

    /// Get GPIO state.
    pub const GET_GPIO_STATE: u32 = 0x00030041;

    /// Set GPIO state.
    pub const SET_GPIO_STATE: u32 = 0x00038041;

    /// Get clock state.
    pub const GET_CLOCK_STATE: u32 = 0x00030001;

    /// Get clock rate.
    pub const GET_CLOCK_RATE: u32 = 0x00030002;

    /// Get max clock rate.
    pub const GET_MAX_CLOCK_RATE: u32 = 0x00030004;

    /// Get min clock rate.
    pub const GET_MIN_CLOCK_RATE: u32 = 0x00030007;

    /// Get turbo.
    pub const GET_TURBO: u32 = 0x00030009;

    /// Set clock state.
    pub const SET_CLOCK_STATE: u32 = 0x00038001;

    /// Set clock rate.
    pub const SET_CLOCK_RATE: u32 = 0x00038002;

    /// Set turbo.
    pub const SET_TURBO: u32 = 0x00038009;

    /// Get voltage.
    pub const GET_VOLTAGE: u32 = 0x00030003;

    /// Get max voltage.
    pub const GET_MAX_VOLTAGE: u32 = 0x00030005;

    /// Get min voltage.
    pub const GET_MIN_VOLTAGE: u32 = 0x00030008;

    /// Set voltage.
    pub const SET_VOLTAGE: u32 = 0x00038003;

    /// Get temperature.
    pub const GET_TEMPERATURE: u32 = 0x00030006;

    /// Get max temperature.
    pub const GET_MAX_TEMPERATURE: u32 = 0x0003000A;

    /// Allocate GPU memory.
    pub const ALLOCATE_MEMORY: u32 = 0x0003000C;

    /// Lock GPU memory, returning its bus address.
    pub const LOCK_MEMORY: u32 = 0x0003000D;

    /// Unlock GPU memory.
    pub const UNLOCK_MEMORY: u32 = 0x0003000E;

    /// Release GPU memory.
    pub const RELEASE_MEMORY: u32 = 0x0003000F;

    /// Execute code on the VideoCore.
    pub const EXECUTE_CODE: u32 = 0x00030010;

    /// Execute code on the QPUs.
    pub const EXECUTE_QPU: u32 = 0x00030011;

    /// Enable the QPUs.
    pub const ENABLE_QPU: u32 = 0x00030012;

    /// Get dispmanx handle.
    pub const GET_DISPMANX_HANDLE: u32 = 0x00030014;

    /// Get HDMI EDID block.
    pub const GET_EDID_BLOCK: u32 = 0x00030020;

    /// Get SD card EMMC clock.
    pub const GET_SDHOST_CLOCK: u32 = 0x00030042;

    /// Set SD card EMMC clock.
    pub const SET_SDHOST_CLOCK: u32 = 0x00038042;

    /// Allocate a framebuffer.
    pub const ALLOCATE_FRAMEBUFFER: u32 = 0x00040001;

    /// Blank the screen.
    pub const BLANK_SCREEN: u32 = 0x00040002;

    /// Get physical screen width/height.
    pub const GET_PHYSICAL_WIDTH_HEIGHT: u32 = 0x00040003;

    /// Get virtual screen width/height.
    pub const GET_VIRTUAL_WIDTH_HEIGHT: u32 = 0x00040004;

    /// Get screen colour depth.
    pub const GET_COLOUR_DEPTH: u32 = 0x00040005;

    /// Get screen pixel order.
    pub const GET_PIXEL_ORDER: u32 = 0x00040006;

    /// Get screen alpha mode.
    pub const GET_ALPHA_MODE: u32 = 0x00040007;

    /// Get screen line-to-line pitch.
    pub const GET_PITCH: u32 = 0x00040008;

    /// Get screen virtual offset.
    pub const GET_VIRTUAL_OFFSET: u32 = 0x00040009;

    /// Get screen overscan value.
    pub const GET_OVERSCAN: u32 = 0x0004000A;

    /// Get screen palette.
    pub const GET_PALETTE: u32 = 0x0004000B;

    /// Release the framebuffer.
    pub const RELEASE_FRAMEBUFFER: u32 = 0x00048001;

    /// Set physical screen width/height.
    pub const SET_PHYSICAL_WIDTH_HEIGHT: u32 = 0x00048003;

    /// Set virtual screen width/height.
    pub const SET_VIRTUAL_WIDTH_HEIGHT: u32 = 0x00048004;

    /// Set screen colour depth.
    pub const SET_COLOUR_DEPTH: u32 = 0x00048005;

    /// Set screen pixel order.
    pub const SET_PIXEL_ORDER: u32 = 0x00048006;

    /// Set screen alpha mode.
    pub const SET_ALPHA_MODE: u32 = 0x00048007;

    /// Set screen virtual offset.
    pub const SET_VIRTUAL_OFFSET: u32 = 0x00048009;

    /// Set screen overscan value.
    pub const SET_OVERSCAN: u32 = 0x0004800A;

    /// Set screen palette.
    pub const SET_PALETTE: u32 = 0x0004800B;

    /// Set screen VSync.
    pub const SET_VSYNC: u32 = 0x0004800E;

    /// Set screen backlight.
    pub const SET_BACKLIGHT: u32 = 0x0004800F;

    /// Enable VCHIQ.
    pub const VCHIQ_INIT: u32 = 0x00048010;

    /// Get command line.
    pub const GET_COMMAND_LINE: u32 = 0x00050001;

    /// Get DMA channels.
    pub const GET_DMA_CHANNELS: u32 = 0x00060001;

    /// Set cursor info.
    pub const SET_CURSOR_INFO: u32 = 0x00008010;

    /// Set cursor state.
    pub const SET_CURSOR_STATE: u32 = 0x00008011;
}

/// The mailbox channels.  Only the property channel is used by this crate,
/// but the id space is fixed by the hardware.
#[derive(Debug, Clone, Copy, PartialEq, Eq, Structural)]
pub enum Channel {
    Power,
    Fb,
    Vuart,
    Vchiq,
    Leds,
    Btns,
    Touch,
    Count,
    Prop,
}

impl Channel {
    /// The channel id carried in the low four bits of the write register.
    pub open spec fn spec_code(&self) -> u32 {
        match self {
            Channel::Power => 0u32,
            Channel::Fb => 1u32,
            Channel::Vuart => 2u32,
            Channel::Vchiq => 3u32,
            Channel::Leds => 4u32,
            Channel::Btns => 5u32,
            Channel::Touch => 6u32,
            Channel::Count => 7u32,
            Channel::Prop => 8u32,
        }
    }

    /// The channel id as a value.
    pub fn code(&self) -> (r: u32)
        ensures
            r == self.spec_code(),
    {
        match self {
            Channel::Power => 0,
            Channel::Fb => 1,
            Channel::Vuart => 2,
            Channel::Vchiq => 3,
            Channel::Leds => 4,
            Channel::Btns => 5,
            Channel::Touch => 6,
            Channel::Count => 7,
            Channel::Prop => 8,
        }
    }
}

/// Classification of word 1 of an exchanged message.
#[derive(Debug, Clone, Copy, PartialEq, Eq, Structural)]
pub enum ReqResp {
    ResponseSuccessful,
    ResponseError,
    Request,
}

/// What a request/response word means.  Total on all 32-bit inputs: zero is
/// still a request, `0x80000000` a successful response, anything else an
/// error response.
pub open spec fn spec_reqresp_of(val: u32) -> ReqResp {
    if val == 0x00000000 {
        ReqResp::Request
    } else if val == 0x80000000 {
        ReqResp::ResponseSuccessful
    } else {
        ReqResp::ResponseError
    }
}

impl From<u32> for ReqResp {
    /// Decode a request/response word.
    fn from(val: u32) -> (r: Self)
        ensures
            r == spec_reqresp_of(val),
    {
        match val {
            0x00000000 => ReqResp::Request,
            0x80000000 => ReqResp::ResponseSuccessful,
            _ => ReqResp::ResponseError,
        }
    }
}

impl vstd::std_specs::convert::FromSpecImpl<u32> for ReqResp {
    open spec fn obeys_from_spec() -> bool {
        true
    }

    open spec fn from_spec(val: u32) -> Self {
        spec_reqresp_of(val)
    }
}

impl ReqResp {
    /// The wire value of this classification.
    pub fn code(&self) -> (r: u32)
        ensures
            *self is Request ==> r == 0x00000000u32,
            *self is ResponseSuccessful ==> r == 0x80000000u32,
            *self is ResponseError ==> r == 0x80000001u32,
    {
        match self {
            ReqResp::Request => 0x00000000,
            ReqResp::ResponseSuccessful => 0x80000000,
            ReqResp::ResponseError => 0x80000001,
        }
    }
}

/// Failures surfaced by the mailbox protocol and its callers.
#[derive(Debug, Clone, PartialEq, Eq)]
pub enum MailboxError {
    /// The exchange did not yield a successful response.
    SendMessage(StillOrError),
    /// Setting the virtual framebuffer offset failed.
    SetVirtFB,
    /// Setting the clock speed failed.
    SetClockSpeed,
    /// Querying the maximum clock speed failed.
    GetMaxSpeed,
    /// Querying the board serial failed.
    QuerySerial,
    /// Framebuffer setup failed; carries the address word that came back.
    LfbInit { addr: u32 },
}

/// Why an exchange failed: the buffer still holds a request (the firmware
/// never answered), or the firmware answered with an error code.
#[derive(Debug, Clone, Copy, PartialEq, Eq, Structural)]
pub enum StillOrError {
    StillRequest,
    ResponseError,
}

impl MailboxError {
    /// A human-readable description of the failure.
    pub fn message(&self) -> (r: &'static str)
        ensures
            *self == MailboxError::SendMessage(StillOrError::StillRequest) ==> r@
                == "Failed to send mailbox message: Message still contains a request?!"@,
            *self == MailboxError::SendMessage(StillOrError::ResponseError) ==> r@
                == "Failed to send mailbox message: Something failed, the response is an error"@,
    {
        match self {
            MailboxError::SendMessage(StillOrError::StillRequest) => {
                "Failed to send mailbox message: Message still contains a request?!"
            },
            MailboxError::SendMessage(StillOrError::ResponseError) => {
                "Failed to send mailbox message: Something failed, the response is an error"
            },
            MailboxError::SetVirtFB => {
                "Failed to sending message to set virtual framebuffer offset."
            },
            MailboxError::SetClockSpeed => "Failed to sending message to set clock speed.",
            MailboxError::GetMaxSpeed => "Failed to get max clock speed",
            MailboxError::QuerySerial => "Failed to sending message to query the board serial.",
            MailboxError::LfbInit { addr: _ } => "Something went wrong setting up lfb.",
        }
    }
}

/// A property-channel message buffer: a word array exchanged with the
/// firmware in place.
#[derive(Debug, Clone)]
pub struct Message {
    words: Vec<u32>,
}

impl View for Message {
    type V = Seq<u32>;

    closed spec fn view(&self) -> Seq<u32> {
        self.words@
    }
}

impl Message {
    /// Wrap a word array as a message.
    pub fn new(message: Vec<u32>) -> (m: Message)
        ensures
            m@ == message@,
    {
        Message { words: message }
    }

    /// How many words the message holds.
    pub fn len(&self) -> (n: usize)
        ensures
            n == self@.len(),
    {
        self.words.len()
    }

    /// The word at `idx`.
    pub fn get_idx(&self, idx: usize) -> (w: u32)
        requires
            idx < self@.len(),
        ensures
            w == self@[idx as int],
    {
        self.words[idx]
    }

    /// Overwrite the word at `idx`; this is how an emulated or readback
    /// exchange deposits response words into the buffer.
    pub fn set_idx(&mut self, idx: usize, val: u32)
        requires
            idx < old(self)@.len(),
        ensures
            final(self)@ == old(self)@.update(idx as int, val),
    {
        self.words.set(idx, val);
    }

    /// The words of the message, for placing the buffer in memory.
    pub fn words(&self) -> (w: &Vec<u32>)
        ensures
            w@ == self@,
    {
        &self.words
    }

    /// The value for the mailbox write register once this message's buffer
    /// sits at `buffer_addr`: the address with its low four bits replaced
    /// by the channel id.
    pub fn to_mail(&self, buffer_addr: u32, channel: &Channel) -> (r: u32)
        ensures
            r == (buffer_addr & 0xFFFF_FFF0u32) | channel.spec_code(),
    {
        (buffer_addr & 0xFFFF_FFF0u32) | channel.code()
    }

    /// Classify word 1 after an exchange.
    pub fn response_status(&self) -> (r: ReqResp)
        requires
            self@.len() >= 2,
        ensures
            r == spec_reqresp_of(self@[1]),
    {
        ReqResp::from(self.words[1])
    }

    /// Whether the firmware reported success.
    pub fn is_response_successfull(&self) -> (r: bool)
        requires
            self@.len() >= 2,
        ensures
            r == (spec_reqresp_of(self@[1]) is ResponseSuccessful),
    {
        let status = self.response_status();
        match status {
            ReqResp::ResponseSuccessful => true,
            _ => false,
        }
    }
}

/// A message's size field is consistent: word 0 carries the total buffer
/// size in bytes, four per word.
pub open spec fn spec_well_sized(words: Seq<u32>) -> bool {
    words.len() > 0 && words[0] == 4 * words.len()
}

/// The words of the framebuffer-setup message: physical and virtual
/// dimensions, virtual offset, 32-bit depth, RGB pixel order, buffer
/// allocation (the address comes back at word 28), and the pitch query.
pub open spec fn spec_lfb_words() -> Seq<u32> {
    seq![
        140u32,
        MBOX_REQUEST,
        MailboxTag::SET_PHYSICAL_WIDTH_HEIGHT,
        8u32,
        8u32,
        SCREEN_WIDTH,
        SCREEN_HEIGHT,
        MailboxTag::SET_VIRTUAL_WIDTH_HEIGHT,
        8u32,
        8u32,
        SCREEN_WIDTH,
        960u32,
        MailboxTag::SET_VIRTUAL_OFFSET,
        8u32,
        8u32,
        0u32,
        0u32,
        MailboxTag::SET_COLOUR_DEPTH,
        4u32,
        4u32,
        32u32,
        MailboxTag::SET_PIXEL_ORDER,
        4u32,
        4u32,
        1u32,
        MailboxTag::ALLOCATE_FRAMEBUFFER,
        8u32,
        8u32,
        4096u32,
        0u32,
        MailboxTag::GET_PITCH,
        4u32,
        4u32,
        0u32,
        LAST_TAG,
    ]
}

/// Build the framebuffer-setup message (35 words).  The virtual height is
/// twice the physical height for page flipping.
pub fn lfb_message() -> (m: Message)
    ensures
        m@ == spec_lfb_words(),
        spec_well_sized(m@),
{
    let mut ret: Vec<u32> = Vec::new();
    ret.push(140);
    ret.push(MBOX_REQUEST);
    ret.push(MailboxTag::SET_PHYSICAL_WIDTH_HEIGHT);
    ret.push(8);
    ret.push(8);
    ret.push(SCREEN_WIDTH);
    ret.push(SCREEN_HEIGHT);
    ret.push(MailboxTag::SET_VIRTUAL_WIDTH_HEIGHT);
    ret.push(8);
    ret.push(8);
    ret.push(SCREEN_WIDTH);
    ret.push(960);
    ret.push(MailboxTag::SET_VIRTUAL_OFFSET);
    ret.push(8);
    ret.push(8);
    ret.push(0);
    ret.push(0);
    ret.push(MailboxTag::SET_COLOUR_DEPTH);
    ret.push(4);
    ret.push(4);
    ret.push(32);
    ret.push(MailboxTag::SET_PIXEL_ORDER);
    ret.push(4);
    ret.push(4);
    ret.push(1);
    ret.push(MailboxTag::ALLOCATE_FRAMEBUFFER);
    ret.push(8);
    ret.push(8);
    ret.push(4096);
    ret.push(0);
    ret.push(MailboxTag::GET_PITCH);
    ret.push(4);
    ret.push(4);
    ret.push(0);
    ret.push(LAST_TAG);
    proof {
        assert(ret@ =~= spec_lfb_words());
    }
    Message::new(ret)
}

/// The words of the set-virtual-offset message: x stays zero, y is the
/// requested offset.
pub open spec fn spec_set_virtual_offset_words(offset_y: u32) -> Seq<u32> {
    seq![32u32, MBOX_REQUEST, MailboxTag::SET_VIRTUAL_OFFSET, 8u32, 0u32, 0u32, offset_y, LAST_TAG]
}

/// Build the set-virtual-framebuffer-offset message (8 words).
pub fn get_set_virtual_framebuffer_offset_message(offset_y: u32) -> (m: Message)
    ensures
        m@ == spec_set_virtual_offset_words(offset_y),
        spec_well_sized(m@),
{
    let mut ret: Vec<u32> = Vec::new();
    ret.push(32);
    ret.push(MBOX_REQUEST);
    ret.push(MailboxTag::SET_VIRTUAL_OFFSET);
    ret.push(8);
    ret.push(0);
    ret.push(0);
    ret.push(offset_y);
    ret.push(LAST_TAG);
    proof {
        assert(ret@ =~= spec_set_virtual_offset_words(offset_y));
    }
    Message::new(ret)
}

/// Build the set-virtual-offset message used by the offset self-test;
/// identical to the plain one, kept apart so the test exchange can read
/// the updated x and y back out of words 5 and 6.
pub fn get_test_virtual_fb_offset_message(offset_y: u32) -> (m: Message)
    ensures
        m@ == spec_set_virtual_offset_words(offset_y),
        spec_well_sized(m@),
{
    get_set_virtual_framebuffer_offset_message(offset_y)
}

/// The words of the get-clock-rate query for the ARM core (clock id
/// `0x3`); the rate comes back at word 6.
pub open spec fn spec_current_clock_rate_words() -> Seq<u32> {
    seq![36u32, MBOX_REQUEST, MailboxTag::GET_CLOCK_RATE, 8u32, 8u32, 0x3u32, 0u32, LAST_TAG, 0u32]
}

/// Build the get-clock-rate query for the ARM core (9 words).
pub fn get_current_clock_rate_message() -> (m: Message)
    ensures
        m@ == spec_current_clock_rate_words(),
        spec_well_sized(m@),
{
    let mut ret: Vec<u32> = Vec::new();
    ret.push(36);
    ret.push(MBOX_REQUEST);
    ret.push(MailboxTag::GET_CLOCK_RATE);
    ret.push(8);
    ret.push(8);
    ret.push(0x3);
    ret.push(0);
    ret.push(LAST_TAG);
    ret.push(0);
    proof {
        assert(ret@ =~= spec_current_clock_rate_words());
    }
    Message::new(ret)
}

/// The words of the set-clock-rate message for the ARM core.
pub open spec fn spec_set_clock_rate_words(new_clock_hz: u32) -> Seq<u32> {
    seq![
        40u32,
        MBOX_REQUEST,
        MailboxTag::SET_CLOCK_RATE,
        8u32,
        8u32,
        0x3u32,
        new_clock_hz,
        LAST_TAG,
        0u32,
        0u32,
    ]
}

/// Build the set-clock-rate message for the ARM core (10 words); the
/// granted rate comes back at word 6.
pub fn get_set_clock_rate_message(new_clock_hz: u32) -> (m: Message)
    ensures
        m@ == spec_set_clock_rate_words(new_clock_hz),
        spec_well_sized(m@),
{
    let mut ret: Vec<u32> = Vec::new();
    ret.push(40);
    ret.push(MBOX_REQUEST);
    ret.push(MailboxTag::SET_CLOCK_RATE);
    ret.push(8);
    ret.push(8);
    ret.push(0x3);
    ret.push(new_clock_hz);
    ret.push(LAST_TAG);
    ret.push(0);
    ret.push(0);
    proof {
        assert(ret@ =~= spec_set_clock_rate_words(new_clock_hz));
    }
    Message::new(ret)
}

/// The words of the get-max-clock-rate query for the ARM core.
pub open spec fn spec_max_clock_rate_words() -> Seq<u32> {
    seq![
        36u32,
        MBOX_REQUEST,
        MailboxTag::GET_MAX_CLOCK_RATE,
        8u32,
        8u32,
        0x3u32,
        0u32,
        LAST_TAG,
        0u32,
    ]
}

/// Build the get-max-clock-rate query for the ARM core (9 words); the
/// rate comes back at word 6.
pub fn max_clock_rate_message() -> (m: Message)
    ensures
        m@ == spec_max_clock_rate_words(),
        spec_well_sized(m@),
{
    let mut ret: Vec<u32> = Vec::new();
    ret.push(36);
    ret.push(MBOX_REQUEST);
    ret.push(MailboxTag::GET_MAX_CLOCK_RATE);
    ret.push(8);
    ret.push(8);
    ret.push(0x3);
    ret.push(0);
    ret.push(LAST_TAG);
    ret.push(0);
    proof {
        assert(ret@ =~= spec_max_clock_rate_words());
    }
    Message::new(ret)
}

/// The words of the board-serial query; the serial's low and high words
/// come back at words 4 and 5.
pub open spec fn spec_board_serial_words() -> Seq<u32> {
    seq![36u32, MBOX_REQUEST, MailboxTag::GET_BOARD_SERIAL, 8u32, 8u32, 8u32, 0u32, LAST_TAG, 0u32]
}

/// Build the board-serial query (9 words).
pub fn board_serial_message() -> (m: Message)
    ensures
        m@ == spec_board_serial_words(),
        spec_well_sized(m@),
{
    let mut ret: Vec<u32> = Vec::new();
    ret.push(36);
    ret.push(MBOX_REQUEST);
    ret.push(MailboxTag::GET_BOARD_SERIAL);
    ret.push(8);
    ret.push(8);
    ret.push(8);
    ret.push(0);
    ret.push(LAST_TAG);
    ret.push(0);
    proof {
        assert(ret@ =~= spec_board_serial_words());
    }
    Message::new(ret)
}

/// Whether the status register says the mailbox is full, so that nothing
/// may be written yet.
pub fn mailbox_is_full(status: u32) -> (r: bool)
    ensures
        r == (status & STATUS_FULL == STATUS_FULL),
{
    status & STATUS_FULL == STATUS_FULL
}

/// Whether the status register says the mailbox is empty, so that no reply
/// is waiting.
pub fn mailbox_is_empty(status: u32) -> (r: bool)
    ensures
        r == (status & STATUS_EMPTY == STATUS_EMPTY),
{
    status & STATUS_EMPTY == STATUS_EMPTY
}

/// Whether a value read from the mailbox is the reply to the message that
/// was posted as `mail`; replies for other channels or buffers are skipped
/// and polling continues.
pub fn is_reply_for(read_value: u32, mail: u32) -> (r: bool)
    ensures
        r == (read_value == mail),
{
    read_value == mail
}

/// The final decision of an exchange, taken on word 1 once the reply for
/// this buffer arrived: success exactly when the firmware wrote the
/// success code; a buffer still holding a request or an error code each
/// surface as their own fault.
pub fn classify_exchange(status_word: u32) -> (r: Result<(), MailboxError>)
    ensures
        r is Ok <==> spec_reqresp_of(status_word) is ResponseSuccessful,
        spec_reqresp_of(status_word) is Request ==> r == Result::<(), MailboxError>::Err(
            MailboxError::SendMessage(StillOrError::StillRequest),
        ),
        spec_reqresp_of(status_word) is ResponseError ==> r == Result::<(), MailboxError>::Err(
            MailboxError::SendMessage(StillOrError::ResponseError),
        ),
{
    match ReqResp::from(status_word) {
        ReqResp::ResponseSuccessful => Ok(()),
        ReqResp::Request => Err(MailboxError::SendMessage(StillOrError::StillRequest)),
        ReqResp::ResponseError => Err(MailboxError::SendMessage(StillOrError::ResponseError)),
    }
}

/// Combine the two response words of the board-serial query into the
/// 64-bit serial number: the word at index 4 is the low half, the word at
/// index 5 the high half.
pub fn serial_from_words(lo: u32, hi: u32) -> (r: u64)
    ensures
        r == (hi as u64) << 32u64 | (lo as u64),
        r == lo + (hi as u64) * 0x1_0000_0000,
{
    let r: u64 = (hi as u64) << 32u64 | (lo as u64);
    proof {
        let h = hi as u64;
        let l = lo as u64;
        assert(l < 0x1_0000_0000 && h < 0x1_0000_0000 ==> (h << 32u64 | l) == l + h
            * 0x1_0000_0000) by (bit_vector);
    }
    r
}

/// The serial number in an exchanged board-serial buffer: its two halves
/// sit at words 4 (low) and 5 (high).  Any outcome but success is a
/// serial-query failure.
pub fn query_board_serial(message: &Message) -> (r: Result<u64, MailboxError>)
    requires
        message@.len() >= 6,
    ensures
        r is Ok <==> spec_reqresp_of(message@[1]) is ResponseSuccessful,
        r is Ok ==> r->Ok_0 == message@[4] + (message@[5] as u64) * 0x1_0000_0000,
        r is Err ==> r->Err_0 == MailboxError::QuerySerial,
{
    if !message.is_response_successfull() {
        return Err(MailboxError::QuerySerial);
    }
    Ok(serial_from_words(message.get_idx(4), message.get_idx(5)))
}

/// The rate in an exchanged clock-rate buffer: the value sits at word 6.
/// Any outcome but success is a max-speed-query failure.
pub fn max_clock_speed(message: &Message) -> (r: Result<u32, MailboxError>)
    requires
        message@.len() >= 7,
    ensures
        r is Ok <==> spec_reqresp_of(message@[1]) is ResponseSuccessful,
        r is Ok ==> r->Ok_0 == message@[6],
        r is Err ==> r->Err_0 == MailboxError::GetMaxSpeed,
{
    if !message.is_response_successfull() {
        return Err(MailboxError::GetMaxSpeed);
    }
    Ok(message.get_idx(6))
}

/// The firmware's answer to the framebuffer-setup message: the allocated
/// buffer's address sits at word 28.  A zero address means the allocation
/// failed; otherwise the ARM-visible address is the word with the alias
/// bits cleared.
pub fn lfb_framebuffer_addr(message: &Message) -> (r: Result<u32, MailboxError>)
    requires
        message@.len() == 35,
    ensures
        message@[28] == 0 ==> r == Result::<u32, MailboxError>::Err(
            MailboxError::LfbInit { addr: 0 },
        ),
        message@[28] != 0 ==> r == Result::<u32, MailboxError>::Ok(
            message@[28] & 0x3FFF_FFFFu32,
        ),
{
    let addr = message.get_idx(28);
    if addr == 0 {
        return Err(MailboxError::LfbInit { addr });
    }
    Ok(addr & 0x3FFF_FFFF)
}

} // verus!
