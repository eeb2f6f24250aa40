use vc4::mailbox::{
    board_serial_message, classify_exchange, get_current_clock_rate_message,
    get_set_clock_rate_message, get_set_virtual_framebuffer_offset_message,
    get_test_virtual_fb_offset_message, is_reply_for, lfb_framebuffer_addr, lfb_message,
    mailbox_is_empty, mailbox_is_full, max_clock_rate_message, serial_from_words, Channel,
    MailboxError, Message, ReqResp, StillOrError,
};

fn assert_well_sized(m: &Message) {
    assert_eq!(m.get_idx(0) as usize, 4 * m.len());
}

#[test]
fn message_size_fields_match_word_counts() {
    assert_well_sized(&lfb_message());
    assert_well_sized(&get_set_virtual_framebuffer_offset_message(480));
    assert_well_sized(&get_test_virtual_fb_offset_message(0));
    assert_well_sized(&get_current_clock_rate_message());
    assert_well_sized(&get_set_clock_rate_message(1_400_000_000));
    assert_well_sized(&max_clock_rate_message());
    assert_well_sized(&board_serial_message());
}

#[test]
fn lfb_message_layout() {
    let m = lfb_message();
    assert_eq!(m.len(), 35);
    assert_eq!(m.get_idx(0), 140);
    assert_eq!(m.get_idx(2), 0x0004_8003); // set physical width/height
    assert_eq!(m.get_idx(5), 480);
    assert_eq!(m.get_idx(6), 480);
    assert_eq!(m.get_idx(11), 960); // double-height virtual buffer
    assert_eq!(m.get_idx(20), 32); // depth
    assert_eq!(m.get_idx(25), 0x0004_0001); // allocate buffer
    assert_eq!(m.get_idx(28), 4096);
    assert_eq!(m.get_idx(34), 0); // terminator
}

#[test]
fn response_decode_is_total() {
    assert_eq!(ReqResp::from(0x0000_0000), ReqResp::Request);
    assert_eq!(ReqResp::from(0x8000_0000), ReqResp::ResponseSuccessful);
    assert_eq!(ReqResp::from(0x8000_0001), ReqResp::ResponseError);
    assert_eq!(ReqResp::from(1), ReqResp::ResponseError);
    assert_eq!(ReqResp::from(0xFFFF_FFFF), ReqResp::ResponseError);
}

#[test]
fn message_response_helpers() {
    let mut m = get_current_clock_rate_message();
    assert_eq!(m.response_status(), ReqResp::Request);
    assert!(!m.is_response_successfull());
    m.set_idx(1, 0x8000_0000);
    assert_eq!(m.response_status(), ReqResp::ResponseSuccessful);
    assert!(m.is_response_successfull());
    m.set_idx(1, 0x8000_0001);
    assert_eq!(m.response_status(), ReqResp::ResponseError);
    assert!(!m.is_response_successfull());
}

#[test]
fn classify_exchange_faults() {
    assert!(classify_exchange(0x8000_0000).is_ok());
    assert_eq!(
        classify_exchange(0x0000_0000),
        Err(MailboxError::SendMessage(StillOrError::StillRequest))
    );
    assert_eq!(
        classify_exchange(0x8000_0001),
        Err(MailboxError::SendMessage(StillOrError::ResponseError))
    );
}

#[test]
fn mailbox_status_bits() {
    assert!(mailbox_is_full(0x8000_0000));
    assert!(!mailbox_is_full(0x4000_0000));
    assert!(mailbox_is_empty(0x4000_0000));
    assert!(!mailbox_is_empty(0x8000_0000));
    assert!(mailbox_is_full(0xC000_0000) && mailbox_is_empty(0xC000_0000));
}

#[test]
fn reply_matching() {
    assert!(is_reply_for(0x1FF0_0008, 0x1FF0_0008));
    assert!(!is_reply_for(0x1FF0_0001, 0x1FF0_0008));
}

#[test]
fn to_mail_tags_channel_in_low_bits() {
    let m = board_serial_message();
    assert_eq!(m.to_mail(0x1FF0_0120, &Channel::Prop), 0x1FF0_0128);
    // Low four bits of the buffer address are replaced, not or-ed over.
    assert_eq!(m.to_mail(0x1FF0_012F, &Channel::Prop), 0x1FF0_0128);
    assert_eq!(m.to_mail(0x1FF0_0120, &Channel::Fb), 0x1FF0_0121);
}

#[test]
fn channel_codes() {
    assert_eq!(Channel::Power.code(), 0);
    assert_eq!(Channel::Prop.code(), 8);
    assert_eq!(ReqResp::ResponseSuccessful.code(), 0x8000_0000);
    assert_eq!(ReqResp::ResponseError.code(), 0x8000_0001);
    assert_eq!(ReqResp::Request.code(), 0);
}

#[test]
fn serial_combines_low_and_high_words() {
    assert_eq!(serial_from_words(0xAABB_CCDD, 0x1122_3344), 0x1122_3344_AABB_CCDDu64);
    assert_eq!(serial_from_words(7, 0), 7);
    assert_eq!(serial_from_words(0, 1), 0x1_0000_0000);
}

#[test]
fn lfb_response_parsing() {
    let mut m = lfb_message();
    // Firmware clearing the address word to zero means setup failed.
    m.set_idx(28, 0);
    assert_eq!(lfb_framebuffer_addr(&m), Err(MailboxError::LfbInit { addr: 0 }));
    // Firmware deposits the GPU-space buffer address at word 28.
    m.set_idx(28, 0xDE50_0000);
    assert_eq!(lfb_framebuffer_addr(&m), Ok(0x1E50_0000));
}

#[test]
fn set_virtual_offset_message_layout() {
    let m = get_set_virtual_framebuffer_offset_message(480);
    assert_eq!(m.len(), 8);
    assert_eq!(m.get_idx(2), 0x0004_8009);
    assert_eq!(m.get_idx(5), 0); // x offset stays zero
    assert_eq!(m.get_idx(6), 480); // y offset
    assert_eq!(m.get_idx(7), 0);
}

#[test]
fn clock_rate_message_layouts() {
    let m = get_current_clock_rate_message();
    assert_eq!(m.len(), 9);
    assert_eq!(m.get_idx(2), 0x0003_0002);
    assert_eq!(m.get_idx(5), 0x3); // ARM clock id

    let m = get_set_clock_rate_message(600_000_000);
    assert_eq!(m.len(), 10);
    assert_eq!(m.get_idx(2), 0x0003_8002);
    assert_eq!(m.get_idx(6), 600_000_000);

    let m = max_clock_rate_message();
    assert_eq!(m.get_idx(2), 0x0003_0004);
}

#[test]
fn board_serial_response_parsing() {
    let mut m = board_serial_message();
    assert_eq!(
        vc4::mailbox::query_board_serial(&m),
        Err(MailboxError::QuerySerial)
    );
    m.set_idx(1, 0x8000_0000);
    m.set_idx(4, 0xAABB_CCDD);
    m.set_idx(5, 0x0011_2233);
    assert_eq!(
        vc4::mailbox::query_board_serial(&m),
        Ok(0x0011_2233_AABB_CCDDu64)
    );
}

#[test]
fn max_clock_speed_response_parsing() {
    let mut m = max_clock_rate_message();
    assert_eq!(vc4::mailbox::max_clock_speed(&m), Err(MailboxError::GetMaxSpeed));
    m.set_idx(1, 0x8000_0000);
    m.set_idx(6, 500_000_000);
    assert_eq!(vc4::mailbox::max_clock_speed(&m), Ok(500_000_000));
}
