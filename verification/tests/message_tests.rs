use vc4::v3d::message::{
    enable_qpu_message, execute_code, execute_qpu, get_current_gpu_clock_rate_message,
    max_gpu_clock_rate_message, mem_alloc, mem_free, mem_lock, mem_unlock, MailboxMessage,
    MailboxResponse, MailboxTagMessage,
};

#[test]
fn response_decode_is_total_for_tag_messages() {
    assert_eq!(MailboxResponse::from(0x8000_0000), MailboxResponse::Success);
    assert_eq!(MailboxResponse::from(0x0000_0000), MailboxResponse::Request);
    assert_eq!(MailboxResponse::from(0x8000_0001), MailboxResponse::Error);
    assert_eq!(MailboxResponse::from(1), MailboxResponse::Error);
    assert_eq!(MailboxResponse::from(0xFFFF_FFFF), MailboxResponse::Error);
}

#[test]
fn mem_alloc_message_layout() {
    let m = mem_alloc(0x10000, 0x1000, 0xC);
    assert_eq!(m.len(), 10);
    assert_eq!(m.get_idx(0), 40); // ten words, four bytes each
    assert_eq!(m.get_idx(1), 0);
    assert_eq!(m.get_idx(2), 0x0003_000C);
    assert_eq!(m.get_idx(3), 12);
    assert_eq!(m.get_idx(4), 12);
    assert_eq!(m.get_idx(5), 0x10000);
    assert_eq!(m.get_idx(6), 0x1000);
    assert_eq!(m.get_idx(7), 0xC);
    assert_eq!(m.get_idx(8), 0);
    assert_eq!(m.get_idx(9), 0);
}

#[test]
fn mem_management_message_layouts() {
    let m = mem_free(0x77);
    assert_eq!(m.len(), 7);
    assert_eq!(m.get_idx(0), 28);
    assert_eq!(m.get_idx(2), 0x0003_000F);
    assert_eq!(m.get_idx(5), 0x77);

    let m = mem_lock(0x77);
    assert_eq!(m.len(), 8);
    assert_eq!(m.get_idx(0), 32);
    assert_eq!(m.get_idx(2), 0x0003_000D);
    assert_eq!(m.get_idx(5), 0x77);
    assert_eq!(m.get_idx(6), 0);

    let m = mem_unlock(0x77);
    assert_eq!(m.len(), 7);
    assert_eq!(m.get_idx(0), 28);
    assert_eq!(m.get_idx(2), 0x0003_000E);
}

#[test]
fn execute_message_layouts() {
    let m = execute_code(0x100, 1, 2, 3, 4, 5, 6);
    assert_eq!(m.len(), 13);
    assert_eq!(m.get_idx(0), 52);
    assert_eq!(m.get_idx(2), 0x0003_0010);
    assert_eq!(m.get_idx(3), 28);
    assert_eq!(m.get_idx(5), 0x100);
    assert_eq!(m.get_idx(11), 6);
    assert_eq!(m.get_idx(12), 0);

    let m = execute_qpu(4, 1, 0, 5000);
    assert_eq!(m.len(), 10);
    assert_eq!(m.get_idx(0), 40);
    assert_eq!(m.get_idx(2), 0x0003_0011);
    assert_eq!(m.get_idx(5), 4);
    assert_eq!(m.get_idx(8), 5000);
}

#[test]
fn gpu_clock_message_layouts() {
    let m = get_current_gpu_clock_rate_message();
    assert_eq!(m.len(), 9);
    assert_eq!(m.get_idx(0), 36);
    assert_eq!(m.get_idx(2), 0x0003_0002);
    assert_eq!(m.get_idx(5), 0x5); // the V3D clock id

    let m = max_gpu_clock_rate_message();
    assert_eq!(m.get_idx(2), 0x0003_0004);
    assert_eq!(m.get_idx(5), 0x5);
}

#[test]
fn enable_qpu_message_layout() {
    let m = enable_qpu_message();
    assert_eq!(m.len(), 13);
    assert_eq!(m.get_idx(0), 52);
    assert_eq!(m.get_idx(2), 0x0003_0012);
    assert_eq!(m.get_idx(3), 4);
    assert_eq!(m.get_idx(4), 4);
    assert_eq!(m.get_idx(5), 1);
    for i in 6..13 {
        assert_eq!(m.get_idx(i), 0);
    }
}

#[test]
fn tag_message_word_access() {
    let m = MailboxTagMessage::mem_alloc(64, 16, 0x10);
    assert_eq!(m.read_word(0), Some(40));
    assert_eq!(m.read_word(1), Some(0));
    assert_eq!(m.read_word(2), Some(0x0003_000C));
    assert_eq!(m.read_word(3), Some(12));
    assert_eq!(m.read_word(5), Some(64));
    assert_eq!(m.read_word(6), Some(16));
    assert_eq!(m.read_word(7), Some(0x10));
    assert_eq!(m.read_word(9), Some(0));
    assert_eq!(m.read_word(10), None);
}

#[test]
fn tag_message_mailbox_address() {
    let m = MailboxTagMessage::mem_lock(1);
    // The property channel id replaces the low four bits.
    assert_eq!(m.to_mailbox_addr(0x1FF0_0120), 0x1FF0_0128);
    assert_eq!(m.to_mailbox_addr(0x1FF0_012F), 0x1FF0_0128);
}

#[test]
fn tag_message_builders_match_flat_builders() {
    let flat = mem_alloc(256, 16, 4);
    let tag = MailboxMessage::mem_alloc(256, 16, 4);
    let mut words = vec![tag.size, tag.status, tag.tag];
    words.extend_from_slice(&tag.payload);
    let flat_words: Vec<u32> = (0..flat.len()).map(|i| flat.get_idx(i)).collect();
    assert_eq!(words, flat_words);

    let flat = mem_unlock(9);
    let tag = MailboxMessage::mem_unlock(9);
    let mut words = vec![tag.size, tag.status, tag.tag];
    words.extend_from_slice(&tag.payload);
    let flat_words: Vec<u32> = (0..flat.len()).map(|i| flat.get_idx(i)).collect();
    assert_eq!(words, flat_words);

    let tag = MailboxMessage::mem_free(3);
    assert_eq!(tag.tag, 0x0003_000F);
    assert_eq!(tag.size, 28);
    let tag = MailboxMessage::execute_code(1, 2, 3, 4, 5, 6, 7);
    assert_eq!(tag.tag, 0x0003_0010);
    let tag = MailboxMessage::execute_qpu(1, 2, 3, 4);
    assert_eq!(tag.tag, 0x0003_0012);
    assert_eq!(tag.size, 40);
}

#[test]
fn tag_message_response_classification() {
    let mut m = MailboxTagMessage::mem_alloc(64, 16, 0);
    assert_eq!(m.response(), MailboxResponse::Request);
    m.status = 0x8000_0000;
    assert_eq!(m.response(), MailboxResponse::Success);
    m.status = 0x8000_0001;
    assert_eq!(m.response(), MailboxResponse::Error);
}
