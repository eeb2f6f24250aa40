use vc4::v3d::buffer::Writer;

#[test]
fn writer_starts_empty() {
    let w = Writer::new(0xC000_1000, 64);
    assert_eq!(w.bytes_written(), 0);
    assert_eq!(w.base_addr(), 0x0000_1000);
    assert!(w.data().is_empty());
}

#[test]
fn writer_monotonic_offsets() {
    // After n writes the cursor equals the sum of the slice lengths and
    // each slice sits at the offset where the cursor stood before it.
    let mut w = Writer::new(0xC000_0000, 64);
    let slices: [&[u8]; 4] = [&[1, 2, 3], &[4], &[5, 6, 7, 8, 9], &[10, 11]];
    let mut expected: Vec<u8> = Vec::new();
    let mut offsets: Vec<usize> = Vec::new();
    for s in slices.iter() {
        offsets.push(w.bytes_written());
        w.write(s);
        expected.extend_from_slice(s);
        assert_eq!(w.bytes_written(), expected.len());
    }
    assert_eq!(w.data(), &expected);
    for (i, s) in slices.iter().enumerate() {
        let at = offsets[i];
        assert_eq!(&w.data()[at..at + s.len()], *s);
    }
}

#[test]
fn writer_typed_helpers_are_little_endian() {
    let mut w = Writer::new(0xC000_0000, 16);
    w.write_u8(0x11);
    w.write_u16(0x2233);
    w.write_u32(0x4455_6677);
    assert_eq!(w.bytes_written(), 7);
    assert_eq!(w.data().as_slice(), &[0x11, 0x33, 0x22, 0x77, 0x66, 0x55, 0x44]);
}

#[test]
fn writer_two_block_scenario() {
    // Two eight-byte writes: sixteen bytes written, the buffer holding
    // their concatenation.
    let mut w = Writer::new(0xC000_1000, 4096);
    let first = [1u8, 2, 3, 4, 5, 6, 7, 8];
    let second = [9u8, 10, 11, 12, 13, 14, 15, 16];
    w.write(&first);
    w.write(&second);
    assert_eq!(w.bytes_written(), 16);
    let mut both = first.to_vec();
    both.extend_from_slice(&second);
    assert_eq!(&w.data()[0..16], both.as_slice());
}

#[test]
fn writer_accepts_empty_slices() {
    let mut w = Writer::new(0xC000_0000, 0);
    w.write(&[]);
    assert_eq!(w.bytes_written(), 0);
    let mut w = Writer::new(0xC000_0000, 2);
    w.write(&[7]);
    w.write(&[]);
    w.write(&[8]);
    assert_eq!(w.bytes_written(), 2);
    assert_eq!(w.data().as_slice(), &[7, 8]);
}
