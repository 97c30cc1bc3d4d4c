use busconn::framing::{
    frame_len, padding, parse_u32, refill_len, HEADER_LEN, PREAMBLE_LEN, READ_CHUNK,
};
use busconn::ByteOrder;

#[test]
fn prefix_is_sixteen_bytes() {
    assert_eq!(HEADER_LEN, 16);
    assert_eq!(PREAMBLE_LEN, 20);
    assert_eq!(READ_CHUNK, 512);
}

#[test]
fn padding_brings_the_header_to_a_multiple_of_eight() {
    // 16 + 4 + 0 = 20, so 4 bytes of padding.
    assert_eq!(padding(0), 4);
    // 16 + 4 + 4 = 24: aligned already.
    assert_eq!(padding(4), 0);
    assert_eq!(padding(1), 3);
    assert_eq!(padding(5), 7);
    assert_eq!(padding(11), 1);
    assert_eq!(padding(12), 0);
    for len in 0u32..64 {
        let pad = padding(len);
        assert!(pad < 8);
        assert_eq!((16 + 4 + len as u64 + pad) % 8, 0);
    }
}

#[test]
fn padding_of_the_longest_header_fields() {
    // 16 + 4 + 4294967295 = 4294967315 = 3 mod 8.
    assert_eq!(padding(u32::MAX), 5);
}

#[test]
fn frame_of_an_empty_message() {
    assert_eq!(frame_len(0, 0), 24);
}

#[test]
fn frame_counts_prefix_length_fields_padding_and_body() {
    assert_eq!(frame_len(4, 10), 16 + 4 + 4 + 0 + 10);
    assert_eq!(frame_len(5, 1), 16 + 4 + 5 + 7 + 1);
    assert_eq!(frame_len(109, 32), 16 + 4 + 109 + 7 + 32);
}

#[test]
fn frame_of_the_largest_message_does_not_wrap() {
    assert_eq!(frame_len(u32::MAX, u32::MAX), 16 + 4 + 4294967295 + 5 + 4294967295);
}

#[test]
fn parse_u32_little_endian() {
    assert_eq!(parse_u32(&[1, 0, 0, 0], ByteOrder::LittleEndian), 1);
    assert_eq!(parse_u32(&[0x78, 0x56, 0x34, 0x12], ByteOrder::LittleEndian), 0x1234_5678);
    assert_eq!(parse_u32(&[0xff, 0xff, 0xff, 0xff], ByteOrder::LittleEndian), u32::MAX);
}

#[test]
fn parse_u32_big_endian() {
    assert_eq!(parse_u32(&[1, 0, 0, 0], ByteOrder::BigEndian), 0x0100_0000);
    assert_eq!(parse_u32(&[0x12, 0x34, 0x56, 0x78], ByteOrder::BigEndian), 0x1234_5678);
    assert_eq!(parse_u32(&[0, 0, 0, 0], ByteOrder::BigEndian), 0);
}

#[test]
fn parse_u32_agrees_with_the_standard_library() {
    for &value in &[0u32, 1, 255, 256, 65_535, 65_536, 0x00ff_ff00, 0xdead_beef, u32::MAX] {
        assert_eq!(parse_u32(&value.to_le_bytes(), ByteOrder::LittleEndian), value);
        assert_eq!(parse_u32(&value.to_be_bytes(), ByteOrder::BigEndian), value);
    }
}

#[test]
fn refill_asks_for_what_is_missing() {
    assert_eq!(refill_len(16, 0), 16);
    assert_eq!(refill_len(16, 10), 6);
    assert_eq!(refill_len(24, 20), 4);
}

#[test]
fn refill_asks_for_no_more_than_a_chunk() {
    assert_eq!(refill_len(1000, 20), 512);
    assert_eq!(refill_len(532, 20), 512);
    assert_eq!(refill_len(533, 20), 512);
    assert_eq!(refill_len(531, 20), 511);
    assert_eq!(refill_len(u64::MAX, 0), 512);
}

#[test]
fn refill_asks_for_nothing_when_the_buffer_is_full() {
    assert_eq!(refill_len(16, 16), 0);
    assert_eq!(refill_len(16, 17), 0);
    assert_eq!(refill_len(0, 0), 0);
}
