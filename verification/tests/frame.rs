use bili_live::proto::decode_inflated;
use bili_live::proto::looks_like_frame;
use bili_live::proto::Proto;
use bili_live::proto::ProtoError;
use bili_live::proto::HEADER_LENGTH;
use bili_live::proto::MAX_BODY_SIZE;
use bili_live::proto::MAX_NESTING;
use std::io::Write;

fn deflate(data: &[u8]) -> Vec<u8> {
    let mut encoder =
        flate2::write::ZlibEncoder::new(Vec::new(), flate2::Compression::default());
    encoder.write_all(data).unwrap();
    encoder.finish().unwrap()
}

fn frame(ver: u16, op: u32, seq: u32, body: &[u8]) -> Vec<u8> {
    let mut p = Proto::new();
    p.ver = ver;
    p.op = op;
    p.seq = seq;
    p.body = body.to_vec();
    p.pack()
}

fn header(packet_len: u32, header_len: u16) -> Vec<u8> {
    let mut buf = Vec::new();
    buf.extend_from_slice(&packet_len.to_be_bytes());
    buf.extend_from_slice(&header_len.to_be_bytes());
    buf.extend_from_slice(&[0, 0, 0, 0, 0, 5, 0, 0, 0, 9]);
    buf
}

#[test]
fn new_frame_is_empty_with_header_length_16() {
    let p = Proto::new();
    assert_eq!(p.packet_len, 0);
    assert_eq!(p.header_len, 16);
    assert_eq!(p.ver, 0);
    assert_eq!(p.op, 0);
    assert_eq!(p.seq, 0);
    assert!(p.body.is_empty());
}

#[test]
fn pack_writes_big_endian_header() {
    let mut p = Proto::new();
    p.op = 7;
    p.seq = 1;
    p.body = vec![b'h', b'i'];
    let bytes = p.pack();
    assert_eq!(
        bytes,
        vec![0, 0, 0, 18, 0, 16, 0, 0, 0, 0, 0, 7, 0, 0, 0, 1, b'h', b'i']
    );
    assert_eq!(p.packet_len, 18);
}

#[test]
fn pack_splits_wide_fields_into_bytes() {
    let mut p = Proto::new();
    p.ver = 0x0102;
    p.op = 0x0a0b0c0d;
    p.seq = 0xfffefdfc;
    let bytes = p.pack();
    assert_eq!(
        bytes,
        vec![0, 0, 0, 16, 0, 16, 1, 2, 0x0a, 0x0b, 0x0c, 0x0d, 0xff, 0xfe, 0xfd, 0xfc]
    );
}

#[test]
fn pack_stores_only_the_packet_length() {
    let mut p = Proto::new();
    p.packet_len = 999;
    p.header_len = 3;
    p.ver = 2;
    p.op = 5;
    p.seq = 8;
    p.body = vec![1, 2, 3];
    let bytes = p.pack();
    assert_eq!(p.packet_len, 19);
    assert_eq!(p.header_len, 3);
    assert_eq!(p.ver, 2);
    assert_eq!(p.op, 5);
    assert_eq!(p.seq, 8);
    assert_eq!(p.body, vec![1, 2, 3]);
    assert_eq!(&bytes[0..6], &[0, 0, 0, 19, 0, 16]);
}

#[test]
fn packed_bytes_do_not_depend_on_the_stored_lengths() {
    let mut a = Proto::new();
    a.op = 7;
    a.body = b"same".to_vec();
    let mut b = Proto::new();
    b.op = 7;
    b.body = b"same".to_vec();
    b.packet_len = 12345;
    b.header_len = 0;
    assert_eq!(a.pack(), b.pack());
}

#[test]
fn unpack_reads_back_what_pack_wrote() {
    let bytes = frame(2, 5, 77, b"payload");
    let mut q = Proto::new();
    assert_eq!(q.unpack(&bytes), Ok(()));
    assert_eq!(q.packet_len, 23);
    assert_eq!(q.header_len, 16);
    assert_eq!(q.ver, 2);
    assert_eq!(q.op, 5);
    assert_eq!(q.seq, 77);
    assert_eq!(q.body, b"payload".to_vec());
}

#[test]
fn round_trip_holds_at_the_body_limit() {
    let body = vec![0xabu8; MAX_BODY_SIZE];
    let bytes = frame(0, 5, 1, &body);
    assert_eq!(bytes.len(), MAX_BODY_SIZE + HEADER_LENGTH);
    let mut q = Proto::new();
    assert_eq!(q.unpack(&bytes), Ok(()));
    assert_eq!(q.body, body);
}

#[test]
fn unpack_with_header_only_gives_empty_body() {
    let mut q = Proto::new();
    q.body = vec![9, 9, 9];
    assert_eq!(q.unpack(&header(16, 16)), Ok(()));
    assert_eq!(q.packet_len, 16);
    assert_eq!(q.op, 5);
    assert_eq!(q.seq, 9);
    assert!(q.body.is_empty());
}

#[test]
fn unpack_ignores_bytes_after_the_frame() {
    let mut bytes = frame(0, 5, 0, b"ab");
    bytes.extend_from_slice(b"trailing");
    let mut q = Proto::new();
    assert_eq!(q.unpack(&bytes), Ok(()));
    assert_eq!(q.body, b"ab".to_vec());
}

#[test]
fn unpack_rejects_short_buffer() {
    let mut p = Proto::new();
    assert_eq!(p.unpack(&[0u8; 15]), Err(ProtoError::FrameTooShort));
    assert_eq!(p.unpack(&[]), Err(ProtoError::FrameTooShort));
}

#[test]
fn unpack_rejects_oversized_packet() {
    let mut p = Proto::new();
    let too_big = (HEADER_LENGTH + MAX_BODY_SIZE + 1) as u32;
    assert_eq!(p.unpack(&header(too_big, 16)), Err(ProtoError::BodyTooLarge));
    assert_eq!(p.unpack(&header(u32::MAX, 16)), Err(ProtoError::BodyTooLarge));
}

#[test]
fn unpack_checks_size_before_header_length() {
    let mut p = Proto::new();
    let too_big = (HEADER_LENGTH + MAX_BODY_SIZE + 1) as u32;
    assert_eq!(p.unpack(&header(too_big, 12)), Err(ProtoError::BodyTooLarge));
}

#[test]
fn unpack_rejects_bad_header_length() {
    let mut p = Proto::new();
    assert_eq!(p.unpack(&header(16, 15)), Err(ProtoError::BadHeaderLength));
    assert_eq!(p.unpack(&header(16, 17)), Err(ProtoError::BadHeaderLength));
    assert_eq!(p.unpack(&header(16, 0)), Err(ProtoError::BadHeaderLength));
}

#[test]
fn unpack_rejects_packet_shorter_than_header() {
    let mut p = Proto::new();
    assert_eq!(p.unpack(&header(15, 16)), Err(ProtoError::BadPacketLength));
    assert_eq!(p.unpack(&header(0, 16)), Err(ProtoError::BadPacketLength));
}

#[test]
fn unpack_rejects_truncated_body() {
    let mut bytes = frame(0, 5, 0, b"abcdef");
    bytes.pop();
    let mut p = Proto::new();
    assert_eq!(p.unpack(&bytes), Err(ProtoError::TruncatedBody));
    let limit = (HEADER_LENGTH + MAX_BODY_SIZE) as u32;
    assert_eq!(p.unpack(&header(limit, 16)), Err(ProtoError::TruncatedBody));
}

#[test]
fn failed_unpack_leaves_the_frame_untouched() {
    let mut p = Proto::new();
    p.ver = 2;
    p.op = 5;
    p.seq = 3;
    p.body = vec![1, 2];
    p.packet_len = 18;
    assert_eq!(p.unpack(&header(16, 99)), Err(ProtoError::BadHeaderLength));
    assert_eq!(p.packet_len, 18);
    assert_eq!(p.header_len, 16);
    assert_eq!(p.ver, 2);
    assert_eq!(p.op, 5);
    assert_eq!(p.seq, 3);
    assert_eq!(p.body, vec![1, 2]);
}

#[test]
fn plain_body_is_read_as_utf8() {
    let mut p = Proto::new();
    p.body = "弹幕 ok".as_bytes().to_vec();
    assert_eq!(p.get_body_string(), Ok("弹幕 ok".to_string()));
}

#[test]
fn empty_plain_body_is_empty_text() {
    let p = Proto::new();
    assert_eq!(p.get_body_string(), Ok(String::new()));
}

#[test]
fn plain_body_with_bad_utf8_is_refused() {
    let mut p = Proto::new();
    p.body = vec![0xff, 0xfe];
    assert_eq!(p.get_body_string(), Err(ProtoError::Utf8Error));
    p.body = vec![0xe5, 0xbc];
    assert_eq!(p.get_body_string(), Err(ProtoError::Utf8Error));
}

#[test]
fn unknown_version_is_refused() {
    let mut p = Proto::new();
    p.body = b"{}".to_vec();
    p.ver = 1;
    assert_eq!(p.get_body_string(), Err(ProtoError::UnsupportedVersion));
    p.ver = 3;
    assert_eq!(p.get_body_string(), Err(ProtoError::UnsupportedVersion));
}

#[test]
fn compressed_body_is_inflated() {
    let mut p = Proto::new();
    p.ver = 2;
    p.body = vec![120, 156, 171, 86, 74, 84, 178, 50, 172, 5, 0, 8, 42, 2, 9];
    assert_eq!(p.get_body_string(), Ok("{\"a\":1}".to_string()));
}

#[test]
fn corrupt_compressed_body_is_refused() {
    let mut p = Proto::new();
    p.ver = 2;
    p.body = b"not zlib at all".to_vec();
    assert_eq!(p.get_body_string(), Err(ProtoError::InflateError));
    p.body = vec![120, 156, 171, 86, 74];
    assert_eq!(p.get_body_string(), Err(ProtoError::InflateError));
}

#[test]
fn compressed_body_with_bad_utf8_is_refused() {
    let mut p = Proto::new();
    p.ver = 2;
    p.body = deflate(&[0xff, 0xfe, 0xfd]);
    assert_eq!(p.get_body_string(), Err(ProtoError::Utf8Error));
}

#[test]
fn nested_frame_decodes_to_inner_body() {
    let inner = frame(0, 5, 0, "{\"cmd\":\"X\"}".as_bytes());
    let mut p = Proto::new();
    p.ver = 2;
    p.body = deflate(&inner);
    assert_eq!(p.get_body_string(), Ok("{\"cmd\":\"X\"}".to_string()));
}

#[test]
fn nesting_is_followed_through_several_levels() {
    let mut bytes = frame(0, 5, 0, "innermost".as_bytes());
    for _ in 0..MAX_NESTING {
        bytes = frame(2, 5, 0, &deflate(&bytes));
    }
    let mut p = Proto::new();
    assert_eq!(p.unpack(&bytes), Ok(()));
    assert_eq!(p.get_body_string(), Ok("innermost".to_string()));
}

#[test]
fn nesting_beyond_the_bound_is_refused() {
    let mut bytes = frame(0, 5, 0, "innermost".as_bytes());
    for _ in 0..(MAX_NESTING + 1) {
        bytes = frame(2, 5, 0, &deflate(&bytes));
    }
    let mut p = Proto::new();
    assert_eq!(p.unpack(&bytes), Ok(()));
    assert_eq!(p.get_body_string(), Err(ProtoError::NestingTooDeep));
}

#[test]
fn nested_frame_with_bad_header_is_refused() {
    let mut inner = frame(0, 5, 0, b"abc");
    inner[5] = 12;
    let mut p = Proto::new();
    p.ver = 2;
    p.body = deflate(&inner);
    assert_eq!(p.get_body_string(), Err(ProtoError::BadHeaderLength));
}

#[test]
fn nested_frame_of_unknown_version_is_refused() {
    let inner = frame(9, 5, 0, b"abc");
    let mut p = Proto::new();
    p.ver = 2;
    p.body = deflate(&inner);
    assert_eq!(p.get_body_string(), Err(ProtoError::UnsupportedVersion));
}

#[test]
fn inflated_bytes_with_other_length_are_plain_text() {
    // Sixteen bytes or more whose first four do not state their length.
    let text = "0123456789abcdefXYZ";
    let mut p = Proto::new();
    p.ver = 2;
    p.body = deflate(text.as_bytes());
    assert_eq!(p.get_body_string(), Ok(text.to_string()));
}

#[test]
fn looks_like_frame_wants_exact_length() {
    let whole = frame(0, 5, 0, b"abc");
    assert!(looks_like_frame(&whole));
    let mut longer = whole.clone();
    longer.push(0);
    assert!(!looks_like_frame(&longer));
    assert!(!looks_like_frame(&whole[..18]));
    assert!(!looks_like_frame(b"short"));
    assert!(looks_like_frame(&frame(0, 0, 0, b"")));
}

#[test]
fn decode_inflated_at_depth_zero_refuses_a_frame() {
    let whole = frame(0, 5, 0, b"abc");
    assert_eq!(decode_inflated(whole.clone(), 0), Err(ProtoError::NestingTooDeep));
    assert_eq!(decode_inflated(whole, 1), Ok("abc".to_string()));
    assert_eq!(decode_inflated(b"plain".to_vec(), 0), Ok("plain".to_string()));
}

#[test]
fn body_string_within_counts_levels() {
    let level1 = frame(2, 5, 0, &deflate(&frame(0, 5, 0, b"deep")));
    let mut outer = Proto::new();
    outer.ver = 2;
    outer.body = deflate(&level1);
    assert_eq!(outer.body_string_within(2), Ok("deep".to_string()));
    assert_eq!(outer.body_string_within(1), Err(ProtoError::NestingTooDeep));
}
