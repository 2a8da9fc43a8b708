use bytes::BytesMut;
use stk500::StkError;
use stk500::codec::{
    Packet, Stk500Codec, bare_packet, expected_response_len, load_address_packet,
    prog_page_packet, set_device_packet, set_device_ext_packet,
};
use stk500::commands::Command;

fn buf_from(bytes: &[u8]) -> BytesMut {
    let mut b = BytesMut::new();
    b.extend_from_slice(bytes);
    b
}

#[test]
fn encode_get_sync_literal() {
    let mut codec = Stk500Codec::new();
    let mut dst = BytesMut::new();
    codec.encode(bare_packet(Command::CmndStkGetSync), &mut dst);
    assert_eq!(&dst[..], &[0x30, 0x20][..]);
}

#[test]
fn encode_records_expected_len() {
    let mut codec = Stk500Codec::new();
    let mut dst = BytesMut::new();
    codec.encode(bare_packet(Command::CmndStkGetSignOn), &mut dst);
    assert_eq!(&dst[..], &[0x31, 0x20][..]);
    assert_eq!(codec.expected_response_len, 9);
}

#[test]
fn decode_empty_inner_payload() {
    let mut codec = Stk500Codec::new();
    let mut dst = BytesMut::new();
    codec.encode(bare_packet(Command::CmndStkGetSync), &mut dst);
    let mut src = buf_from(&[0x14, 0x10]);
    let r = codec.decode(&mut src).expect("valid frame").expect("complete frame");
    assert_eq!(r.len(), 0);
    assert_eq!(src.len(), 0);
}

#[test]
fn decode_nosync_leading_byte() {
    let mut codec = Stk500Codec::new();
    let mut dst = BytesMut::new();
    codec.encode(bare_packet(Command::CmndStkGetSync), &mut dst);
    let mut src = buf_from(&[0x15, 0x10]);
    assert_eq!(codec.decode(&mut src), Err(StkError::FramingError));
}

#[test]
fn decode_bad_trailing_byte() {
    let mut codec = Stk500Codec::new();
    let mut dst = BytesMut::new();
    codec.encode(bare_packet(Command::CmndStkGetSync), &mut dst);
    let mut src = buf_from(&[0x14, 0x11]);
    assert_eq!(codec.decode(&mut src), Err(StkError::FramingError));
}

#[test]
fn decode_incomplete_waits() {
    let mut codec = Stk500Codec::new();
    let mut dst = BytesMut::new();
    codec.encode(bare_packet(Command::CmndStkGetSignOn), &mut dst);
    // 9 bytes expected; only 3 arrived, and a bad first byte must not matter yet
    let mut src = buf_from(&[0x15, 0x41, 0x56]);
    assert_eq!(codec.decode(&mut src), Ok(None));
    assert_eq!(&src[..], &[0x15, 0x41, 0x56][..]);
}

#[test]
fn round_trip_sign_on() {
    let mut codec = Stk500Codec::new();
    let mut dst = BytesMut::new();
    codec.encode(bare_packet(Command::CmndStkGetSignOn), &mut dst);
    let inner = *b"AVR STK";
    let mut echoed = BytesMut::new();
    echoed.extend_from_slice(&[0x14]);
    echoed.extend_from_slice(&inner);
    echoed.extend_from_slice(&[0x10]);
    let r = codec.decode(&mut echoed).expect("valid frame").expect("complete frame");
    assert_eq!(&r[..], &inner[..]);
}

#[test]
fn decode_leaves_following_bytes() {
    let mut codec = Stk500Codec::new();
    let mut dst = BytesMut::new();
    codec.encode(bare_packet(Command::CmndStkGetSync), &mut dst);
    let mut src = buf_from(&[0x14, 0x10, 0x77, 0x88]);
    let r = codec.decode(&mut src).expect("valid frame").expect("complete frame");
    assert_eq!(r.len(), 0);
    assert_eq!(&src[..], &[0x77, 0x88][..]);
}

#[test]
fn read_page_length_combines_count_bytes() {
    // regression: the two payload bytes are a 16-bit big-endian count,
    // (high << 8) | low
    let p = Packet { command: Command::CmndStkReadPage, payload: vec![0x01, 0x02] };
    assert_eq!(expected_response_len(&p), 0x0102);
    let q = Packet { command: Command::CmndStkReadPage, payload: vec![0x00, 0x40] };
    assert_eq!(expected_response_len(&q), 0x40);
}

#[test]
fn expected_len_table() {
    let bare = |c: Command| Packet { command: c, payload: Vec::new() };
    assert_eq!(expected_response_len(&bare(Command::CmndStkGetSync)), 2);
    assert_eq!(expected_response_len(&bare(Command::CmndStkGetSignOn)), 9);
    assert_eq!(expected_response_len(&bare(Command::CmndStkGetParameter)), 3);
    assert_eq!(expected_response_len(&bare(Command::CmndStkReadFlash)), 4);
    assert_eq!(expected_response_len(&bare(Command::CmndStkReadSign)), 5);
    assert_eq!(expected_response_len(&bare(Command::CmndStkReadFuseExt)), 5);
    assert_eq!(expected_response_len(&bare(Command::CmndStkUniversal)), 3);
    assert_eq!(expected_response_len(&bare(Command::CmndStkProgPage)), 2);
}

#[test]
fn load_address_payload_little_endian() {
    let p = load_address_packet(0x1234);
    assert_eq!(p.command, Command::CmndStkLoadAddress);
    assert_eq!(p.payload, vec![0x34, 0x12]);
}

#[test]
fn prog_page_payload_layout() {
    let data = vec![0xDE, 0xAD, 0xBE, 0xEF];
    let p = prog_page_packet('F', &data);
    assert_eq!(p.command, Command::CmndStkProgPage);
    // big-endian size, inverted byte order against load-address
    assert_eq!(p.payload, vec![0x00, 0x04, b'F', 0xDE, 0xAD, 0xBE, 0xEF]);
}

#[test]
fn set_device_default_descriptor() {
    let p = set_device_packet(&None);
    assert_eq!(p.command, Command::CmndStkSetDevice);
    assert_eq!(
        p.payload,
        vec![
            0x86, 0x00, 0x00, 0x01, 0x01, 0x01, 0x01, 0x03, 0xff, 0xff, 0xff, 0xff, 0x00, 0x80,
            0x04, 0x00, 0x00, 0x00, 0x80, 0x00
        ]
    );
    let q = set_device_packet(&Some(vec![1, 2, 3]));
    assert_eq!(q.payload, vec![1, 2, 3]);
}

#[test]
fn set_device_ext_default_descriptor() {
    let p = set_device_ext_packet(&None);
    assert_eq!(p.command, Command::CmndStkSetDeviceExt);
    assert_eq!(p.payload, vec![0x05, 0x04, 0xd7, 0xc2, 0x00]);
}
