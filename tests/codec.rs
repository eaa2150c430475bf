use ublox7::checksum::ubx_checksum;
use ublox7::frame::{encode_ubx_frame, parse_ubx_message, FrameError};

#[test]
fn checksum_of_one_two_three() {
    assert_eq!(ubx_checksum(&[1, 2, 3]), (6, 10));
}

#[test]
fn checksum_of_nothing_is_zero() {
    assert_eq!(ubx_checksum(&[]), (0, 0));
}

#[test]
fn checksum_wraps_modulo_256() {
    // a: 200, 144 (400 mod 256); b: 200, 344 mod 256 = 88
    assert_eq!(ubx_checksum(&[200, 200]), (144, 88));
}

#[test]
fn encode_empty_poll_request() {
    let f = encode_ubx_frame(0x01, 0x02, &[]).unwrap();
    // checksum over 01 02 00 00: a = 1, 3, 3, 3; b = 1, 4, 7, 10
    assert_eq!(f, vec![0xB5, 0x62, 0x01, 0x02, 0x00, 0x00, 0x03, 0x0A]);
}

#[test]
fn encode_writes_little_endian_length() {
    let payload = vec![7u8; 300];
    let f = encode_ubx_frame(0x06, 0x01, &payload).unwrap();
    assert_eq!(f.len(), 308);
    assert_eq!(f[4], 44);
    assert_eq!(f[5], 1);
    assert_eq!(&f[6..306], &payload[..]);
}

#[test]
fn encode_rejects_oversized_payload() {
    let payload = vec![0u8; 65536];
    assert_eq!(encode_ubx_frame(0x01, 0x02, &payload), Err(FrameError::PayloadTooLarge));
}

#[test]
fn encode_accepts_largest_payload() {
    let payload = vec![0xAAu8; 65535];
    let f = encode_ubx_frame(0x01, 0x35, &payload).unwrap();
    let m = parse_ubx_message(&f).unwrap();
    assert_eq!(m.payload.len(), 65535);
    assert_eq!((m.class, m.id), (0x01, 0x35));
}

#[test]
fn round_trip_keeps_class_id_and_payload() {
    let payload = vec![1u8, 2, 3, 250, 0, 99];
    let f = encode_ubx_frame(0x0A, 0x04, &payload).unwrap();
    let m = parse_ubx_message(&f).unwrap();
    assert_eq!(m.class, 0x0A);
    assert_eq!(m.id, 0x04);
    assert_eq!(m.payload, payload);
}

#[test]
fn decode_ignores_trailing_bytes() {
    let mut f = encode_ubx_frame(0x01, 0x02, &[5, 6]).unwrap();
    f.extend_from_slice(&[0xB5, 0x62, 0x01]);
    let m = parse_ubx_message(&f).unwrap();
    assert_eq!(m.payload, vec![5, 6]);
}

#[test]
fn decode_short_buffer_is_none() {
    assert!(parse_ubx_message(&[0xB5, 0x62, 0x01, 0x02, 0x00, 0x00, 0x03]).is_none());
    assert!(parse_ubx_message(&[]).is_none());
}

#[test]
fn decode_bad_sync_is_none() {
    let mut f = encode_ubx_frame(0x01, 0x02, &[]).unwrap();
    f[1] = 0x63;
    assert!(parse_ubx_message(&f).is_none());
}

#[test]
fn decode_declared_length_too_large_is_none() {
    let mut f = encode_ubx_frame(0x01, 0x02, &[1, 2, 3, 4]).unwrap();
    f[4] = 5;
    assert!(parse_ubx_message(&f).is_none());
    let f = encode_ubx_frame(0x01, 0x02, &[1, 2, 3, 4]).unwrap();
    assert!(parse_ubx_message(&f[..f.len() - 1]).is_none());
}

#[test]
fn decode_corrupted_payload_byte_is_none() {
    let mut f = encode_ubx_frame(0x01, 0x02, &[10, 20, 30]).unwrap();
    assert!(parse_ubx_message(&f).is_some());
    f[7] ^= 0x01;
    assert!(parse_ubx_message(&f).is_none());
}

#[test]
fn decode_corrupted_checksum_is_none() {
    let mut f = encode_ubx_frame(0x01, 0x02, &[10, 20, 30]).unwrap();
    let last = f.len() - 1;
    f[last] = f[last].wrapping_add(1);
    assert!(parse_ubx_message(&f).is_none());
}
