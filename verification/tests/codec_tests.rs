use nomos_da::codec::{hex_decode, hex_encode, u32_to_decimal};
use nomos_da::engine::pad_payload;

fn padded(len: usize) -> usize {
    let mut v = vec![7u8; len];
    pad_payload(&mut v);
    v.len()
}

#[test]
fn padding_exact_lengths() {
    assert_eq!(padded(0), 0);
    assert_eq!(padded(31), 31);
    assert_eq!(padded(32), 62);
    assert_eq!(padded(30), 31);
}

#[test]
fn padding_always_multiple_of_chunk() {
    for len in 0..200 {
        assert_eq!(padded(len) % 31, 0);
    }
}

#[test]
fn padding_appends_zeros_only() {
    let mut v = vec![9u8, 8u8];
    pad_payload(&mut v);
    assert_eq!(v.len(), 31);
    assert_eq!(&v[..2], &[9u8, 8u8]);
    assert!(v[2..].iter().all(|b| *b == 0));
}

#[test]
fn hex_decode_exact_values() {
    assert_eq!(hex_decode(b"00ff"), Some(vec![0u8, 255u8]));
    assert_eq!(hex_decode(b"00FF"), Some(vec![0u8, 255u8]));
    assert_eq!(hex_decode(b"0a1b2c"), Some(vec![10u8, 27u8, 44u8]));
    assert_eq!(hex_decode(b""), Some(vec![]));
}

#[test]
fn hex_decode_rejects_odd_length() {
    assert_eq!(hex_decode(b"abc"), None);
    assert_eq!(hex_decode(b"0"), None);
}

#[test]
fn hex_decode_rejects_non_hex() {
    assert_eq!(hex_decode(b"zz"), None);
    assert_eq!(hex_decode(b"0g"), None);
    assert_eq!(hex_decode(b"  "), None);
}

#[test]
fn hex_encode_exact_values() {
    assert_eq!(hex_encode(&[0u8, 255u8]), b"00ff".to_vec());
    assert_eq!(hex_encode(&[]), b"".to_vec());
    assert_eq!(hex_encode(&[16u8, 1u8]), b"1001".to_vec());
}

#[test]
fn hex_round_trip_bytes() {
    let bytes: Vec<u8> = (0..=255u8).collect();
    let encoded = hex_encode(&bytes);
    assert_eq!(hex_decode(&encoded), Some(bytes));
}

#[test]
fn hex_round_trip_string() {
    let s = b"00112233445566778899aabbccddeeff00112233445566778899aabbccddeeff";
    let decoded = hex_decode(s).unwrap();
    assert_eq!(decoded.len(), 32);
    assert_eq!(hex_encode(&decoded), s.to_vec());
}

#[test]
fn decimal_rendering_exact_values() {
    assert_eq!(u32_to_decimal(0), "0");
    assert_eq!(u32_to_decimal(7), "7");
    assert_eq!(u32_to_decimal(10), "10");
    assert_eq!(u32_to_decimal(12345), "12345");
    assert_eq!(u32_to_decimal(u32::MAX), "4294967295");
}
