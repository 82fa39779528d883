use trade_escrow::amount::{bytes32_equal, bytes_to_u64_number};

fn padded(value: u64) -> [u8; 32] {
    let mut bytes = [0u8; 32];
    bytes[24..].copy_from_slice(&value.to_be_bytes());
    bytes
}

#[test]
fn empty_bytes_decode_to_zero() {
    assert_eq!(bytes_to_u64_number(&[]), 0);
}

#[test]
fn all_zero_bytes_decode_to_zero() {
    assert_eq!(bytes_to_u64_number(&[0u8; 32]), 0);
    assert_eq!(bytes_to_u64_number(&[0u8; 3]), 0);
}

#[test]
fn short_bytes_decode_big_endian() {
    assert_eq!(bytes_to_u64_number(&[1]), 1);
    assert_eq!(bytes_to_u64_number(&[1, 0]), 256);
    assert_eq!(bytes_to_u64_number(&[0x12, 0x34, 0x56]), 0x123456);
}

#[test]
fn eight_bytes_decode_as_u64() {
    assert_eq!(bytes_to_u64_number(&[0xff; 8]), u64::MAX);
    assert_eq!(
        bytes_to_u64_number(&[0x01, 0x02, 0x03, 0x04, 0x05, 0x06, 0x07, 0x08]),
        0x0102030405060708
    );
}

#[test]
fn padded_value_decodes_like_its_shortest_spelling() {
    assert_eq!(bytes_to_u64_number(&padded(1_000_000)), 1_000_000);
    assert_eq!(bytes_to_u64_number(&[0x0f, 0x42, 0x40]), 1_000_000);
    assert_eq!(bytes_to_u64_number(&[0, 0, 0, 0x0f, 0x42, 0x40]), 1_000_000);
}

#[test]
fn every_sample_u64_survives_the_round_trip() {
    for value in [0u64, 1, 255, 256, 65_535, 1 << 32, (1 << 56) - 1, 1 << 56, u64::MAX - 1, u64::MAX]
    {
        assert_eq!(bytes_to_u64_number(&padded(value)), value);
        assert_eq!(bytes_to_u64_number(&value.to_be_bytes()), value);
    }
}

#[test]
fn value_above_64_bits_keeps_its_low_eight_bytes() {
    assert_eq!(bytes_to_u64_number(&[1, 0, 0, 0, 0, 0, 0, 0, 5]), 5);
    let mut bytes = [0u8; 32];
    bytes[0] = 0xab;
    bytes[23] = 0x01;
    bytes[31] = 0x07;
    assert_eq!(bytes_to_u64_number(&bytes), 7);
    assert_eq!(bytes_to_u64_number(&[0xff; 32]), u64::MAX);
}

#[test]
fn nine_significant_bytes_with_leading_zeros_are_cut_too() {
    assert_eq!(bytes_to_u64_number(&[0, 0, 2, 0, 0, 0, 0, 0, 0, 1, 1]), 257);
}

#[test]
fn bytes32_equal_compares_every_byte() {
    let a = [7u8; 32];
    let mut b = [7u8; 32];
    assert!(bytes32_equal(&a, &b));
    b[31] = 8;
    assert!(!bytes32_equal(&a, &b));
    b[31] = 7;
    b[0] = 0;
    assert!(!bytes32_equal(&a, &b));
}
