use nonce_airdrop::address::Address;
use nonce_airdrop::encoding::{from_hex, push_le, read_u16_le, to_hex};
use nonce_airdrop::payload::{build_payload, PAYLOAD_LEN};

#[test]
fn push_le_writes_least_significant_byte_first() {
    let mut out = vec![0xaa];
    push_le(&mut out, 1000, 8);
    assert_eq!(out, vec![0xaa, 0xe8, 0x03, 0, 0, 0, 0, 0, 0]);
}

#[test]
fn push_le_keeps_only_the_width_asked_for() {
    let mut out = Vec::new();
    push_le(&mut out, 0x0102_0304_0506_0708, 4);
    assert_eq!(out, vec![0x08, 0x07, 0x06, 0x05]);
    let mut none = vec![7];
    push_le(&mut none, 99, 0);
    assert_eq!(none, vec![7]);
}

#[test]
fn push_le_agrees_with_std() {
    for x in [0u32, 1, 255, 256, 65_535, 65_536, 0xdead_beef, u32::MAX] {
        let mut out = Vec::new();
        push_le(&mut out, x as u64, 4);
        assert_eq!(out, x.to_le_bytes().to_vec());
    }
    for x in [0u64, 1000, u64::MAX, 0x0123_4567_89ab_cdef] {
        let mut out = Vec::new();
        push_le(&mut out, x, 8);
        assert_eq!(out, x.to_le_bytes().to_vec());
    }
}

#[test]
fn read_u16_le_reads_at_the_offset() {
    let data = vec![0, 0x34, 0x12, 0xff, 0xff];
    assert_eq!(read_u16_le(&data, 1), 0x1234);
    assert_eq!(read_u16_le(&data, 3), 0xffff);
    assert_eq!(read_u16_le(&data, 0), 0x3400);
}

#[test]
fn to_hex_writes_two_lower_case_digits_per_byte() {
    assert_eq!(to_hex(&vec![1, 2, 3, 15, 16]), "0102030f10");
    assert_eq!(to_hex(&vec![0xab, 0xcd, 0xef, 0x00, 0xff]), "abcdef00ff");
    assert_eq!(to_hex(&Vec::new()), "");
}

#[test]
fn from_hex_reads_both_cases() {
    assert_eq!(from_hex("0102030f10"), Some(vec![1, 2, 3, 15, 16]));
    assert_eq!(from_hex("ABcdEf"), Some(vec![0xab, 0xcd, 0xef]));
    assert_eq!(from_hex(""), Some(Vec::new()));
}

#[test]
fn from_hex_refuses_what_is_no_hex_text() {
    assert_eq!(from_hex("123"), None);
    assert_eq!(from_hex("zz"), None);
    assert_eq!(from_hex("0g"), None);
    assert_eq!(from_hex(" 01"), None);
    assert_eq!(from_hex("\u{e9}1"), None);
    assert_eq!(from_hex("\u{e9}\u{e9}"), None);
}

#[test]
fn hex_round_trip_on_every_byte() {
    let all: Vec<u8> = (0..=255).collect();
    let text = to_hex(&all);
    assert_eq!(text.len(), 512);
    assert_eq!(from_hex(&text), Some(all));
}

#[test]
fn payload_of_zero_addresses() {
    let zero = Address::zero();
    let payload = build_payload(0, 1000, &zero, &zero, &zero, &zero);
    assert_eq!(payload.len(), 140);
    assert_eq!(payload.len(), PAYLOAD_LEN);
    let expected = format!("{}{}{}", "00000000", "e803000000000000", "0".repeat(256));
    assert_eq!(expected.len(), 280);
    assert_eq!(to_hex(&payload), expected);
}

#[test]
fn payload_fields_stand_in_fixed_order() {
    let mint = Address::new([1; 32]);
    let user = Address::new([2; 32]);
    let project = Address::new([3; 32]);
    let business = Address::new([4; 32]);
    let payload = build_payload(0x0403_0201, 0x0c0b_0a09_0807_0605, &mint, &user, &project, &business);
    assert_eq!(&payload[0..4], &[1, 2, 3, 4]);
    assert_eq!(&payload[4..12], &[5, 6, 7, 8, 9, 10, 11, 12]);
    assert_eq!(&payload[12..44], &[1u8; 32]);
    assert_eq!(&payload[44..76], &[2u8; 32]);
    assert_eq!(&payload[76..108], &[3u8; 32]);
    assert_eq!(&payload[108..140], &[4u8; 32]);
}

#[test]
fn payload_differs_when_a_field_differs() {
    let a = Address::new([1; 32]);
    let b = Address::new([2; 32]);
    let base = build_payload(7, 9, &a, &a, &a, &a);
    assert_ne!(base, build_payload(8, 9, &a, &a, &a, &a));
    assert_ne!(base, build_payload(7, 10, &a, &a, &a, &a));
    assert_ne!(base, build_payload(7, 9, &b, &a, &a, &a));
    assert_ne!(base, build_payload(7, 9, &a, &b, &a, &a));
    assert_ne!(base, build_payload(7, 9, &a, &a, &b, &a));
    assert_ne!(base, build_payload(7, 9, &a, &a, &a, &b));
}
