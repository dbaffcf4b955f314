use binarystream::{
    BinaryError, BinaryStream, Endianness, String16, String32, Uuid, VarString,
};

const BIG: Option<Endianness> = Some(Endianness::Big);
const LITTLE: Option<Endianness> = Some(Endianness::Little);

#[test]
fn string16_scenario_hi() {
    let mut s = BinaryStream::new(None, None);
    String16::write(&mut s, "hi".to_string(), BIG);
    assert_eq!(s.binary, vec![0x00, 0x02, b'h', b'i']);
    assert_eq!(String16::read(&mut s, BIG).unwrap(), "hi");
}

#[test]
fn string16_round_trip_multibyte_text() {
    for endian in [BIG, LITTLE] {
        let mut s = BinaryStream::new(None, None);
        let text = "héλ\u{1D11E}".to_string();
        String16::write(&mut s, text.clone(), endian);
        assert_eq!(String16::read(&mut s, endian).unwrap(), text);
    }
}

#[test]
fn string16_empty_round_trip() {
    let mut s = BinaryStream::new(None, None);
    String16::write(&mut s, String::new(), BIG);
    assert_eq!(s.binary, vec![0, 0]);
    assert_eq!(String16::read(&mut s, BIG).unwrap(), "");
}

#[test]
fn string16_truncated_payload_is_a_bounds_error() {
    let mut s = BinaryStream::from(vec![0x00, 0x05, b'a', b'b'], None);
    assert_eq!(String16::read(&mut s, BIG), Err(BinaryError::BoundsError));
    assert_eq!(s.offset, 0);
}

#[test]
fn string16_truncated_prefix_is_a_bounds_error() {
    let mut s = BinaryStream::from(vec![0x00], None);
    assert_eq!(String16::read(&mut s, BIG), Err(BinaryError::BoundsError));
    assert_eq!(s.offset, 0);
}

#[test]
fn string16_invalid_utf8_is_replaced_not_rejected() {
    let mut s = BinaryStream::from(vec![0x00, 0x02, 0xFF, 0xFE], None);
    assert_eq!(
        String16::read(&mut s, BIG).unwrap(),
        "\u{FFFD}\u{FFFD}"
    );
}

#[test]
fn string32_round_trip_both_orders() {
    for endian in [BIG, LITTLE] {
        let mut s = BinaryStream::new(None, None);
        String32::write(&mut s, "wire format".to_string(), endian);
        assert_eq!(String32::read(&mut s, endian).unwrap(), "wire format");
    }
}

#[test]
fn string32_prefix_bytes() {
    let mut s = BinaryStream::new(None, None);
    String32::write(&mut s, "abc".to_string(), BIG);
    assert_eq!(s.binary, vec![0, 0, 0, 3, b'a', b'b', b'c']);
}

#[test]
fn string32_negative_prefix_is_a_bounds_error() {
    let mut s = BinaryStream::from(vec![0xFF, 0xFF, 0xFF, 0xFF, b'a'], None);
    assert_eq!(String32::read(&mut s, BIG), Err(BinaryError::BoundsError));
    assert_eq!(s.offset, 0);
}

#[test]
fn string32_truncated_payload_is_a_bounds_error() {
    let mut s = BinaryStream::from(vec![0, 0, 0, 9, b'x'], None);
    assert_eq!(String32::read(&mut s, BIG), Err(BinaryError::BoundsError));
    assert_eq!(s.offset, 0);
}

#[test]
fn var_string_round_trip() {
    let mut s = BinaryStream::new(None, None);
    VarString::write(&mut s, "hello".to_string());
    assert_eq!(s.binary, vec![5, b'h', b'e', b'l', b'l', b'o']);
    assert_eq!(VarString::read(&mut s).unwrap(), "hello");
}

#[test]
fn var_string_long_prefix_round_trip() {
    let mut s = BinaryStream::new(None, None);
    let text = "x".repeat(300);
    VarString::write(&mut s, text.clone());
    assert_eq!(s.binary[0..2], [0xAC, 0x02]);
    assert_eq!(VarString::read(&mut s).unwrap(), text);
}

#[test]
fn var_string_truncated_payload_is_a_bounds_error() {
    let mut s = BinaryStream::from(vec![9, b'a'], None);
    assert_eq!(VarString::read(&mut s), Err(BinaryError::BoundsError));
    assert_eq!(s.offset, 0);
}

#[test]
fn var_string_malformed_prefix_is_reported() {
    let mut s = BinaryStream::from(vec![0x80, 0x80, 0x80, 0x80, 0x80, 0x01], None);
    assert_eq!(VarString::read(&mut s), Err(BinaryError::MalformedVarint));
    assert_eq!(s.offset, 0);
}

#[test]
fn uuid_scenario_canonical_text() {
    let mut s = BinaryStream::new(None, None);
    Uuid::write(&mut s, "550e8400-e29b-41d4-a716-446655440000".to_string()).unwrap();
    assert_eq!(
        s.binary,
        vec![
            0x55, 0x0E, 0x84, 0x00, 0xE2, 0x9B, 0x41, 0xD4, 0xA7, 0x16, 0x44, 0x66, 0x55, 0x44,
            0x00, 0x00
        ]
    );
    assert_eq!(
        Uuid::read(&mut s).unwrap(),
        "550E8400E29B41D4A716446655440000"
    );
}

#[test]
fn uuid_accepts_either_case_and_normalizes_to_uppercase() {
    let mut s = BinaryStream::new(None, None);
    Uuid::write(&mut s, "deadbeefdeadbeefdeadbeefdeadbeef".to_string()).unwrap();
    assert_eq!(
        Uuid::read(&mut s).unwrap(),
        "DEADBEEFDEADBEEFDEADBEEFDEADBEEF"
    );
}

#[test]
fn uuid_write_read_write_is_stable() {
    let mut s = BinaryStream::new(None, None);
    Uuid::write(&mut s, "0123456789abcdef0123456789ABCDEF".to_string()).unwrap();
    let text = Uuid::read(&mut s).unwrap();
    let mut t = BinaryStream::new(None, None);
    Uuid::write(&mut t, text.clone()).unwrap();
    assert_eq!(t.binary, s.binary);
    assert_eq!(Uuid::read(&mut t).unwrap(), text);
}

#[test]
fn uuid_malformed_hex_is_invalid_hex() {
    let mut s = BinaryStream::new(None, None);
    assert_eq!(
        Uuid::write(&mut s, "zzzzzzzzzzzzzzzzzzzzzzzzzzzzzzzz".to_string()),
        Err(BinaryError::InvalidHex)
    );
    assert_eq!(s.binary, Vec::<u8>::new());
}

#[test]
fn uuid_short_text_is_invalid_hex() {
    let mut s = BinaryStream::new(None, None);
    assert_eq!(
        Uuid::write(&mut s, "550e8400".to_string()),
        Err(BinaryError::InvalidHex)
    );
    assert_eq!(s.binary, Vec::<u8>::new());
}

#[test]
fn uuid_read_needs_sixteen_bytes() {
    let mut s = BinaryStream::from(vec![1, 2, 3], None);
    assert_eq!(Uuid::read(&mut s), Err(BinaryError::BoundsError));
    assert_eq!(s.offset, 0);
}

#[test]
fn text_stream_methods_delegate() {
    let mut s = BinaryStream::new(None, None);
    s.write_string16("one".to_string(), BIG);
    s.write_string32("two".to_string(), LITTLE);
    s.write_var_string("three".to_string());
    s.write_uuid("00112233445566778899AABBCCDDEEFF".to_string())
        .unwrap();
    assert_eq!(s.read_string16(BIG).unwrap(), "one");
    assert_eq!(s.read_string32(LITTLE).unwrap(), "two");
    assert_eq!(s.read_var_string().unwrap(), "three");
    assert_eq!(s.read_uuid().unwrap(), "00112233445566778899AABBCCDDEEFF");
    assert!(s.cursor_at_end());
}
