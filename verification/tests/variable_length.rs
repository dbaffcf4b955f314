use binarystream::{BinaryError, BinaryStream, VarInt, VarLong, ZigZag, ZigZong};

#[test]
fn var_int_scenario_three_hundred() {
    let mut s = BinaryStream::new(None, None);
    VarInt::write(&mut s, 300);
    assert_eq!(s.binary, vec![0xAC, 0x02]);
    assert_eq!(VarInt::read(&mut s).unwrap(), 300);
}

#[test]
fn var_int_round_trip() {
    let mut s = BinaryStream::new(None, None);
    for v in [0, 1, 127, 128, 16383, 16384, 2097151, 268435455, u32::MAX] {
        VarInt::write(&mut s, v);
        assert_eq!(VarInt::read(&mut s).unwrap(), v);
    }
}

#[test]
fn var_int_encodings_are_minimal() {
    for (v, len) in [
        (0u32, 1usize),
        (127, 1),
        (128, 2),
        (16383, 2),
        (16384, 3),
        (2097151, 3),
        (2097152, 4),
        (268435455, 4),
        (268435456, 5),
        (u32::MAX, 5),
    ] {
        let mut s = BinaryStream::new(None, None);
        VarInt::write(&mut s, v);
        assert_eq!(s.binary.len(), len);
    }
}

#[test]
fn var_int_rejects_six_or_more_groups() {
    let mut s = BinaryStream::from(vec![0x80, 0x80, 0x80, 0x80, 0x80, 0x01], None);
    assert_eq!(VarInt::read(&mut s), Err(BinaryError::MalformedVarint));
    assert_eq!(s.offset, 0);
}

#[test]
fn var_int_truncated_input_is_a_bounds_error() {
    let mut s = BinaryStream::from(vec![0x80, 0x80], None);
    assert_eq!(VarInt::read(&mut s), Err(BinaryError::BoundsError));
    assert_eq!(s.offset, 0);
}

#[test]
fn var_long_round_trip() {
    let mut s = BinaryStream::new(None, None);
    for v in [0, 1, 127, 128, 300, 1u64 << 35, u64::MAX] {
        VarLong::write(&mut s, v);
        assert_eq!(VarLong::read(&mut s).unwrap(), v);
    }
}

#[test]
fn var_long_encodings_are_minimal() {
    for (v, len) in [
        (0u64, 1usize),
        (127, 1),
        (128, 2),
        ((1 << 35) - 1, 5),
        (1 << 35, 6),
        ((1 << 63) - 1, 9),
        (1 << 63, 10),
        (u64::MAX, 10),
    ] {
        let mut s = BinaryStream::new(None, None);
        VarLong::write(&mut s, v);
        assert_eq!(s.binary.len(), len);
    }
}

#[test]
fn var_long_rejects_eleven_or_more_groups() {
    let mut s = BinaryStream::from(vec![0x80; 11], None);
    assert_eq!(VarLong::read(&mut s), Err(BinaryError::MalformedVarint));
    assert_eq!(s.offset, 0);
}

#[test]
fn var_long_truncated_input_is_a_bounds_error() {
    let mut s = BinaryStream::from(vec![0xFF; 4], None);
    assert_eq!(VarLong::read(&mut s), Err(BinaryError::BoundsError));
    assert_eq!(s.offset, 0);
}

#[test]
fn zig_zag_small_values_map_to_small_encodings() {
    for (v, bytes) in [
        (0i32, vec![0x00u8]),
        (-1, vec![0x01]),
        (1, vec![0x02]),
        (-2, vec![0x03]),
        (2, vec![0x04]),
    ] {
        let mut s = BinaryStream::new(None, None);
        ZigZag::write(&mut s, v);
        assert_eq!(s.binary, bytes);
        assert_eq!(ZigZag::read(&mut s).unwrap(), v);
    }
}

#[test]
fn zig_zag_scenario_minus_two() {
    let mut s = BinaryStream::new(None, None);
    ZigZag::write(&mut s, -2);
    assert_eq!(s.binary, vec![0x03]);
    assert_eq!(ZigZag::read(&mut s).unwrap(), -2);
}

#[test]
fn zig_zag_round_trip_over_the_domain_edges() {
    let mut s = BinaryStream::new(None, None);
    for v in [i32::MIN, i32::MIN + 1, -1, 0, 1, i32::MAX - 1, i32::MAX] {
        ZigZag::write(&mut s, v);
        assert_eq!(ZigZag::read(&mut s).unwrap(), v);
    }
}

#[test]
fn zig_zong_round_trip_over_the_domain_edges() {
    let mut s = BinaryStream::new(None, None);
    for v in [i64::MIN, i64::MIN + 1, -1, 0, 1, i64::MAX - 1, i64::MAX] {
        ZigZong::write(&mut s, v);
        assert_eq!(ZigZong::read(&mut s).unwrap(), v);
    }
}

#[test]
fn zig_zong_small_values() {
    let mut s = BinaryStream::new(None, None);
    ZigZong::write(&mut s, 0);
    ZigZong::write(&mut s, -1);
    ZigZong::write(&mut s, 1);
    assert_eq!(s.binary, vec![0x00, 0x01, 0x02]);
    assert_eq!(ZigZong::read(&mut s).unwrap(), 0);
    assert_eq!(ZigZong::read(&mut s).unwrap(), -1);
    assert_eq!(ZigZong::read(&mut s).unwrap(), 1);
}

#[test]
fn zig_zag_errors_match_var_int_errors() {
    let mut s = BinaryStream::from(vec![0x80], None);
    assert_eq!(ZigZag::read(&mut s), Err(BinaryError::BoundsError));
    let mut s = BinaryStream::from(vec![0x80; 6], None);
    assert_eq!(ZigZag::read(&mut s), Err(BinaryError::MalformedVarint));
    let mut s = BinaryStream::from(vec![0x80; 11], None);
    assert_eq!(ZigZong::read(&mut s), Err(BinaryError::MalformedVarint));
}

#[test]
fn variable_length_stream_methods_delegate() {
    let mut s = BinaryStream::new(None, None);
    s.write_var_int(300);
    s.write_var_long(1 << 40);
    s.write_zig_zag(-300);
    s.write_zig_zong(-(1 << 40));
    assert_eq!(s.read_var_int().unwrap(), 300);
    assert_eq!(s.read_var_long().unwrap(), 1 << 40);
    assert_eq!(s.read_zig_zag().unwrap(), -300);
    assert_eq!(s.read_zig_zong().unwrap(), -(1 << 40));
    assert!(s.cursor_at_end());
}
