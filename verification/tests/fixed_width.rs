use binarystream::{
    BinaryError, BinaryStream, Bool, Endianness, Float32, Float64, Int16, Int24, Int32, Int64,
    Int8, Long, Short, ULong, UShort, Uint16, Uint24, Uint32, Uint64, Uint8,
};

const BIG: Option<Endianness> = Some(Endianness::Big);
const LITTLE: Option<Endianness> = Some(Endianness::Little);

#[test]
fn uint16_big_endian_scenario() {
    let mut s = BinaryStream::new(None, None);
    Uint16::write(&mut s, 0x1234, BIG);
    assert_eq!(s.binary, vec![0x12, 0x34]);
    assert_eq!(Uint16::read(&mut s, BIG).unwrap(), 0x1234);
}

#[test]
fn uint16_little_endian_round_trip() {
    let mut s = BinaryStream::new(None, None);
    Uint16::write(&mut s, 0x1234, LITTLE);
    assert_eq!(s.binary, vec![0x34, 0x12]);
    assert_eq!(Uint16::read(&mut s, LITTLE).unwrap(), 0x1234);
}

#[test]
fn default_byte_order_is_big() {
    let mut s = BinaryStream::new(None, None);
    Uint16::write(&mut s, 0xABCD, None);
    assert_eq!(s.binary, vec![0xAB, 0xCD]);
    assert_eq!(Endianness::default(), Endianness::Big);
}

#[test]
fn uint8_round_trip() {
    let mut s = BinaryStream::new(None, None);
    Uint8::write(&mut s, 0);
    Uint8::write(&mut s, 255);
    assert_eq!(Uint8::read(&mut s).unwrap(), 0);
    assert_eq!(Uint8::read(&mut s).unwrap(), 255);
}

#[test]
fn int8_round_trip() {
    let mut s = BinaryStream::new(None, None);
    Int8::write(&mut s, -128);
    Int8::write(&mut s, -1);
    Int8::write(&mut s, 127);
    assert_eq!(s.binary, vec![0x80, 0xFF, 0x7F]);
    assert_eq!(Int8::read(&mut s).unwrap(), -128);
    assert_eq!(Int8::read(&mut s).unwrap(), -1);
    assert_eq!(Int8::read(&mut s).unwrap(), 127);
}

#[test]
fn int16_round_trip_both_orders() {
    for endian in [BIG, LITTLE] {
        let mut s = BinaryStream::new(None, None);
        for v in [i16::MIN, -1, 0, 1, i16::MAX] {
            Int16::write(&mut s, v, endian);
            assert_eq!(Int16::read(&mut s, endian).unwrap(), v);
        }
    }
}

#[test]
fn uint24_round_trip_and_bytes() {
    let mut s = BinaryStream::new(None, None);
    Uint24::write(&mut s, 0x123456, BIG);
    assert_eq!(s.binary, vec![0x12, 0x34, 0x56]);
    assert_eq!(Uint24::read(&mut s, BIG).unwrap(), 0x123456);

    let mut s = BinaryStream::new(None, None);
    Uint24::write(&mut s, 0xFFFFFF, LITTLE);
    assert_eq!(Uint24::read(&mut s, LITTLE).unwrap(), 0xFFFFFF);
}

#[test]
fn uint24_out_of_range_truncates_silently() {
    let mut s = BinaryStream::new(None, None);
    Uint24::write(&mut s, 0x12345678, BIG);
    assert_eq!(s.binary, vec![0x34, 0x56, 0x78]);
    assert_eq!(Uint24::read(&mut s, BIG).unwrap(), 0x345678);
}

#[test]
fn int24_round_trip_within_domain() {
    for endian in [BIG, LITTLE] {
        let mut s = BinaryStream::new(None, None);
        for v in [-8388608, -1, 0, 1, 8388607] {
            Int24::write(&mut s, v, endian);
            assert_eq!(Int24::read(&mut s, endian).unwrap(), v);
        }
    }
}

#[test]
fn int24_out_of_range_keeps_low_bits() {
    let mut s = BinaryStream::new(None, None);
    Int24::write(&mut s, 0x01000000, BIG);
    assert_eq!(s.binary, vec![0, 0, 0]);
    assert_eq!(Int24::read(&mut s, BIG).unwrap(), 0);

    let mut s = BinaryStream::new(None, None);
    Int24::write(&mut s, 0x00FFFFFF, BIG);
    assert_eq!(Int24::read(&mut s, BIG).unwrap(), -1);
}

#[test]
fn int32_round_trip_both_orders() {
    for endian in [BIG, LITTLE] {
        let mut s = BinaryStream::new(None, None);
        for v in [i32::MIN, -1, 0, 1, i32::MAX] {
            Int32::write(&mut s, v, endian);
            assert_eq!(Int32::read(&mut s, endian).unwrap(), v);
        }
    }
}

#[test]
fn uint32_round_trip_and_bytes() {
    let mut s = BinaryStream::new(None, None);
    Uint32::write(&mut s, 0xDEADBEEF, BIG);
    assert_eq!(s.binary, vec![0xDE, 0xAD, 0xBE, 0xEF]);
    assert_eq!(Uint32::read(&mut s, BIG).unwrap(), 0xDEADBEEF);

    let mut s = BinaryStream::new(None, None);
    Uint32::write(&mut s, 0xDEADBEEF, LITTLE);
    assert_eq!(s.binary, vec![0xEF, 0xBE, 0xAD, 0xDE]);
    assert_eq!(Uint32::read(&mut s, LITTLE).unwrap(), 0xDEADBEEF);
}

#[test]
fn uint64_round_trip_both_orders() {
    for endian in [BIG, LITTLE] {
        let mut s = BinaryStream::new(None, None);
        for v in [0, 1, 0x0123456789ABCDEF, u64::MAX] {
            Uint64::write(&mut s, v, endian);
            assert_eq!(Uint64::read(&mut s, endian).unwrap(), v);
        }
    }
}

#[test]
fn int64_round_trip_both_orders() {
    for endian in [BIG, LITTLE] {
        let mut s = BinaryStream::new(None, None);
        for v in [i64::MIN, -1, 0, 1, i64::MAX] {
            Int64::write(&mut s, v, endian);
            assert_eq!(Int64::read(&mut s, endian).unwrap(), v);
        }
    }
}

#[test]
fn short_aliases_int16() {
    let mut s = BinaryStream::new(None, None);
    Short::write(&mut s, -2, BIG);
    assert_eq!(s.binary, vec![0xFF, 0xFE]);
    assert_eq!(Short::read(&mut s, BIG).unwrap(), -2);
}

#[test]
fn u_short_aliases_uint16() {
    let mut s = BinaryStream::new(None, None);
    UShort::write(&mut s, 0xFFFF, LITTLE);
    assert_eq!(UShort::read(&mut s, LITTLE).unwrap(), 0xFFFF);
}

#[test]
fn long_aliases_int64() {
    let mut s = BinaryStream::new(None, None);
    Long::write(&mut s, -5_000_000_000, BIG);
    assert_eq!(Long::read(&mut s, BIG).unwrap(), -5_000_000_000);
}

#[test]
fn u_long_aliases_uint64() {
    let mut s = BinaryStream::new(None, None);
    ULong::write(&mut s, u64::MAX, BIG);
    assert_eq!(ULong::read(&mut s, BIG).unwrap(), u64::MAX);
}

#[test]
fn bool_round_trip_and_nonzero_decodes_true() {
    let mut s = BinaryStream::new(None, None);
    Bool::write(&mut s, true);
    Bool::write(&mut s, false);
    assert_eq!(s.binary, vec![1, 0]);
    assert_eq!(Bool::read(&mut s).unwrap(), true);
    assert_eq!(Bool::read(&mut s).unwrap(), false);

    let mut s = BinaryStream::from(vec![7], None);
    assert_eq!(Bool::read(&mut s).unwrap(), true);
}

#[test]
fn fixed_width_reads_fail_on_short_buffers() {
    let mut s = BinaryStream::from(vec![1, 2, 3], None);
    assert_eq!(Uint32::read(&mut s, BIG), Err(BinaryError::BoundsError));
    assert_eq!(s.offset, 0);
    assert_eq!(Int64::read(&mut s, BIG), Err(BinaryError::BoundsError));
    assert_eq!(s.offset, 0);
    assert_eq!(Uint24::read(&mut s, BIG).unwrap(), 0x010203);
}

#[test]
fn float32_exactly_representable_values_round_trip() {
    for endian in [BIG, LITTLE] {
        for v in [1.5f64, 100.0, -0.25, 0.0] {
            let mut s = BinaryStream::new(None, None);
            Float32::write(&mut s, (v as f32).to_bits(), endian);
            let bits = Float32::read(&mut s, endian).unwrap();
            assert_eq!(f32::from_bits(bits) as f64, v);
        }
    }
}

#[test]
fn float32_bytes_are_the_ieee_pattern() {
    let mut s = BinaryStream::new(None, None);
    Float32::write(&mut s, 1.5f32.to_bits(), BIG);
    assert_eq!(s.binary, vec![0x3F, 0xC0, 0x00, 0x00]);
}

#[test]
fn float32_narrowing_loses_precision_silently() {
    let wide = 0.1f64;
    let narrowed = wide as f32;
    let mut s = BinaryStream::new(None, None);
    Float32::write(&mut s, narrowed.to_bits(), BIG);
    let bits = Float32::read(&mut s, BIG).unwrap();
    assert_eq!(f32::from_bits(bits), narrowed);
    assert_ne!(f32::from_bits(bits) as f64, wide);
}

#[test]
fn float64_round_trip_both_orders() {
    for endian in [BIG, LITTLE] {
        for v in [0.0f64, -1.25, 6.02214076e23, f64::MIN_POSITIVE] {
            let mut s = BinaryStream::new(None, None);
            Float64::write(&mut s, v.to_bits(), endian);
            let bits = Float64::read(&mut s, endian).unwrap();
            assert_eq!(f64::from_bits(bits), v);
        }
    }
}

#[test]
fn float64_bytes_are_the_ieee_pattern() {
    let mut s = BinaryStream::new(None, None);
    Float64::write(&mut s, 1.0f64.to_bits(), BIG);
    assert_eq!(s.binary, vec![0x3F, 0xF0, 0, 0, 0, 0, 0, 0]);
}

#[test]
fn stream_methods_delegate_to_the_codecs() {
    let mut s = BinaryStream::new(None, None);
    s.write_uint8(1);
    s.write_int8(-1);
    s.write_byte(-2);
    s.write_uint16(2, BIG);
    s.write_u_short(3, BIG);
    s.write_int16(-3, BIG);
    s.write_short(-4, BIG);
    s.write_uint24(5, BIG);
    s.write_int24(-5, BIG);
    s.write_uint32(6, BIG);
    s.write_int32(-6, BIG);
    s.write_uint64(7, BIG);
    s.write_u_long(8, BIG);
    s.write_int64(-7, BIG);
    s.write_long(-8, BIG);
    s.write_bool(true);
    s.write_float32(2.5f32.to_bits(), BIG);
    s.write_float64(3.5f64.to_bits(), BIG);

    assert_eq!(s.read_uint8().unwrap(), 1);
    assert_eq!(s.read_int8().unwrap(), -1);
    assert_eq!(s.read_byte().unwrap(), -2);
    assert_eq!(s.read_uint16(BIG).unwrap(), 2);
    assert_eq!(s.read_u_short(BIG).unwrap(), 3);
    assert_eq!(s.read_int16(BIG).unwrap(), -3);
    assert_eq!(s.read_short(BIG).unwrap(), -4);
    assert_eq!(s.read_uint24(BIG).unwrap(), 5);
    assert_eq!(s.read_int24(BIG).unwrap(), -5);
    assert_eq!(s.read_uint32(BIG).unwrap(), 6);
    assert_eq!(s.read_int32(BIG).unwrap(), -6);
    assert_eq!(s.read_uint64(BIG).unwrap(), 7);
    assert_eq!(s.read_u_long(BIG).unwrap(), 8);
    assert_eq!(s.read_int64(BIG).unwrap(), -7);
    assert_eq!(s.read_long(BIG).unwrap(), -8);
    assert_eq!(s.read_bool().unwrap(), true);
    assert_eq!(f32::from_bits(s.read_float32(BIG).unwrap()), 2.5);
    assert_eq!(f64::from_bits(s.read_float64(BIG).unwrap()), 3.5);
    assert!(s.cursor_at_end());
}
