//! The signed fixed-width codecs: 8-, 16-, 24-, 32- and 64-bit integers in
//! two's-complement form. A 24-bit write keeps the low 24 bits of the 32-bit
//! bit pattern; a 24-bit read sign-extends them back.

use vstd::prelude::*;
use vstd::arithmetic::power2::{pow2, lemma2_to64, lemma2_to64_rest};
use crate::endian::{Endianness, endian_of, resolve_endian};
use crate::error::BinaryError;
use crate::numeric::{
    fixed_val,
    fixed_bytes,
    to_signed,
    to_unsigned,
    read_fixed,
    write_fixed,
    lemma_fixed_val_bound,
};
use crate::stream::{BinaryStream, window, advanced, wrote, bounds_failed};

verus! {

/// A signed 8-bit integer codec.
pub struct Int8 {}

/// A signed 16-bit integer codec.
pub struct Int16 {}

/// A signed 24-bit integer codec, carried in an `i32`.
pub struct Int24 {}

/// A signed 32-bit integer codec.
pub struct Int32 {}

/// A signed 64-bit integer codec.
pub struct Int64 {}

/// A signed 16-bit integer codec; the same wire format as `Int16`.
pub struct Short {}

/// A signed 64-bit integer codec; the same wire format as `Int64`.
pub struct Long {}

impl Int8 {
    /// Reads a signed 8-bit integer from the stream.
    pub fn read(stream: &mut BinaryStream) -> (r: Result<i8, BinaryError>)
        ensures
            match r {
                Ok(v) => v as int == to_signed(window(*old(stream), 1)[0] as nat, 8) && advanced(
                    *old(stream),
                    *final(stream),
                    1,
                ),
                Err(e) => e == BinaryError::BoundsError && bounds_failed(*old(stream), *final(stream), 1),
            },
    {
        match crate::unsigned::Uint8::read(stream) {
            Ok(u) => {
                proof {
                    lemma2_to64();
                }
                if u < 0x80 {
                    Ok(u as i8)
                } else {
                    Ok(-((0xFFu8 - u) as i8) - 1)
                }
            },
            Err(e) => Err(e),
        }
    }

    /// Writes a signed 8-bit integer to the stream as its two's-complement
    /// byte.
    pub fn write(stream: &mut BinaryStream, value: i8)
        ensures
            wrote(*old(stream), *final(stream), seq![to_unsigned(value as int, 8) as u8]),
    {
        proof {
            lemma2_to64();
        }
        let u: u8 = if value >= 0 {
            value as u8
        } else {
            ((value as i16) + 256) as u8
        };
        crate::unsigned::Uint8::write(stream, u);
    }
}

impl Int16 {
    /// Reads a signed 16-bit integer from the stream in the given byte
    /// order.
    pub fn read(stream: &mut BinaryStream, endian: Option<Endianness>) -> (r: Result<
        i16,
        BinaryError,
    >)
        ensures
            match r {
                Ok(v) => v as int == to_signed(fixed_val(endian_of(endian), window(*old(stream), 2)), 16)
                    && advanced(*old(stream), *final(stream), 2),
                Err(e) => e == BinaryError::BoundsError && bounds_failed(*old(stream), *final(stream), 2),
            },
    {
        let e = resolve_endian(endian);
        match read_fixed(stream, 2, e) {
            Ok(u) => {
                proof {
                    lemma_fixed_val_bound(e, window(*old(stream), 2));
                    lemma2_to64();
                }
                if u < 0x8000 {
                    Ok(u as i16)
                } else {
                    Ok(-((0xFFFFu64 - u) as i16) - 1)
                }
            },
            Err(err) => Err(err),
        }
    }

    /// Writes a signed 16-bit integer to the stream as its two's-complement
    /// bit pattern in the given byte order.
    pub fn write(stream: &mut BinaryStream, value: i16, endian: Option<Endianness>)
        ensures
            wrote(
                *old(stream),
                *final(stream),
                fixed_bytes(endian_of(endian), to_unsigned(value as int, 16), 2),
            ),
    {
        proof {
            lemma2_to64();
        }
        let e = resolve_endian(endian);
        let u: u64 = if value >= 0 {
            value as u64
        } else {
            ((value as i64) + 0x10000) as u64
        };
        write_fixed(stream, u, 2, e);
    }
}

impl Int24 {
    /// Reads a signed 24-bit integer from the stream in the given byte
    /// order, sign-extending the 24-bit pattern.
    pub fn read(stream: &mut BinaryStream, endian: Option<Endianness>) -> (r: Result<
        i32,
        BinaryError,
    >)
        ensures
            match r {
                Ok(v) => v as int == to_signed(fixed_val(endian_of(endian), window(*old(stream), 3)), 24)
                    && advanced(*old(stream), *final(stream), 3),
                Err(e) => e == BinaryError::BoundsError && bounds_failed(*old(stream), *final(stream), 3),
            },
    {
        let e = resolve_endian(endian);
        match read_fixed(stream, 3, e) {
            Ok(u) => {
                proof {
                    lemma_fixed_val_bound(e, window(*old(stream), 3));
                    lemma2_to64();
                }
                if u < 0x800000 {
                    Ok(u as i32)
                } else {
                    Ok(-((0xFFFFFFu64 - u) as i32) - 1)
                }
            },
            Err(err) => Err(err),
        }
    }

    /// Writes the low 24 bits of a signed integer's two's-complement bit
    /// pattern to the stream in the given byte order; bits above the width
    /// are silently dropped.
    pub fn write(stream: &mut BinaryStream, value: i32, endian: Option<Endianness>)
        ensures
            wrote(
                *old(stream),
                *final(stream),
                fixed_bytes(endian_of(endian), to_unsigned(value as int, 32), 3),
            ),
    {
        proof {
            lemma2_to64();
        }
        let e = resolve_endian(endian);
        let u: u64 = if value >= 0 {
            value as u64
        } else {
            ((value as i64) + 0x100000000) as u64
        };
        write_fixed(stream, u, 3, e);
    }
}

impl Int32 {
    /// Reads a signed 32-bit integer from the stream in the given byte
    /// order.
    pub fn read(stream: &mut BinaryStream, endian: Option<Endianness>) -> (r: Result<
        i32,
        BinaryError,
    >)
        ensures
            match r {
                Ok(v) => v as int == to_signed(fixed_val(endian_of(endian), window(*old(stream), 4)), 32)
                    && advanced(*old(stream), *final(stream), 4),
                Err(e) => e == BinaryError::BoundsError && bounds_failed(*old(stream), *final(stream), 4),
            },
    {
        let e = resolve_endian(endian);
        match read_fixed(stream, 4, e) {
            Ok(u) => {
                proof {
                    lemma_fixed_val_bound(e, window(*old(stream), 4));
                    lemma2_to64();
                }
                if u < 0x80000000 {
                    Ok(u as i32)
                } else {
                    Ok(-((0xFFFFFFFFu64 - u) as i32) - 1)
                }
            },
            Err(err) => Err(err),
        }
    }

    /// Writes a signed 32-bit integer to the stream as its two's-complement
    /// bit pattern in the given byte order.
    pub fn write(stream: &mut BinaryStream, value: i32, endian: Option<Endianness>)
        ensures
            wrote(
                *old(stream),
                *final(stream),
                fixed_bytes(endian_of(endian), to_unsigned(value as int, 32), 4),
            ),
    {
        proof {
            lemma2_to64();
        }
        let e = resolve_endian(endian);
        let u: u64 = if value >= 0 {
            value as u64
        } else {
            ((value as i64) + 0x100000000) as u64
        };
        write_fixed(stream, u, 4, e);
    }
}

impl Int64 {
    /// Reads a signed 64-bit integer from the stream in the given byte
    /// order.
    pub fn read(stream: &mut BinaryStream, endian: Option<Endianness>) -> (r: Result<
        i64,
        BinaryError,
    >)
        ensures
            match r {
                Ok(v) => v as int == to_signed(fixed_val(endian_of(endian), window(*old(stream), 8)), 64)
                    && advanced(*old(stream), *final(stream), 8),
                Err(e) => e == BinaryError::BoundsError && bounds_failed(*old(stream), *final(stream), 8),
            },
    {
        let e = resolve_endian(endian);
        match read_fixed(stream, 8, e) {
            Ok(u) => {
                proof {
                    lemma_fixed_val_bound(e, window(*old(stream), 8));
                    lemma2_to64();
                    lemma2_to64_rest();
                }
                if u < 0x8000000000000000 {
                    Ok(u as i64)
                } else {
                    Ok(-((0xFFFFFFFFFFFFFFFFu64 - u) as i64) - 1)
                }
            },
            Err(err) => Err(err),
        }
    }

    /// Writes a signed 64-bit integer to the stream as its two's-complement
    /// bit pattern in the given byte order.
    pub fn write(stream: &mut BinaryStream, value: i64, endian: Option<Endianness>)
        ensures
            wrote(
                *old(stream),
                *final(stream),
                fixed_bytes(endian_of(endian), to_unsigned(value as int, 64), 8),
            ),
    {
        proof {
            lemma2_to64();
            lemma2_to64_rest();
        }
        let e = resolve_endian(endian);
        let u: u64 = if value >= 0 {
            value as u64
        } else {
            0xFFFFFFFFFFFFFFFFu64 - ((-(value + 1)) as u64)
        };
        write_fixed(stream, u, 8, e);
    }
}

impl Short {
    /// Reads a signed 16-bit integer from the stream in the given byte
    /// order.
    pub fn read(stream: &mut BinaryStream, endian: Option<Endianness>) -> (r: Result<
        i16,
        BinaryError,
    >)
        ensures
            match r {
                Ok(v) => v as int == to_signed(fixed_val(endian_of(endian), window(*old(stream), 2)), 16)
                    && advanced(*old(stream), *final(stream), 2),
                Err(e) => e == BinaryError::BoundsError && bounds_failed(*old(stream), *final(stream), 2),
            },
    {
        Int16::read(stream, endian)
    }

    /// Writes a signed 16-bit integer to the stream in the given byte
    /// order.
    pub fn write(stream: &mut BinaryStream, value: i16, endian: Option<Endianness>)
        ensures
            wrote(
                *old(stream),
                *final(stream),
                fixed_bytes(endian_of(endian), to_unsigned(value as int, 16), 2),
            ),
    {
        Int16::write(stream, value, endian);
    }
}

impl Long {
    /// Reads a signed 64-bit integer from the stream in the given byte
    /// order.
    pub fn read(stream: &mut BinaryStream, endian: Option<Endianness>) -> (r: Result<
        i64,
        BinaryError,
    >)
        ensures
            match r {
                Ok(v) => v as int == to_signed(fixed_val(endian_of(endian), window(*old(stream), 8)), 64)
                    && advanced(*old(stream), *final(stream), 8),
                Err(e) => e == BinaryError::BoundsError && bounds_failed(*old(stream), *final(stream), 8),
            },
    {
        Int64::read(stream, endian)
    }

    /// Writes a signed 64-bit integer to the stream in the given byte
    /// order.
    pub fn write(stream: &mut BinaryStream, value: i64, endian: Option<Endianness>)
        ensures
            wrote(
                *old(stream),
                *final(stream),
                fixed_bytes(endian_of(endian), to_unsigned(value as int, 64), 8),
            ),
    {
        Int64::write(stream, value, endian);
    }
}

impl BinaryStream {
    /// Reads a signed 8-bit integer from the stream.
    pub fn read_int8(&mut self) -> (r: Result<i8, BinaryError>)
        ensures
            match r {
                Ok(v) => v as int == to_signed(window(*old(self), 1)[0] as nat, 8) && advanced(
                    *old(self),
                    *final(self),
                    1,
                ),
                Err(e) => e == BinaryError::BoundsError && bounds_failed(*old(self), *final(self), 1),
            },
    {
        Int8::read(self)
    }

    /// Writes a signed 8-bit integer to the stream.
    pub fn write_int8(&mut self, value: i8)
        ensures
            wrote(*old(self), *final(self), seq![to_unsigned(value as int, 8) as u8]),
    {
        Int8::write(self, value);
    }

    /// Reads a signed 8-bit integer from the stream.
    pub fn read_byte(&mut self) -> (r: Result<i8, BinaryError>)
        ensures
            match r {
                Ok(v) => v as int == to_signed(window(*old(self), 1)[0] as nat, 8) && advanced(
                    *old(self),
                    *final(self),
                    1,
                ),
                Err(e) => e == BinaryError::BoundsError && bounds_failed(*old(self), *final(self), 1),
            },
    {
        Int8::read(self)
    }

    /// Writes a signed 8-bit integer to the stream.
    pub fn write_byte(&mut self, value: i8)
        ensures
            wrote(*old(self), *final(self), seq![to_unsigned(value as int, 8) as u8]),
    {
        Int8::write(self, value);
    }

    /// Reads a signed 16-bit integer from the stream in the given byte
    /// order.
    pub fn read_int16(&mut self, endian: Option<Endianness>) -> (r: Result<i16, BinaryError>)
        ensures
            match r {
                Ok(v) => v as int == to_signed(fixed_val(endian_of(endian), window(*old(self), 2)), 16)
                    && advanced(*old(self), *final(self), 2),
                Err(e) => e == BinaryError::BoundsError && bounds_failed(*old(self), *final(self), 2),
            },
    {
        Int16::read(self, endian)
    }

    /// Writes a signed 16-bit integer to the stream in the given byte
    /// order.
    pub fn write_int16(&mut self, value: i16, endian: Option<Endianness>)
        ensures
            wrote(
                *old(self),
                *final(self),
                fixed_bytes(endian_of(endian), to_unsigned(value as int, 16), 2),
            ),
    {
        Int16::write(self, value, endian);
    }

    /// Reads a signed 16-bit integer from the stream in the given byte
    /// order.
    pub fn read_short(&mut self, endian: Option<Endianness>) -> (r: Result<i16, BinaryError>)
        ensures
            match r {
                Ok(v) => v as int == to_signed(fixed_val(endian_of(endian), window(*old(self), 2)), 16)
                    && advanced(*old(self), *final(self), 2),
                Err(e) => e == BinaryError::BoundsError && bounds_failed(*old(self), *final(self), 2),
            },
    {
        Short::read(self, endian)
    }

    /// Writes a signed 16-bit integer to the stream in the given byte
    /// order.
    pub fn write_short(&mut self, value: i16, endian: Option<Endianness>)
        ensures
            wrote(
                *old(self),
                *final(self),
                fixed_bytes(endian_of(endian), to_unsigned(value as int, 16), 2),
            ),
    {
        Short::write(self, value, endian);
    }

    /// Reads a signed 24-bit integer from the stream in the given byte
    /// order.
    pub fn read_int24(&mut self, endian: Option<Endianness>) -> (r: Result<i32, BinaryError>)
        ensures
            match r {
                Ok(v) => v as int == to_signed(fixed_val(endian_of(endian), window(*old(self), 3)), 24)
                    && advanced(*old(self), *final(self), 3),
                Err(e) => e == BinaryError::BoundsError && bounds_failed(*old(self), *final(self), 3),
            },
    {
        Int24::read(self, endian)
    }

    /// Writes a signed 24-bit integer to the stream in the given byte
    /// order.
    pub fn write_int24(&mut self, value: i32, endian: Option<Endianness>)
        ensures
            wrote(
                *old(self),
                *final(self),
                fixed_bytes(endian_of(endian), to_unsigned(value as int, 32), 3),
            ),
    {
        Int24::write(self, value, endian);
    }

    /// Reads a signed 32-bit integer from the stream in the given byte
    /// order.
    pub fn read_int32(&mut self, endian: Option<Endianness>) -> (r: Result<i32, BinaryError>)
        ensures
            match r {
                Ok(v) => v as int == to_signed(fixed_val(endian_of(endian), window(*old(self), 4)), 32)
                    && advanced(*old(self), *final(self), 4),
                Err(e) => e == BinaryError::BoundsError && bounds_failed(*old(self), *final(self), 4),
            },
    {
        Int32::read(self, endian)
    }

    /// Writes a signed 32-bit integer to the stream in the given byte
    /// order.
    pub fn write_int32(&mut self, value: i32, endian: Option<Endianness>)
        ensures
            wrote(
                *old(self),
                *final(self),
                fixed_bytes(endian_of(endian), to_unsigned(value as int, 32), 4),
            ),
    {
        Int32::write(self, value, endian);
    }

    /// Reads a signed 64-bit integer from the stream in the given byte
    /// order.
    pub fn read_int64(&mut self, endian: Option<Endianness>) -> (r: Result<i64, BinaryError>)
        ensures
            match r {
                Ok(v) => v as int == to_signed(fixed_val(endian_of(endian), window(*old(self), 8)), 64)
                    && advanced(*old(self), *final(self), 8),
                Err(e) => e == BinaryError::BoundsError && bounds_failed(*old(self), *final(self), 8),
            },
    {
        Int64::read(self, endian)
    }

    /// Writes a signed 64-bit integer to the stream in the given byte
    /// order.
    pub fn write_int64(&mut self, value: i64, endian: Option<Endianness>)
        ensures
            wrote(
                *old(self),
                *final(self),
                fixed_bytes(endian_of(endian), to_unsigned(value as int, 64), 8),
            ),
    {
        Int64::write(self, value, endian);
    }

    /// Reads a signed 64-bit integer from the stream in the given byte
    /// order.
    pub fn read_long(&mut self, endian: Option<Endianness>) -> (r: Result<i64, BinaryError>)
        ensures
            match r {
                Ok(v) => v as int == to_signed(fixed_val(endian_of(endian), window(*old(self), 8)), 64)
                    && advanced(*old(self), *final(self), 8),
                Err(e) => e == BinaryError::BoundsError && bounds_failed(*old(self), *final(self), 8),
            },
    {
        Long::read(self, endian)
    }

    /// Writes a signed 64-bit integer to the stream in the given byte
    /// order.
    pub fn write_long(&mut self, value: i64, endian: Option<Endianness>)
        ensures
            wrote(
                *old(self),
                *final(self),
                fixed_bytes(endian_of(endian), to_unsigned(value as int, 64), 8),
            ),
    {
        Long::write(self, value, endian);
    }
}

} // verus!
