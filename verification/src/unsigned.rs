//! The unsigned fixed-width codecs: 8-, 16-, 24-, 32- and 64-bit integers
//! and the one-byte boolean. Each reads and writes through the stream in the
//! requested byte order; 24-bit writes silently drop bits above the width.

use vstd::prelude::*;
use vstd::arithmetic::power2::{pow2, lemma2_to64};
use crate::endian::{Endianness, endian_of, resolve_endian};
use crate::error::BinaryError;
use crate::numeric::{be_val, fixed_val, fixed_bytes, read_fixed, write_fixed, lemma_fixed_val_bound};
use crate::stream::{BinaryStream, window, advanced, wrote, bounds_failed};

verus! {

/// An unsigned 8-bit integer codec.
pub struct Uint8 {}

/// An unsigned 16-bit integer codec.
pub struct Uint16 {}

/// An unsigned 24-bit integer codec, carried in a `u32`.
pub struct Uint24 {}

/// An unsigned 32-bit integer codec.
pub struct Uint32 {}

/// An unsigned 64-bit integer codec.
pub struct Uint64 {}

/// An unsigned 16-bit integer codec; the same wire format as `Uint16`.
pub struct UShort {}

/// An unsigned 64-bit integer codec; the same wire format as `Uint64`.
pub struct ULong {}

/// A one-byte boolean codec: zero decodes to `false`, anything else to
/// `true`; `true` encodes as 1 and `false` as 0.
pub struct Bool {}

impl Uint8 {
    /// Reads an unsigned 8-bit integer from the stream.
    pub fn read(stream: &mut BinaryStream) -> (r: Result<u8, BinaryError>)
        ensures
            match r {
                Ok(v) => v == window(*old(stream), 1)[0] && advanced(*old(stream), *final(stream), 1),
                Err(e) => e == BinaryError::BoundsError && bounds_failed(*old(stream), *final(stream), 1),
            },
    {
        match read_fixed(stream, 1, Endianness::Big) {
            Ok(v) => {
                proof {
                    let s = window(*old(stream), 1);
                    assert(s.drop_last() =~= Seq::<u8>::empty());
                    assert(be_val(s.drop_last()) == 0);
                    assert(be_val(s) == s[0]);
                }
                Ok(v as u8)
            },
            Err(e) => Err(e),
        }
    }

    /// Writes an unsigned 8-bit integer to the stream.
    pub fn write(stream: &mut BinaryStream, value: u8)
        ensures
            wrote(*old(stream), *final(stream), seq![value]),
    {
        let mut out: Vec<u8> = Vec::new();
        out.push(value);
        assert(out@ =~= seq![value]);
        stream.write(out);
    }
}

impl Uint16 {
    /// Reads an unsigned 16-bit integer from the stream in the given byte
    /// order.
    pub fn read(stream: &mut BinaryStream, endian: Option<Endianness>) -> (r: Result<
        u16,
        BinaryError,
    >)
        ensures
            match r {
                Ok(v) => v as nat == fixed_val(endian_of(endian), window(*old(stream), 2))
                    && advanced(*old(stream), *final(stream), 2),
                Err(e) => e == BinaryError::BoundsError && bounds_failed(*old(stream), *final(stream), 2),
            },
    {
        let e = resolve_endian(endian);
        match read_fixed(stream, 2, e) {
            Ok(v) => {
                proof {
                    lemma_fixed_val_bound(e, window(*old(stream), 2));
                    lemma2_to64();
                }
                Ok(v as u16)
            },
            Err(err) => Err(err),
        }
    }

    /// Writes an unsigned 16-bit integer to the stream in the given byte
    /// order.
    pub fn write(stream: &mut BinaryStream, value: u16, endian: Option<Endianness>)
        ensures
            wrote(*old(stream), *final(stream), fixed_bytes(endian_of(endian), value as nat, 2)),
    {
        let e = resolve_endian(endian);
        write_fixed(stream, value as u64, 2, e);
    }
}

impl Uint24 {
    /// Reads an unsigned 24-bit integer from the stream in the given byte
    /// order.
    pub fn read(stream: &mut BinaryStream, endian: Option<Endianness>) -> (r: Result<
        u32,
        BinaryError,
    >)
        ensures
            match r {
                Ok(v) => v as nat == fixed_val(endian_of(endian), window(*old(stream), 3))
                    && advanced(*old(stream), *final(stream), 3),
                Err(e) => e == BinaryError::BoundsError && bounds_failed(*old(stream), *final(stream), 3),
            },
    {
        let e = resolve_endian(endian);
        match read_fixed(stream, 3, e) {
            Ok(v) => {
                proof {
                    lemma_fixed_val_bound(e, window(*old(stream), 3));
                    lemma2_to64();
                }
                Ok(v as u32)
            },
            Err(err) => Err(err),
        }
    }

    /// Writes the low 24 bits of an unsigned integer to the stream in the
    /// given byte order; bits above the width are silently dropped.
    pub fn write(stream: &mut BinaryStream, value: u32, endian: Option<Endianness>)
        ensures
            wrote(*old(stream), *final(stream), fixed_bytes(endian_of(endian), value as nat, 3)),
    {
        let e = resolve_endian(endian);
        write_fixed(stream, value as u64, 3, e);
    }
}

impl Uint32 {
    /// Reads an unsigned 32-bit integer from the stream in the given byte
    /// order.
    pub fn read(stream: &mut BinaryStream, endian: Option<Endianness>) -> (r: Result<
        u32,
        BinaryError,
    >)
        ensures
            match r {
                Ok(v) => v as nat == fixed_val(endian_of(endian), window(*old(stream), 4))
                    && advanced(*old(stream), *final(stream), 4),
                Err(e) => e == BinaryError::BoundsError && bounds_failed(*old(stream), *final(stream), 4),
            },
    {
        let e = resolve_endian(endian);
        match read_fixed(stream, 4, e) {
            Ok(v) => {
                proof {
                    lemma_fixed_val_bound(e, window(*old(stream), 4));
                    lemma2_to64();
                }
                Ok(v as u32)
            },
            Err(err) => Err(err),
        }
    }

    /// Writes an unsigned 32-bit integer to the stream in the given byte
    /// order.
    pub fn write(stream: &mut BinaryStream, value: u32, endian: Option<Endianness>)
        ensures
            wrote(*old(stream), *final(stream), fixed_bytes(endian_of(endian), value as nat, 4)),
    {
        let e = resolve_endian(endian);
        write_fixed(stream, value as u64, 4, e);
    }
}

impl Uint64 {
    /// Reads an unsigned 64-bit integer from the stream in the given byte
    /// order.
    pub fn read(stream: &mut BinaryStream, endian: Option<Endianness>) -> (r: Result<
        u64,
        BinaryError,
    >)
        ensures
            match r {
                Ok(v) => v as nat == fixed_val(endian_of(endian), window(*old(stream), 8))
                    && advanced(*old(stream), *final(stream), 8),
                Err(e) => e == BinaryError::BoundsError && bounds_failed(*old(stream), *final(stream), 8),
            },
    {
        let e = resolve_endian(endian);
        read_fixed(stream, 8, e)
    }

    /// Writes an unsigned 64-bit integer to the stream in the given byte
    /// order.
    pub fn write(stream: &mut BinaryStream, value: u64, endian: Option<Endianness>)
        ensures
            wrote(*old(stream), *final(stream), fixed_bytes(endian_of(endian), value as nat, 8)),
    {
        let e = resolve_endian(endian);
        write_fixed(stream, value, 8, e);
    }
}

impl UShort {
    /// Reads an unsigned 16-bit integer from the stream in the given byte
    /// order.
    pub fn read(stream: &mut BinaryStream, endian: Option<Endianness>) -> (r: Result<
        u16,
        BinaryError,
    >)
        ensures
            match r {
                Ok(v) => v as nat == fixed_val(endian_of(endian), window(*old(stream), 2))
                    && advanced(*old(stream), *final(stream), 2),
                Err(e) => e == BinaryError::BoundsError && bounds_failed(*old(stream), *final(stream), 2),
            },
    {
        Uint16::read(stream, endian)
    }

    /// Writes an unsigned 16-bit integer to the stream in the given byte
    /// order.
    pub fn write(stream: &mut BinaryStream, value: u16, endian: Option<Endianness>)
        ensures
            wrote(*old(stream), *final(stream), fixed_bytes(endian_of(endian), value as nat, 2)),
    {
        Uint16::write(stream, value, endian);
    }
}

impl ULong {
    /// Reads an unsigned 64-bit integer from the stream in the given byte
    /// order.
    pub fn read(stream: &mut BinaryStream, endian: Option<Endianness>) -> (r: Result<
        u64,
        BinaryError,
    >)
        ensures
            match r {
                Ok(v) => v as nat == fixed_val(endian_of(endian), window(*old(stream), 8))
                    && advanced(*old(stream), *final(stream), 8),
                Err(e) => e == BinaryError::BoundsError && bounds_failed(*old(stream), *final(stream), 8),
            },
    {
        Uint64::read(stream, endian)
    }

    /// Writes an unsigned 64-bit integer to the stream in the given byte
    /// order.
    pub fn write(stream: &mut BinaryStream, value: u64, endian: Option<Endianness>)
        ensures
            wrote(*old(stream), *final(stream), fixed_bytes(endian_of(endian), value as nat, 8)),
    {
        Uint64::write(stream, value, endian);
    }
}

impl Bool {
    /// Reads a one-byte boolean from the stream; any nonzero byte decodes
    /// to `true`.
    pub fn read(stream: &mut BinaryStream) -> (r: Result<bool, BinaryError>)
        ensures
            match r {
                Ok(v) => v == (window(*old(stream), 1)[0] != 0) && advanced(*old(stream), *final(stream), 1),
                Err(e) => e == BinaryError::BoundsError && bounds_failed(*old(stream), *final(stream), 1),
            },
    {
        match Uint8::read(stream) {
            Ok(b) => Ok(b != 0),
            Err(e) => Err(e),
        }
    }

    /// Writes a boolean to the stream: `true` as the byte 1, `false` as
    /// the byte 0.
    pub fn write(stream: &mut BinaryStream, value: bool)
        ensures
            wrote(
                *old(stream),
                *final(stream),
                seq![if value { 1u8 } else { 0u8 }],
            ),
    {
        let byte: u8 = if value {
            1
        } else {
            0
        };
        Uint8::write(stream, byte);
    }
}

impl BinaryStream {
    /// Reads an unsigned 8-bit integer from the stream.
    pub fn read_uint8(&mut self) -> (r: Result<u8, BinaryError>)
        ensures
            match r {
                Ok(v) => v == window(*old(self), 1)[0] && advanced(*old(self), *final(self), 1),
                Err(e) => e == BinaryError::BoundsError && bounds_failed(*old(self), *final(self), 1),
            },
    {
        Uint8::read(self)
    }

    /// Writes an unsigned 8-bit integer to the stream.
    pub fn write_uint8(&mut self, value: u8)
        ensures
            wrote(*old(self), *final(self), seq![value]),
    {
        Uint8::write(self, value);
    }

    /// Reads an unsigned 16-bit integer from the stream in the given byte
    /// order.
    pub fn read_uint16(&mut self, endian: Option<Endianness>) -> (r: Result<u16, BinaryError>)
        ensures
            match r {
                Ok(v) => v as nat == fixed_val(endian_of(endian), window(*old(self), 2))
                    && advanced(*old(self), *final(self), 2),
                Err(e) => e == BinaryError::BoundsError && bounds_failed(*old(self), *final(self), 2),
            },
    {
        Uint16::read(self, endian)
    }

    /// Writes an unsigned 16-bit integer to the stream in the given byte
    /// order.
    pub fn write_uint16(&mut self, value: u16, endian: Option<Endianness>)
        ensures
            wrote(*old(self), *final(self), fixed_bytes(endian_of(endian), value as nat, 2)),
    {
        Uint16::write(self, value, endian);
    }

    /// Reads an unsigned 24-bit integer from the stream in the given byte
    /// order.
    pub fn read_uint24(&mut self, endian: Option<Endianness>) -> (r: Result<u32, BinaryError>)
        ensures
            match r {
                Ok(v) => v as nat == fixed_val(endian_of(endian), window(*old(self), 3))
                    && advanced(*old(self), *final(self), 3),
                Err(e) => e == BinaryError::BoundsError && bounds_failed(*old(self), *final(self), 3),
            },
    {
        Uint24::read(self, endian)
    }

    /// Writes the low 24 bits of an unsigned integer to the stream in the
    /// given byte order.
    pub fn write_uint24(&mut self, value: u32, endian: Option<Endianness>)
        ensures
            wrote(*old(self), *final(self), fixed_bytes(endian_of(endian), value as nat, 3)),
    {
        Uint24::write(self, value, endian);
    }

    /// Reads an unsigned 32-bit integer from the stream in the given byte
    /// order.
    pub fn read_uint32(&mut self, endian: Option<Endianness>) -> (r: Result<u32, BinaryError>)
        ensures
            match r {
                Ok(v) => v as nat == fixed_val(endian_of(endian), window(*old(self), 4))
                    && advanced(*old(self), *final(self), 4),
                Err(e) => e == BinaryError::BoundsError && bounds_failed(*old(self), *final(self), 4),
            },
    {
        Uint32::read(self, endian)
    }

    /// Writes an unsigned 32-bit integer to the stream in the given byte
    /// order.
    pub fn write_uint32(&mut self, value: u32, endian: Option<Endianness>)
        ensures
            wrote(*old(self), *final(self), fixed_bytes(endian_of(endian), value as nat, 4)),
    {
        Uint32::write(self, value, endian);
    }

    /// Reads an unsigned 64-bit integer from the stream in the given byte
    /// order.
    pub fn read_uint64(&mut self, endian: Option<Endianness>) -> (r: Result<u64, BinaryError>)
        ensures
            match r {
                Ok(v) => v as nat == fixed_val(endian_of(endian), window(*old(self), 8))
                    && advanced(*old(self), *final(self), 8),
                Err(e) => e == BinaryError::BoundsError && bounds_failed(*old(self), *final(self), 8),
            },
    {
        Uint64::read(self, endian)
    }

    /// Writes an unsigned 64-bit integer to the stream in the given byte
    /// order.
    pub fn write_uint64(&mut self, value: u64, endian: Option<Endianness>)
        ensures
            wrote(*old(self), *final(self), fixed_bytes(endian_of(endian), value as nat, 8)),
    {
        Uint64::write(self, value, endian);
    }

    /// Reads an unsigned 16-bit integer from the stream in the given byte
    /// order.
    pub fn read_u_short(&mut self, endian: Option<Endianness>) -> (r: Result<u16, BinaryError>)
        ensures
            match r {
                Ok(v) => v as nat == fixed_val(endian_of(endian), window(*old(self), 2))
                    && advanced(*old(self), *final(self), 2),
                Err(e) => e == BinaryError::BoundsError && bounds_failed(*old(self), *final(self), 2),
            },
    {
        UShort::read(self, endian)
    }

    /// Writes an unsigned 16-bit integer to the stream in the given byte
    /// order.
    pub fn write_u_short(&mut self, value: u16, endian: Option<Endianness>)
        ensures
            wrote(*old(self), *final(self), fixed_bytes(endian_of(endian), value as nat, 2)),
    {
        UShort::write(self, value, endian);
    }

    /// Reads an unsigned 64-bit integer from the stream in the given byte
    /// order.
    pub fn read_u_long(&mut self, endian: Option<Endianness>) -> (r: Result<u64, BinaryError>)
        ensures
            match r {
                Ok(v) => v as nat == fixed_val(endian_of(endian), window(*old(self), 8))
                    && advanced(*old(self), *final(self), 8),
                Err(e) => e == BinaryError::BoundsError && bounds_failed(*old(self), *final(self), 8),
            },
    {
        ULong::read(self, endian)
    }

    /// Writes an unsigned 64-bit integer to the stream in the given byte
    /// order.
    pub fn write_u_long(&mut self, value: u64, endian: Option<Endianness>)
        ensures
            wrote(*old(self), *final(self), fixed_bytes(endian_of(endian), value as nat, 8)),
    {
        ULong::write(self, value, endian);
    }

    /// Reads a one-byte boolean from the stream.
    pub fn read_bool(&mut self) -> (r: Result<bool, BinaryError>)
        ensures
            match r {
                Ok(v) => v == (window(*old(self), 1)[0] != 0) && advanced(*old(self), *final(self), 1),
                Err(e) => e == BinaryError::BoundsError && bounds_failed(*old(self), *final(self), 1),
            },
    {
        Bool::read(self)
    }

    /// Writes a boolean to the stream.
    pub fn write_bool(&mut self, value: bool)
        ensures
            wrote(
                *old(self),
                *final(self),
                seq![if value { 1u8 } else { 0u8 }],
            ),
    {
        Bool::write(self, value);
    }
}

} // verus!
