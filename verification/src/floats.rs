//! The floating-point codecs. The wire format is the 4- or 8-byte IEEE-754
//! bit pattern in the chosen byte order; the codecs here move that pattern
//! as an unsigned integer, bit for bit. Turning a number into its bit
//! pattern, and narrowing a double to single precision before a 32-bit
//! write, is the caller's side of the boundary: the adapter around the
//! library converts with `to_bits` and `from_bits`.

use vstd::prelude::*;
use crate::endian::{Endianness, endian_of};
use crate::error::BinaryError;
use crate::numeric::{fixed_val, fixed_bytes};
use crate::stream::{BinaryStream, window, advanced, wrote, bounds_failed};

verus! {

/// A 32-bit IEEE-754 codec over single-precision bit patterns.
pub struct Float32 {}

/// A 64-bit IEEE-754 codec over double-precision bit patterns.
pub struct Float64 {}

impl Float32 {
    /// Reads the 4-byte bit pattern of a single-precision value from the
    /// stream in the given byte order.
    pub fn read(stream: &mut BinaryStream, endian: Option<Endianness>) -> (r: Result<
        u32,
        BinaryError,
    >)
        ensures
            match r {
                Ok(v) => v as nat == fixed_val(endian_of(endian), window(*old(stream), 4))
                    && advanced(*old(stream), *final(stream), 4),
                Err(e) => e == BinaryError::BoundsError && bounds_failed(*old(stream), *final(stream), 4),
            },
    {
        crate::unsigned::Uint32::read(stream, endian)
    }

    /// Writes the 4-byte bit pattern of a single-precision value to the
    /// stream in the given byte order.
    pub fn write(stream: &mut BinaryStream, value: u32, endian: Option<Endianness>)
        ensures
            wrote(*old(stream), *final(stream), fixed_bytes(endian_of(endian), value as nat, 4)),
    {
        crate::unsigned::Uint32::write(stream, value, endian);
    }
}

impl Float64 {
    /// Reads the 8-byte bit pattern of a double-precision value from the
    /// stream in the given byte order.
    pub fn read(stream: &mut BinaryStream, endian: Option<Endianness>) -> (r: Result<
        u64,
        BinaryError,
    >)
        ensures
            match r {
                Ok(v) => v as nat == fixed_val(endian_of(endian), window(*old(stream), 8))
                    && advanced(*old(stream), *final(stream), 8),
                Err(e) => e == BinaryError::BoundsError && bounds_failed(*old(stream), *final(stream), 8),
            },
    {
        crate::unsigned::Uint64::read(stream, endian)
    }

    /// Writes the 8-byte bit pattern of a double-precision value to the
    /// stream in the given byte order.
    pub fn write(stream: &mut BinaryStream, value: u64, endian: Option<Endianness>)
        ensures
            wrote(*old(stream), *final(stream), fixed_bytes(endian_of(endian), value as nat, 8)),
    {
        crate::unsigned::Uint64::write(stream, value, endian);
    }
}

impl BinaryStream {
    /// Reads the 4-byte bit pattern of a single-precision value from the
    /// stream in the given byte order.
    pub fn read_float32(&mut self, endian: Option<Endianness>) -> (r: Result<u32, BinaryError>)
        ensures
            match r {
                Ok(v) => v as nat == fixed_val(endian_of(endian), window(*old(self), 4))
                    && advanced(*old(self), *final(self), 4),
                Err(e) => e == BinaryError::BoundsError && bounds_failed(*old(self), *final(self), 4),
            },
    {
        Float32::read(self, endian)
    }

    /// Writes the 4-byte bit pattern of a single-precision value to the
    /// stream in the given byte order.
    pub fn write_float32(&mut self, value: u32, endian: Option<Endianness>)
        ensures
            wrote(*old(self), *final(self), fixed_bytes(endian_of(endian), value as nat, 4)),
    {
        Float32::write(self, value, endian);
    }

    /// Reads the 8-byte bit pattern of a double-precision value from the
    /// stream in the given byte order.
    pub fn read_float64(&mut self, endian: Option<Endianness>) -> (r: Result<u64, BinaryError>)
        ensures
            match r {
                Ok(v) => v as nat == fixed_val(endian_of(endian), window(*old(self), 8))
                    && advanced(*old(self), *final(self), 8),
                Err(e) => e == BinaryError::BoundsError && bounds_failed(*old(self), *final(self), 8),
            },
    {
        Float64::read(self, endian)
    }

    /// Writes the 8-byte bit pattern of a double-precision value to the
    /// stream in the given byte order.
    pub fn write_float64(&mut self, value: u64, endian: Option<Endianness>)
        ensures
            wrote(*old(self), *final(self), fixed_bytes(endian_of(endian), value as nat, 8)),
    {
        Float64::write(self, value, endian);
    }
}

} // verus!
