//! The variable-length integer codecs: unsigned base-128 with a continuation
//! bit (32- and 64-bit domains) and their zigzag-mapped signed variants.
//! Each byte carries seven payload bits, lowest group first, and its high bit
//! says whether another group follows. A decode gives up after five groups
//! (32-bit domain) or ten (64-bit domain).

use vstd::prelude::*;
use vstd::arithmetic::power2::{
    pow2,
    lemma_pow2_adds,
    lemma_pow2_strictly_increases,
    lemma2_to64,
    lemma2_to64_rest,
};
use vstd::arithmetic::div_mod::{
    lemma_breakdown,
    lemma_small_mod,
    lemma_mod_mod,
    lemma_fundamental_div_mod,
    lemma_fundamental_div_mod_converse,
};
use crate::error::BinaryError;
use crate::stream::{BinaryStream, rest_from, wrote, advanced};

verus! {

/// An unsigned base-128 variable-length codec over the 32-bit domain.
pub struct VarInt {}

/// An unsigned base-128 variable-length codec over the 64-bit domain.
pub struct VarLong {}

/// A zigzag-mapped signed variable-length codec over the 32-bit domain.
pub struct ZigZag {}

/// A zigzag-mapped signed variable-length codec over the 64-bit domain.
pub struct ZigZong {}

/// The base-128 encoding of an unsigned value: seven payload bits per byte,
/// lowest group first, the high bit of each byte set exactly when more
/// groups follow. The encoding is minimal: the last group is never zero
/// unless the value itself is.
pub open spec fn varint_bytes(v: nat) -> Seq<u8>
    decreases v,
{
    if v < 128 {
        seq![v as u8]
    } else {
        seq![(v % 128 + 128) as u8] + varint_bytes(v / 128)
    }
}

/// What a base-128 decode limited to `max` groups finds at the head of a
/// byte sequence.
pub enum VarDecode {
    /// A terminated encoding of this value, this many bytes long.
    Complete(nat, nat),
    /// `max` groups passed without a terminator.
    TooLong,
    /// The bytes ran out before a terminator.
    Truncated,
}

/// Decodes a base-128 group sequence from the head of `s`, reading at most
/// `max` groups.
pub open spec fn var_decode(s: Seq<u8>, max: nat) -> VarDecode
    decreases max,
{
    if max == 0 {
        VarDecode::TooLong
    } else if s.len() == 0 {
        VarDecode::Truncated
    } else if s[0] < 128 {
        VarDecode::Complete(s[0] as nat, 1)
    } else {
        match var_decode(s.skip(1), (max - 1) as nat) {
            VarDecode::Complete(v, n) => VarDecode::Complete(
                ((s[0] - 128) + v * 128) as nat,
                n + 1,
            ),
            VarDecode::TooLong => VarDecode::TooLong,
            VarDecode::Truncated => VarDecode::Truncated,
        }
    }
}

/// The zigzag mapping from signed to unsigned values: a non-negative `v`
/// maps to `2 * v`, a negative `v` to `-2 * v - 1`, so values of small
/// magnitude map to small unsigned values.
pub open spec fn zigzag(v: int) -> nat {
    if v >= 0 {
        (2 * v) as nat
    } else {
        (-2 * v - 1) as nat
    }
}

/// The inverse of the zigzag mapping: an even `u` maps to `u / 2`, an odd
/// `u` to `-(u / 2) - 1`.
pub open spec fn unzigzag(u: nat) -> int {
    if u % 2 == 0 {
        (u / 2) as int
    } else {
        -((u / 2) as int) - 1
    }
}

/// Unzigzag is the exact inverse of zigzag, over every signed value.
pub proof fn lemma_zigzag_round_trip(v: int)
    ensures
        unzigzag(zigzag(v)) == v,
{
    if v >= 0 {
        lemma_fundamental_div_mod_converse(2 * v, 2, v, 0);
    } else {
        lemma_fundamental_div_mod_converse(-2 * v - 1, 2, -v - 1, 1);
    }
}

/// Zigzag is the exact inverse of unzigzag, over every unsigned value.
pub proof fn lemma_unzigzag_round_trip(u: nat)
    ensures
        zigzag(unzigzag(u)) == u,
{
    lemma_fundamental_div_mod(u as int, 2);
}

/// A value below `pow2(7 * k)` encodes in at most `k` groups: the encoding
/// never uses more groups than the value needs.
pub proof fn lemma_varint_bytes_minimal(v: nat, k: nat)
    requires
        k >= 1,
        v < pow2(7 * k),
    ensures
        varint_bytes(v).len() <= k,
    decreases k,
{
    assert(pow2(7) == 128) by {
        lemma2_to64();
    }
    if v < 128 {
    } else {
        if k == 1 {
            assert(false);
        } else {
            lemma_pow2_adds(7, 7 * (k - 1) as nat);
            assert(v / 128 < pow2(7 * (k - 1) as nat)) by {
                lemma_fundamental_div_mod(v as int, 128);
            }
            lemma_varint_bytes_minimal(v / 128, (k - 1) as nat);
        }
    }
}

/// A value that encodes in at most `k` groups lies below `pow2(7 * k)`.
pub proof fn lemma_varint_bytes_bound(v: nat, k: nat)
    requires
        varint_bytes(v).len() <= k,
    ensures
        v < pow2(7 * k),
    decreases v,
{
    assert(pow2(7) == 128) by {
        lemma2_to64();
    }
    if v < 128 {
        if 7 * k > 7 {
            lemma_pow2_strictly_increases(7, 7 * k);
        }
    } else {
        lemma_pow2_adds(7, 7 * (k - 1) as nat);
        lemma_varint_bytes_bound(v / 128, (k - 1) as nat);
        lemma_fundamental_div_mod(v as int, 128);
    }
}

/// Decoding an encoding finds exactly the encoded value and consumes
/// exactly its bytes, whatever follows them, whenever the group budget
/// accommodates the encoding.
pub proof fn lemma_var_decode_encode(v: nat, tail: Seq<u8>, max: nat)
    requires
        varint_bytes(v).len() <= max,
    ensures
        var_decode(varint_bytes(v) + tail, max) == VarDecode::Complete(v, varint_bytes(v).len()),
    decreases v,
{
    let s = varint_bytes(v) + tail;
    if v < 128 {
        assert(s[0] == v as u8);
    } else {
        assert(s[0] == (v % 128 + 128) as u8);
        assert(s.skip(1) =~= varint_bytes(v / 128) + tail);
        lemma_var_decode_encode(v / 128, tail, (max - 1) as nat);
        lemma_fundamental_div_mod(v as int, 128);
    }
}

/// Decodes at most `max` base-128 groups of `binary` starting at `pos`,
/// returning the value reduced to 64 bits and the number of bytes consumed.
fn decode_base128(binary: &Vec<u8>, pos: usize, max: usize) -> (r: Result<
    (u64, usize),
    BinaryError,
>)
    ensures
        match var_decode(rest_from(binary@, pos as nat), max as nat) {
            VarDecode::Complete(v, n) => r matches Ok(p) && p.0 as nat == v % pow2(64) && p.1 == n
                && pos + n <= binary@.len(),
            VarDecode::TooLong => r matches Err(e) && e == BinaryError::MalformedVarint,
            VarDecode::Truncated => r matches Err(e) && e == BinaryError::BoundsError,
        },
    decreases max,
{
    proof {
        lemma2_to64();
        lemma2_to64_rest();
    }
    if max == 0 {
        return Err(BinaryError::MalformedVarint);
    }
    let len = binary.len();
    if pos >= len {
        return Err(BinaryError::BoundsError);
    }
    let b = binary[pos];
    let ghost s = rest_from(binary@, pos as nat);
    proof {
        assert(s[0] == b);
    }
    if b < 128 {
        proof {
            lemma_small_mod(b as nat, pow2(64));
        }
        Ok((b as u64, 1))
    } else {
        proof {
            assert(s.skip(1) =~= rest_from(binary@, (pos + 1) as nat));
        }
        match decode_base128(binary, pos + 1, max - 1) {
            Ok((v, n)) => {
                let low = (b - 128) as u64;
                let trimmed = v % 0x200000000000000u64;
                let out = low + trimmed * 128;
                proof {
                    let vfull = (match var_decode(s.skip(1), (max - 1) as nat) {
                        VarDecode::Complete(x, _) => x,
                        _ => 0,
                    });
                    let x = (low + vfull * 128) as int;
                    lemma_pow2_adds(57, 7);
                    lemma_mod_mod(vfull as int, pow2(57) as int, pow2(7) as int);
                    assert(trimmed as nat == vfull % pow2(57));
                    lemma_breakdown(x, 128, pow2(57) as int);
                    lemma_fundamental_div_mod_converse(x, 128, vfull as int, low as int);
                    assert(out as nat == ((low + vfull * 128) as nat) % pow2(64));
                }
                Ok((out, n + 1))
            },
            Err(e) => Err(e),
        }
    }
}

impl VarInt {
    /// Reads an unsigned 32-bit variable-length integer from the stream:
    /// at most five groups, the payload reduced to 32 bits. Fails with
    /// `MalformedVarint` when five groups pass without a terminator and
    /// with `BoundsError` when the buffer ends first; a failed read moves
    /// nothing.
    pub fn read(stream: &mut BinaryStream) -> (r: Result<u32, BinaryError>)
        ensures
            (match var_decode(rest_from(old(stream).binary@, old(stream).offset as nat), 5) {
                VarDecode::Complete(v, n) => r matches Ok(x) && x as nat == v % pow2(32)
                    && advanced(*old(stream), *final(stream), n as int),
                VarDecode::TooLong => r matches Err(e) && e == BinaryError::MalformedVarint
                    && *final(stream) == *old(stream),
                VarDecode::Truncated => r matches Err(e) && e == BinaryError::BoundsError
                    && *final(stream) == *old(stream),
            }),
    {
        let len = stream.binary.len();
        match decode_base128(&stream.binary, stream.offset, 5) {
            Ok((v, n)) => {
                proof {
                    lemma2_to64();
                    lemma_pow2_adds(32, 32);
                    match var_decode(
                        rest_from(old(stream).binary@, old(stream).offset as nat),
                        5,
                    ) {
                        VarDecode::Complete(vfull, _) => {
                            lemma_mod_mod(vfull as int, pow2(32) as int, pow2(32) as int);
                        },
                        _ => {},
                    }
                }
                stream.offset = stream.offset + n;
                Ok((v % 0x100000000u64) as u32)
            },
            Err(e) => Err(e),
        }
    }

    /// Writes an unsigned 32-bit variable-length integer to the stream,
    /// using the minimal number of groups.
    pub fn write(stream: &mut BinaryStream, value: u32)
        ensures
            wrote(*old(stream), *final(stream), varint_bytes(value as nat)),
        decreases value,
    {
        let byte = (value % 128) as u8;
        let rest = value / 128;
        if rest == 0 {
            crate::unsigned::Uint8::write(stream, byte);
            assert(final(stream).binary@ =~= old(stream).binary@ + varint_bytes(value as nat));
        } else {
            crate::unsigned::Uint8::write(stream, byte + 128);
            VarInt::write(stream, rest);
            assert(final(stream).binary@ =~= old(stream).binary@ + varint_bytes(value as nat));
        }
    }
}

impl VarLong {
    /// Reads an unsigned 64-bit variable-length integer from the stream:
    /// at most ten groups, the payload reduced to 64 bits. Fails with
    /// `MalformedVarint` when ten groups pass without a terminator and
    /// with `BoundsError` when the buffer ends first; a failed read moves
    /// nothing.
    pub fn read(stream: &mut BinaryStream) -> (r: Result<u64, BinaryError>)
        ensures
            (match var_decode(rest_from(old(stream).binary@, old(stream).offset as nat), 10) {
                VarDecode::Complete(v, n) => r matches Ok(x) && x as nat == v % pow2(64)
                    && advanced(*old(stream), *final(stream), n as int),
                VarDecode::TooLong => r matches Err(e) && e == BinaryError::MalformedVarint
                    && *final(stream) == *old(stream),
                VarDecode::Truncated => r matches Err(e) && e == BinaryError::BoundsError
                    && *final(stream) == *old(stream),
            }),
    {
        let len = stream.binary.len();
        match decode_base128(&stream.binary, stream.offset, 10) {
            Ok((v, n)) => {
                stream.offset = stream.offset + n;
                Ok(v)
            },
            Err(e) => Err(e),
        }
    }

    /// Writes an unsigned 64-bit variable-length integer to the stream,
    /// using the minimal number of groups.
    pub fn write(stream: &mut BinaryStream, value: u64)
        ensures
            wrote(*old(stream), *final(stream), varint_bytes(value as nat)),
        decreases value,
    {
        let byte = (value % 128) as u8;
        let rest = value / 128;
        if rest == 0 {
            crate::unsigned::Uint8::write(stream, byte);
            assert(final(stream).binary@ =~= old(stream).binary@ + varint_bytes(value as nat));
        } else {
            crate::unsigned::Uint8::write(stream, byte + 128);
            VarLong::write(stream, rest);
            assert(final(stream).binary@ =~= old(stream).binary@ + varint_bytes(value as nat));
        }
    }
}

impl ZigZag {
    /// Reads a zigzag-encoded signed 32-bit integer from the stream; the
    /// error cases are those of `VarInt::read`.
    pub fn read(stream: &mut BinaryStream) -> (r: Result<i32, BinaryError>)
        ensures
            (match var_decode(rest_from(old(stream).binary@, old(stream).offset as nat), 5) {
                VarDecode::Complete(v, n) => r matches Ok(x) && x as int == unzigzag(v % pow2(32))
                    && advanced(*old(stream), *final(stream), n as int),
                VarDecode::TooLong => r matches Err(e) && e == BinaryError::MalformedVarint
                    && *final(stream) == *old(stream),
                VarDecode::Truncated => r matches Err(e) && e == BinaryError::BoundsError
                    && *final(stream) == *old(stream),
            }),
    {
        match VarInt::read(stream) {
            Ok(u) => {
                proof {
                    lemma2_to64();
                }
                if u % 2 == 0 {
                    Ok((u / 2) as i32)
                } else {
                    Ok(-((u / 2) as i32) - 1)
                }
            },
            Err(e) => Err(e),
        }
    }

    /// Writes a signed 32-bit integer to the stream as the variable-length
    /// encoding of its zigzag mapping.
    pub fn write(stream: &mut BinaryStream, value: i32)
        ensures
            wrote(*old(stream), *final(stream), varint_bytes(zigzag(value as int))),
    {
        let u: u32 = if value >= 0 {
            (value as u32) * 2
        } else {
            ((-(value as i64 + 1)) as u32) * 2 + 1
        };
        VarInt::write(stream, u);
    }
}

impl ZigZong {
    /// Reads a zigzag-encoded signed 64-bit integer from the stream; the
    /// error cases are those of `VarLong::read`.
    pub fn read(stream: &mut BinaryStream) -> (r: Result<i64, BinaryError>)
        ensures
            (match var_decode(rest_from(old(stream).binary@, old(stream).offset as nat), 10) {
                VarDecode::Complete(v, n) => r matches Ok(x) && x as int == unzigzag(v % pow2(64))
                    && advanced(*old(stream), *final(stream), n as int),
                VarDecode::TooLong => r matches Err(e) && e == BinaryError::MalformedVarint
                    && *final(stream) == *old(stream),
                VarDecode::Truncated => r matches Err(e) && e == BinaryError::BoundsError
                    && *final(stream) == *old(stream),
            }),
    {
        match VarLong::read(stream) {
            Ok(u) => {
                proof {
                    lemma2_to64();
                    lemma2_to64_rest();
                }
                if u % 2 == 0 {
                    Ok((u / 2) as i64)
                } else {
                    Ok(-((u / 2) as i64) - 1)
                }
            },
            Err(e) => Err(e),
        }
    }

    /// Writes a signed 64-bit integer to the stream as the variable-length
    /// encoding of its zigzag mapping.
    pub fn write(stream: &mut BinaryStream, value: i64)
        ensures
            wrote(*old(stream), *final(stream), varint_bytes(zigzag(value as int))),
    {
        let u: u64 = if value >= 0 {
            (value as u64) * 2
        } else {
            ((-(value + 1)) as u64) * 2 + 1
        };
        VarLong::write(stream, u);
    }
}

impl BinaryStream {
    /// Reads an unsigned 32-bit variable-length integer from the stream.
    pub fn read_var_int(&mut self) -> (r: Result<u32, BinaryError>)
        ensures
            (match var_decode(rest_from(old(self).binary@, old(self).offset as nat), 5) {
                VarDecode::Complete(v, n) => r matches Ok(x) && x as nat == v % pow2(32)
                    && advanced(*old(self), *final(self), n as int),
                VarDecode::TooLong => r matches Err(e) && e == BinaryError::MalformedVarint
                    && *final(self) == *old(self),
                VarDecode::Truncated => r matches Err(e) && e == BinaryError::BoundsError
                    && *final(self) == *old(self),
            }),
    {
        VarInt::read(self)
    }

    /// Writes an unsigned 32-bit variable-length integer to the stream.
    pub fn write_var_int(&mut self, value: u32)
        ensures
            wrote(*old(self), *final(self), varint_bytes(value as nat)),
    {
        VarInt::write(self, value);
    }

    /// Reads an unsigned 64-bit variable-length integer from the stream.
    pub fn read_var_long(&mut self) -> (r: Result<u64, BinaryError>)
        ensures
            (match var_decode(rest_from(old(self).binary@, old(self).offset as nat), 10) {
                VarDecode::Complete(v, n) => r matches Ok(x) && x as nat == v % pow2(64)
                    && advanced(*old(self), *final(self), n as int),
                VarDecode::TooLong => r matches Err(e) && e == BinaryError::MalformedVarint
                    && *final(self) == *old(self),
                VarDecode::Truncated => r matches Err(e) && e == BinaryError::BoundsError
                    && *final(self) == *old(self),
            }),
    {
        VarLong::read(self)
    }

    /// Writes an unsigned 64-bit variable-length integer to the stream.
    pub fn write_var_long(&mut self, value: u64)
        ensures
            wrote(*old(self), *final(self), varint_bytes(value as nat)),
    {
        VarLong::write(self, value);
    }

    /// Reads a zigzag-encoded signed 32-bit integer from the stream.
    pub fn read_zig_zag(&mut self) -> (r: Result<i32, BinaryError>)
        ensures
            (match var_decode(rest_from(old(self).binary@, old(self).offset as nat), 5) {
                VarDecode::Complete(v, n) => r matches Ok(x) && x as int == unzigzag(v % pow2(32))
                    && advanced(*old(self), *final(self), n as int),
                VarDecode::TooLong => r matches Err(e) && e == BinaryError::MalformedVarint
                    && *final(self) == *old(self),
                VarDecode::Truncated => r matches Err(e) && e == BinaryError::BoundsError
                    && *final(self) == *old(self),
            }),
    {
        ZigZag::read(self)
    }

    /// Writes a zigzag-encoded signed 32-bit integer to the stream.
    pub fn write_zig_zag(&mut self, value: i32)
        ensures
            wrote(*old(self), *final(self), varint_bytes(zigzag(value as int))),
    {
        ZigZag::write(self, value);
    }

    /// Reads a zigzag-encoded signed 64-bit integer from the stream.
    pub fn read_zig_zong(&mut self) -> (r: Result<i64, BinaryError>)
        ensures
            (match var_decode(rest_from(old(self).binary@, old(self).offset as nat), 10) {
                VarDecode::Complete(v, n) => r matches Ok(x) && x as int == unzigzag(v % pow2(64))
                    && advanced(*old(self), *final(self), n as int),
                VarDecode::TooLong => r matches Err(e) && e == BinaryError::MalformedVarint
                    && *final(self) == *old(self),
                VarDecode::Truncated => r matches Err(e) && e == BinaryError::BoundsError
                    && *final(self) == *old(self),
            }),
    {
        ZigZong::read(self)
    }

    /// Writes a zigzag-encoded signed 64-bit integer to the stream.
    pub fn write_zig_zong(&mut self, value: i64)
        ensures
            wrote(*old(self), *final(self), varint_bytes(zigzag(value as int))),
    {
        ZigZong::write(self, value);
    }
}

} // verus!
