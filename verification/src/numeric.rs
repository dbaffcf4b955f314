//! The mathematical model of the wire format: how an unsigned value is laid
//! out as bytes in either byte order, how a byte sequence is read back as a
//! value, and how signed values map to their two's-complement bit patterns.
//! The round-trip lemmas here are the heart of the fixed-width codecs'
//! correctness.

use vstd::prelude::*;
use vstd::arithmetic::power2::{pow2, lemma_pow2_adds, lemma_pow2_pos, lemma2_to64};
use vstd::arithmetic::div_mod::{lemma_breakdown, lemma_small_mod};

verus! {

/// The bytes of `v` in little-endian order, `w` bytes wide. Bits of `v`
/// above `8 * w` are dropped: the encoding is `v` modulo `pow2(8 * w)`.
pub open spec fn le_bytes(v: nat, w: nat) -> Seq<u8>
    decreases w,
{
    if w == 0 {
        Seq::empty()
    } else {
        seq![(v % 256) as u8] + le_bytes(v / 256, (w - 1) as nat)
    }
}

/// The bytes of `v` in big-endian order, `w` bytes wide. Bits of `v`
/// above `8 * w` are dropped: the encoding is `v` modulo `pow2(8 * w)`.
pub open spec fn be_bytes(v: nat, w: nat) -> Seq<u8>
    decreases w,
{
    if w == 0 {
        Seq::empty()
    } else {
        be_bytes(v / 256, (w - 1) as nat) + seq![(v % 256) as u8]
    }
}

/// The unsigned value that a byte sequence denotes in little-endian order.
pub open spec fn le_val(s: Seq<u8>) -> nat
    decreases s.len(),
{
    if s.len() == 0 {
        0
    } else {
        (s.first() + le_val(s.drop_first()) * 256) as nat
    }
}

/// The unsigned value that a byte sequence denotes in big-endian order.
pub open spec fn be_val(s: Seq<u8>) -> nat
    decreases s.len(),
{
    if s.len() == 0 {
        0
    } else {
        (be_val(s.drop_last()) * 256 + s.last()) as nat
    }
}

/// The bytes of `v`, `w` wide, in the given byte order.
pub open spec fn fixed_bytes(e: crate::endian::Endianness, v: nat, w: nat) -> Seq<u8> {
    match e {
        crate::endian::Endianness::Big => be_bytes(v, w),
        crate::endian::Endianness::Little => le_bytes(v, w),
    }
}

/// The unsigned value that a byte sequence denotes in the given byte order.
pub open spec fn fixed_val(e: crate::endian::Endianness, s: Seq<u8>) -> nat {
    match e {
        crate::endian::Endianness::Big => be_val(s),
        crate::endian::Endianness::Little => le_val(s),
    }
}

/// The two's-complement bit pattern of a signed value at the given width,
/// as an unsigned value: `v` itself when non-negative, `v + pow2(bits)`
/// when negative.
pub open spec fn to_unsigned(v: int, bits: nat) -> nat {
    if v >= 0 {
        v as nat
    } else {
        (v + pow2(bits)) as nat
    }
}

/// The signed value that an unsigned two's-complement bit pattern denotes
/// at the given width: `u` itself below `pow2(bits - 1)`, `u - pow2(bits)`
/// from there up.
pub open spec fn to_signed(u: nat, bits: nat) -> int {
    if u < pow2((bits - 1) as nat) {
        u as int
    } else {
        u - pow2(bits)
    }
}

/// A little-endian encoding is always exactly `w` bytes long.
pub proof fn lemma_le_bytes_len(v: nat, w: nat)
    ensures
        le_bytes(v, w).len() == w,
    decreases w,
{
    if w > 0 {
        lemma_le_bytes_len(v / 256, (w - 1) as nat);
    }
}

/// A big-endian encoding is always exactly `w` bytes long.
pub proof fn lemma_be_bytes_len(v: nat, w: nat)
    ensures
        be_bytes(v, w).len() == w,
    decreases w,
{
    if w > 0 {
        lemma_be_bytes_len(v / 256, (w - 1) as nat);
    }
}

/// A `w`-byte sequence denotes a value below `pow2(8 * w)`, read
/// little-endian.
pub proof fn lemma_le_val_bound(s: Seq<u8>)
    ensures
        le_val(s) < pow2(8 * s.len()),
    decreases s.len(),
{
    if s.len() == 0 {
        assert(pow2(0) == 1) by {
            lemma2_to64();
        }
    } else {
        lemma_le_val_bound(s.drop_first());
        lemma_pow2_adds(8, 8 * (s.len() - 1) as nat);
        assert(pow2(8) == 256) by {
            lemma2_to64();
        }
    }
}

/// A `w`-byte sequence denotes a value below `pow2(8 * w)`, read
/// big-endian.
pub proof fn lemma_be_val_bound(s: Seq<u8>)
    ensures
        be_val(s) < pow2(8 * s.len()),
    decreases s.len(),
{
    if s.len() == 0 {
        assert(pow2(0) == 1) by {
            lemma2_to64();
        }
    } else {
        lemma_be_val_bound(s.drop_last());
        lemma_pow2_adds(8 * (s.len() - 1) as nat, 8);
        assert(pow2(8) == 256) by {
            lemma2_to64();
        }
    }
}

/// Writing then reading little-endian returns the value modulo the width:
/// exactly the value whenever it fits `w` bytes.
pub proof fn lemma_le_round_trip(v: nat, w: nat)
    ensures
        le_val(le_bytes(v, w)) == v % pow2(8 * w),
    decreases w,
{
    if w == 0 {
        assert(pow2(0) == 1) by {
            lemma2_to64();
        }
    } else {
        lemma_le_round_trip(v / 256, (w - 1) as nat);
        lemma_le_bytes_len(v / 256, (w - 1) as nat);
        let rest = le_bytes(v / 256, (w - 1) as nat);
        let whole = seq![(v % 256) as u8] + rest;
        assert(whole.drop_first() =~= rest);
        lemma_pow2_pos(8 * (w - 1) as nat);
        assert(pow2(8) == 256) by {
            lemma2_to64();
        }
        lemma_pow2_adds(8, 8 * (w - 1) as nat);
        lemma_breakdown(v as int, 256, pow2(8 * (w - 1) as nat) as int);
    }
}

/// Writing then reading big-endian returns the value modulo the width:
/// exactly the value whenever it fits `w` bytes.
pub proof fn lemma_be_round_trip(v: nat, w: nat)
    ensures
        be_val(be_bytes(v, w)) == v % pow2(8 * w),
    decreases w,
{
    if w == 0 {
        assert(pow2(0) == 1) by {
            lemma2_to64();
        }
    } else {
        lemma_be_round_trip(v / 256, (w - 1) as nat);
        lemma_be_bytes_len(v / 256, (w - 1) as nat);
        let rest = be_bytes(v / 256, (w - 1) as nat);
        let whole = rest + seq![(v % 256) as u8];
        assert(whole.drop_last() =~= rest);
        lemma_pow2_pos(8 * (w - 1) as nat);
        assert(pow2(8) == 256) by {
            lemma2_to64();
        }
        lemma_pow2_adds(8, 8 * (w - 1) as nat);
        lemma_breakdown(v as int, 256, pow2(8 * (w - 1) as nat) as int);
    }
}

/// A `w`-byte sequence denotes a value below `pow2(8 * w)` in either byte
/// order.
pub proof fn lemma_fixed_val_bound(e: crate::endian::Endianness, s: Seq<u8>)
    ensures
        fixed_val(e, s) < pow2(8 * s.len()),
{
    lemma_le_val_bound(s);
    lemma_be_val_bound(s);
}

/// Writing then reading in either byte order returns the value modulo the
/// width: exactly the value whenever it fits `w` bytes.
pub proof fn lemma_fixed_round_trip(e: crate::endian::Endianness, v: nat, w: nat)
    ensures
        fixed_val(e, fixed_bytes(e, v, w)) == v % pow2(8 * w),
        v < pow2(8 * w) ==> fixed_val(e, fixed_bytes(e, v, w)) == v,
{
    match e {
        crate::endian::Endianness::Big => lemma_be_round_trip(v, w),
        crate::endian::Endianness::Little => lemma_le_round_trip(v, w),
    }
    if v < pow2(8 * w) {
        lemma_small_mod(v, pow2(8 * w));
    }
}

/// The two's-complement bit pattern denotes the signed value it was made
/// from, at any width the value fits.
pub proof fn lemma_signed_round_trip(v: int, bits: nat)
    requires
        bits >= 1,
        -pow2((bits - 1) as nat) <= v < pow2((bits - 1) as nat),
    ensures
        to_unsigned(v, bits) < pow2(bits),
        to_signed(to_unsigned(v, bits), bits) == v,
{
    lemma_pow2_adds((bits - 1) as nat, 1);
    assert(pow2(1) == 2) by {
        lemma2_to64();
    }
}

/// Every two's-complement bit pattern below `pow2(bits)` comes back
/// unchanged when the signed value it denotes is re-encoded.
pub proof fn lemma_unsigned_to_signed_round_trip(u: nat, bits: nat)
    requires
        bits >= 1,
        u < pow2(bits),
    ensures
        -pow2((bits - 1) as nat) <= to_signed(u, bits) < pow2((bits - 1) as nat),
        to_unsigned(to_signed(u, bits), bits) == u,
{
    lemma_pow2_adds((bits - 1) as nat, 1);
    assert(pow2(1) == 2) by {
        lemma2_to64();
    }
}

/// A signed value within the 24-bit domain survives the 24-bit codec: its
/// 32-bit two's-complement pattern, truncated to the low 24 bits and
/// sign-extended back, is the value itself.
pub proof fn lemma_int24_round_trip(v: int)
    requires
        -0x800000 <= v < 0x800000,
    ensures
        to_signed(to_unsigned(v, 32) % pow2(24), 24) == v,
{
    lemma2_to64();
    if v >= 0 {
        lemma_small_mod(v as nat, pow2(24));
    } else {
        assert(to_unsigned(v, 32) == v + 0x100000000);
        assert((v + 0x100000000) == pow2(24) * 0xFF + (v + 0x1000000)) by {
            lemma2_to64();
        }
        vstd::arithmetic::div_mod::lemma_mod_multiples_vanish(
            0xFF,
            v + 0x1000000,
            pow2(24) as int,
        );
        lemma_small_mod((v + 0x1000000) as nat, pow2(24));
    }
}

/// `pow2` is monotone in its exponent.
proof fn lemma_pow2_le(e1: nat, e2: nat)
    requires
        e1 <= e2,
    ensures
        pow2(e1) <= pow2(e2),
{
    if e1 < e2 {
        vstd::arithmetic::power2::lemma_pow2_strictly_increases(e1, e2);
    }
}

/// A value read from at most seven bytes leaves room for one more byte
/// within a `u64`.
proof fn lemma_short_val_fits(s: Seq<u8>)
    requires
        s.len() <= 7,
    ensures
        le_val(s) < 0x100000000000000,
        be_val(s) < 0x100000000000000,
{
    lemma_le_val_bound(s);
    lemma_be_val_bound(s);
    lemma_pow2_le(8 * s.len(), 56);
    assert(pow2(56) == 0x100000000000000) by {
        vstd::arithmetic::power2::lemma2_to64_rest();
    }
}

/// Reads `w` bytes of `binary` starting at `pos` as a big-endian value.
fn take_be(binary: &Vec<u8>, pos: usize, w: usize) -> (r: u64)
    requires
        pos + w <= binary@.len(),
        w <= 8,
    ensures
        r as nat == be_val(binary@.subrange(pos as int, pos + w)),
    decreases w,
{
    let len = binary.len();
    if w == 0 {
        assert(binary@.subrange(pos as int, pos as int) =~= Seq::empty());
        0
    } else {
        let rest = take_be(binary, pos, w - 1);
        let s = Ghost(binary@.subrange(pos as int, pos + w));
        proof {
            assert(s@.drop_last() =~= binary@.subrange(pos as int, pos + w - 1));
            lemma_short_val_fits(s@.drop_last());
        }
        rest * 256 + binary[pos + w - 1] as u64
    }
}

/// Reads `w` bytes of `binary` starting at `pos` as a little-endian value.
fn take_le(binary: &Vec<u8>, pos: usize, w: usize) -> (r: u64)
    requires
        pos + w <= binary@.len(),
        w <= 8,
    ensures
        r as nat == le_val(binary@.subrange(pos as int, pos + w)),
    decreases w,
{
    let len = binary.len();
    if w == 0 {
        assert(binary@.subrange(pos as int, pos as int) =~= Seq::empty());
        0
    } else {
        let rest = take_le(binary, pos + 1, w - 1);
        let s = Ghost(binary@.subrange(pos as int, pos + w));
        proof {
            assert(s@.drop_first() =~= binary@.subrange(pos + 1, pos + w));
            lemma_short_val_fits(s@.drop_first());
        }
        binary[pos] as u64 + rest * 256
    }
}

/// Appends the `w`-byte big-endian encoding of `v` to `out`.
fn push_be(out: &mut Vec<u8>, v: u64, w: usize)
    ensures
        final(out)@ == old(out)@ + be_bytes(v as nat, w as nat),
    decreases w,
{
    if w == 0 {
        assert(final(out)@ =~= old(out)@ + be_bytes(v as nat, 0));
    } else {
        push_be(out, v / 256, w - 1);
        out.push((v % 256) as u8);
        assert(final(out)@ =~= old(out)@ + be_bytes(v as nat, w as nat));
    }
}

/// Appends the `w`-byte little-endian encoding of `v` to `out`.
fn push_le(out: &mut Vec<u8>, v: u64, w: usize)
    ensures
        final(out)@ == old(out)@ + le_bytes(v as nat, w as nat),
    decreases w,
{
    if w == 0 {
        assert(final(out)@ =~= old(out)@ + le_bytes(v as nat, 0));
    } else {
        out.push((v % 256) as u8);
        push_le(out, v / 256, w - 1);
        assert(final(out)@ =~= old(out)@ + le_bytes(v as nat, w as nat));
    }
}

/// Reads a `width`-byte unsigned value at the cursor in the given byte
/// order, advancing the cursor on success and moving nothing on failure.
pub(crate) fn read_fixed(
    stream: &mut crate::stream::BinaryStream,
    width: usize,
    endian: crate::endian::Endianness,
) -> (r: Result<u64, crate::error::BinaryError>)
    requires
        width <= 8,
    ensures
        match r {
            Ok(v) => v as nat == fixed_val(endian, crate::stream::window(*old(stream), width as int))
                && crate::stream::advanced(*old(stream), *final(stream), width as int),
            Err(e) => e == crate::error::BinaryError::BoundsError && old(stream).offset + width
                > old(stream).binary@.len() && *final(stream) == *old(stream),
        },
{
    let len = stream.binary.len();
    if len < width || stream.offset > len - width {
        return Err(crate::error::BinaryError::BoundsError);
    }
    let v = match endian {
        crate::endian::Endianness::Big => take_be(&stream.binary, stream.offset, width),
        crate::endian::Endianness::Little => take_le(&stream.binary, stream.offset, width),
    };
    stream.offset = stream.offset + width;
    Ok(v)
}

/// Appends the `width`-byte encoding of `v` in the given byte order at the
/// tail of the stream.
pub(crate) fn write_fixed(
    stream: &mut crate::stream::BinaryStream,
    v: u64,
    width: usize,
    endian: crate::endian::Endianness,
)
    ensures
        crate::stream::wrote(
            *old(stream),
            *final(stream),
            fixed_bytes(endian, v as nat, width as nat),
        ),
{
    let mut out: Vec<u8> = Vec::new();
    match endian {
        crate::endian::Endianness::Big => push_be(&mut out, v, width),
        crate::endian::Endianness::Little => push_le(&mut out, v, width),
    }
    stream.write(out);
}

} // verus!
