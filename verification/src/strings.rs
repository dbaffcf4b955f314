//! The length-prefixed UTF-8 string codecs. A write puts the byte length of
//! the text through the paired integer codec and then appends the raw UTF-8
//! bytes; a read decodes the prefix, takes exactly that many bytes, and
//! decodes them leniently: malformed byte sequences become replacement
//! characters instead of failing. A read that would run past the end of the
//! buffer fails with `BoundsError` and moves nothing.

use vstd::prelude::*;
use vstd::arithmetic::power2::{pow2, lemma2_to64};
use vstd::string::StrSliceExecFns;
use vstd::utf8::{encode_utf8, decode_utf8, valid_utf8};
use crate::endian::{Endianness, endian_of};
use crate::error::BinaryError;
use crate::numeric::{fixed_val, fixed_bytes, to_signed};
use crate::stream::{BinaryStream, window, rest_from, wrote};
use crate::varints::{VarDecode, var_decode, varint_bytes};

verus! {

/// A string codec whose length prefix is an unsigned 16-bit integer.
pub struct String16 {}

/// A string codec whose length prefix is a signed 32-bit integer; a
/// negative prefix makes every read fail.
pub struct String32 {}

/// A string codec whose length prefix is an unsigned 32-bit
/// variable-length integer.
pub struct VarString {}

/// What lenient UTF-8 decoding makes of a byte sequence: the text itself
/// where the bytes are valid UTF-8, with each maximal invalid subsequence
/// replaced by replacement characters.
pub uninterp spec fn utf8_lossy(bytes: Seq<u8>) -> Seq<char>;

/// Relies on `String::from_utf8_lossy`: the result is a function of the
/// bytes alone, and decodes valid UTF-8 exactly.
#[verifier::external_body]
pub(crate) fn decode_utf8_lossy(bytes: &[u8]) -> (r: String)
    ensures
        r@ == utf8_lossy(bytes@),
        valid_utf8(bytes@) ==> r@ == decode_utf8(bytes@),
{
    String::from_utf8_lossy(bytes).into_owned()
}

/// Encoding a text as UTF-8 always yields valid UTF-8, and decoding those
/// bytes returns the text: every string round-trips through its encoded
/// bytes.
pub proof fn lemma_utf8_round_trip(s: Seq<char>)
    ensures
        valid_utf8(encode_utf8(s)),
        decode_utf8(encode_utf8(s)) == s,
{
    vstd::utf8::encode_utf8_valid_utf8(s);
    vstd::utf8::encode_utf8_decode_utf8(s);
}

/// Reads `count` payload bytes at the cursor and decodes them leniently;
/// restores the cursor to `start` when too few bytes remain.
fn read_payload(stream: &mut BinaryStream, count: usize, start: usize) -> (r: Result<
    String,
    BinaryError,
>)
    ensures
        match r {
            Ok(text) => {
                let payload = old(stream).binary@.subrange(
                    old(stream).offset as int,
                    old(stream).offset + count,
                );
                &&& old(stream).offset + count <= old(stream).binary@.len()
                &&& text@ == utf8_lossy(payload)
                &&& (valid_utf8(payload) ==> text@ == decode_utf8(payload))
                &&& final(stream).binary == old(stream).binary
                &&& final(stream).offset == old(stream).offset + count
            },
            Err(e) => {
                &&& e == BinaryError::BoundsError
                &&& old(stream).offset + count > old(stream).binary@.len()
                &&& final(stream).binary == old(stream).binary
                &&& final(stream).offset == start
            },
        },
{
    match stream.read(count) {
        Ok(bytes) => Ok(decode_utf8_lossy(bytes.as_slice())),
        Err(e) => {
            stream.offset = start;
            Err(e)
        },
    }
}

impl String16 {
    /// Reads a string framed by an unsigned 16-bit length prefix in the
    /// given byte order.
    pub fn read(stream: &mut BinaryStream, endian: Option<Endianness>) -> (r: Result<
        String,
        BinaryError,
    >)
        ensures
            match r {
                Ok(text) => ({
                    let pre = *old(stream);
                    let n = fixed_val(endian_of(endian), window(pre, 2)) as int;
                    let payload = pre.binary@.subrange(pre.offset + 2, pre.offset + 2 + n);
                    &&& pre.offset + 2 + n <= pre.binary@.len()
                    &&& text@ == utf8_lossy(payload)
                    &&& (valid_utf8(payload) ==> text@ == decode_utf8(payload))
                    &&& final(stream).binary == pre.binary
                    &&& final(stream).offset == pre.offset + 2 + n
                }),
                Err(e) => ({
                    let pre = *old(stream);
                    &&& e == BinaryError::BoundsError
                    &&& (pre.offset + 2 > pre.binary@.len() || pre.offset + 2 + fixed_val(
                        endian_of(endian),
                        window(pre, 2),
                    ) > pre.binary@.len())
                    &&& *final(stream) == *old(stream)
                }),
            },
    {
        let start = stream.offset;
        match crate::unsigned::Uint16::read(stream, endian) {
            Ok(count) => read_payload(stream, count as usize, start),
            Err(e) => Err(e),
        }
    }

    /// Writes a string as an unsigned 16-bit byte-length prefix in the
    /// given byte order followed by the raw UTF-8 bytes.
    pub fn write(stream: &mut BinaryStream, value: String, endian: Option<Endianness>)
        requires
            encode_utf8(value@).len() <= 0xFFFF,
        ensures
            wrote(
                *old(stream),
                *final(stream),
                fixed_bytes(endian_of(endian), encode_utf8(value@).len(), 2) + encode_utf8(value@),
            ),
    {
        let bytes = value.as_str().as_bytes_vec();
        crate::unsigned::Uint16::write(stream, bytes.len() as u16, endian);
        stream.write(bytes);
        assert(final(stream).binary@ =~= old(stream).binary@ + (fixed_bytes(
            endian_of(endian),
            encode_utf8(value@).len(),
            2,
        ) + encode_utf8(value@)));
    }
}

impl String32 {
    /// Reads a string framed by a signed 32-bit length prefix in the given
    /// byte order; a negative prefix fails with `BoundsError`.
    pub fn read(stream: &mut BinaryStream, endian: Option<Endianness>) -> (r: Result<
        String,
        BinaryError,
    >)
        ensures
            match r {
                Ok(text) => ({
                    let pre = *old(stream);
                    let n = to_signed(fixed_val(endian_of(endian), window(pre, 4)), 32);
                    let payload = pre.binary@.subrange(pre.offset + 4, pre.offset + 4 + n);
                    &&& n >= 0
                    &&& pre.offset + 4 + n <= pre.binary@.len()
                    &&& text@ == utf8_lossy(payload)
                    &&& (valid_utf8(payload) ==> text@ == decode_utf8(payload))
                    &&& final(stream).binary == pre.binary
                    &&& final(stream).offset == pre.offset + 4 + n
                }),
                Err(e) => ({
                    let pre = *old(stream);
                    let n = to_signed(fixed_val(endian_of(endian), window(pre, 4)), 32);
                    &&& e == BinaryError::BoundsError
                    &&& (pre.offset + 4 > pre.binary@.len() || n < 0 || pre.offset + 4 + n
                        > pre.binary@.len())
                    &&& *final(stream) == *old(stream)
                }),
            },
    {
        let start = stream.offset;
        match crate::signed::Int32::read(stream, endian) {
            Ok(count) => {
                if count < 0 {
                    stream.offset = start;
                    Err(BinaryError::BoundsError)
                } else {
                    read_payload(stream, count as usize, start)
                }
            },
            Err(e) => Err(e),
        }
    }

    /// Writes a string as a signed 32-bit byte-length prefix in the given
    /// byte order followed by the raw UTF-8 bytes.
    pub fn write(stream: &mut BinaryStream, value: String, endian: Option<Endianness>)
        requires
            encode_utf8(value@).len() <= 0x7FFFFFFF,
        ensures
            wrote(
                *old(stream),
                *final(stream),
                fixed_bytes(endian_of(endian), encode_utf8(value@).len(), 4) + encode_utf8(value@),
            ),
    {
        proof {
            lemma2_to64();
        }
        let bytes = value.as_str().as_bytes_vec();
        crate::signed::Int32::write(stream, bytes.len() as i32, endian);
        stream.write(bytes);
        assert(final(stream).binary@ =~= old(stream).binary@ + (fixed_bytes(
            endian_of(endian),
            encode_utf8(value@).len(),
            4,
        ) + encode_utf8(value@)));
    }
}

impl VarString {
    /// Reads a string framed by a variable-length byte-length prefix; the
    /// prefix errors are those of `VarInt::read`.
    pub fn read(stream: &mut BinaryStream) -> (r: Result<String, BinaryError>)
        ensures
            (match var_decode(rest_from(old(stream).binary@, old(stream).offset as nat), 5) {
                VarDecode::Complete(v, n) => ({
                    let pre = *old(stream);
                    let m = (v % pow2(32)) as int;
                    if pre.offset + n + m <= pre.binary@.len() {
                        ({
                            let payload = pre.binary@.subrange(
                                pre.offset + n,
                                pre.offset + n + m,
                            );
                            &&& r matches Ok(text) && text@ == utf8_lossy(payload) && (valid_utf8(
                                payload,
                            ) ==> text@ == decode_utf8(payload))
                            &&& final(stream).binary == pre.binary
                            &&& final(stream).offset == pre.offset + n + m
                        })
                    } else {
                        r matches Err(e) && e == BinaryError::BoundsError && *final(stream)
                            == *old(stream)
                    }
                }),
                VarDecode::TooLong => r matches Err(e) && e == BinaryError::MalformedVarint
                    && *final(stream) == *old(stream),
                VarDecode::Truncated => r matches Err(e) && e == BinaryError::BoundsError
                    && *final(stream) == *old(stream),
            }),
    {
        let start = stream.offset;
        match crate::varints::VarInt::read(stream) {
            Ok(count) => read_payload(stream, count as usize, start),
            Err(e) => Err(e),
        }
    }

    /// Writes a string as a variable-length byte-length prefix followed by
    /// the raw UTF-8 bytes.
    pub fn write(stream: &mut BinaryStream, value: String)
        requires
            encode_utf8(value@).len() < pow2(32),
        ensures
            wrote(
                *old(stream),
                *final(stream),
                varint_bytes(encode_utf8(value@).len()) + encode_utf8(value@),
            ),
    {
        proof {
            lemma2_to64();
        }
        let bytes = value.as_str().as_bytes_vec();
        crate::varints::VarInt::write(stream, bytes.len() as u32);
        stream.write(bytes);
        assert(final(stream).binary@ =~= old(stream).binary@ + (varint_bytes(
            encode_utf8(value@).len(),
        ) + encode_utf8(value@)));
    }
}

impl BinaryStream {
    /// Reads a string framed by an unsigned 16-bit length prefix in the
    /// given byte order.
    pub fn read_string16(&mut self, endian: Option<Endianness>) -> (r: Result<
        String,
        BinaryError,
    >)
        ensures
            match r {
                Ok(text) => ({
                    let pre = *old(self);
                    let n = fixed_val(endian_of(endian), window(pre, 2)) as int;
                    let payload = pre.binary@.subrange(pre.offset + 2, pre.offset + 2 + n);
                    &&& pre.offset + 2 + n <= pre.binary@.len()
                    &&& text@ == utf8_lossy(payload)
                    &&& (valid_utf8(payload) ==> text@ == decode_utf8(payload))
                    &&& final(self).binary == pre.binary
                    &&& final(self).offset == pre.offset + 2 + n
                }),
                Err(e) => ({
                    let pre = *old(self);
                    &&& e == BinaryError::BoundsError
                    &&& (pre.offset + 2 > pre.binary@.len() || pre.offset + 2 + fixed_val(
                        endian_of(endian),
                        window(pre, 2),
                    ) > pre.binary@.len())
                    &&& *final(self) == *old(self)
                }),
            },
    {
        String16::read(self, endian)
    }

    /// Writes a string as an unsigned 16-bit byte-length prefix in the
    /// given byte order followed by the raw UTF-8 bytes.
    pub fn write_string16(&mut self, value: String, endian: Option<Endianness>)
        requires
            encode_utf8(value@).len() <= 0xFFFF,
        ensures
            wrote(
                *old(self),
                *final(self),
                fixed_bytes(endian_of(endian), encode_utf8(value@).len(), 2) + encode_utf8(value@),
            ),
    {
        String16::write(self, value, endian);
    }

    /// Reads a string framed by a signed 32-bit length prefix in the given
    /// byte order.
    pub fn read_string32(&mut self, endian: Option<Endianness>) -> (r: Result<
        String,
        BinaryError,
    >)
        ensures
            match r {
                Ok(text) => ({
                    let pre = *old(self);
                    let n = to_signed(fixed_val(endian_of(endian), window(pre, 4)), 32);
                    let payload = pre.binary@.subrange(pre.offset + 4, pre.offset + 4 + n);
                    &&& n >= 0
                    &&& pre.offset + 4 + n <= pre.binary@.len()
                    &&& text@ == utf8_lossy(payload)
                    &&& (valid_utf8(payload) ==> text@ == decode_utf8(payload))
                    &&& final(self).binary == pre.binary
                    &&& final(self).offset == pre.offset + 4 + n
                }),
                Err(e) => ({
                    let pre = *old(self);
                    let n = to_signed(fixed_val(endian_of(endian), window(pre, 4)), 32);
                    &&& e == BinaryError::BoundsError
                    &&& (pre.offset + 4 > pre.binary@.len() || n < 0 || pre.offset + 4 + n
                        > pre.binary@.len())
                    &&& *final(self) == *old(self)
                }),
            },
    {
        String32::read(self, endian)
    }

    /// Writes a string as a signed 32-bit byte-length prefix in the given
    /// byte order followed by the raw UTF-8 bytes.
    pub fn write_string32(&mut self, value: String, endian: Option<Endianness>)
        requires
            encode_utf8(value@).len() <= 0x7FFFFFFF,
        ensures
            wrote(
                *old(self),
                *final(self),
                fixed_bytes(endian_of(endian), encode_utf8(value@).len(), 4) + encode_utf8(value@),
            ),
    {
        String32::write(self, value, endian);
    }

    /// Reads a string framed by a variable-length byte-length prefix.
    pub fn read_var_string(&mut self) -> (r: Result<String, BinaryError>)
        ensures
            (match var_decode(rest_from(old(self).binary@, old(self).offset as nat), 5) {
                VarDecode::Complete(v, n) => ({
                    let pre = *old(self);
                    let m = (v % pow2(32)) as int;
                    if pre.offset + n + m <= pre.binary@.len() {
                        ({
                            let payload = pre.binary@.subrange(
                                pre.offset + n,
                                pre.offset + n + m,
                            );
                            &&& r matches Ok(text) && text@ == utf8_lossy(payload) && (valid_utf8(
                                payload,
                            ) ==> text@ == decode_utf8(payload))
                            &&& final(self).binary == pre.binary
                            &&& final(self).offset == pre.offset + n + m
                        })
                    } else {
                        r matches Err(e) && e == BinaryError::BoundsError && *final(self) == *old(self)
                    }
                }),
                VarDecode::TooLong => r matches Err(e) && e == BinaryError::MalformedVarint
                    && *final(self) == *old(self),
                VarDecode::Truncated => r matches Err(e) && e == BinaryError::BoundsError && *final(self) == *old(self),
            }),
    {
        VarString::read(self)
    }

    /// Writes a string as a variable-length byte-length prefix followed by
    /// the raw UTF-8 bytes.
    pub fn write_var_string(&mut self, value: String)
        requires
            encode_utf8(value@).len() < pow2(32),
        ensures
            wrote(
                *old(self),
                *final(self),
                varint_bytes(encode_utf8(value@).len()) + encode_utf8(value@),
            ),
    {
        VarString::write(self, value);
    }
}

} // verus!
