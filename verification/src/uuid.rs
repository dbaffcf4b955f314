//! The UUID codec: sixteen raw bytes on the wire, thirty-two uppercase
//! hexadecimal characters without separators as text. A write accepts dashes
//! anywhere and either case, strips the dashes, and parses the first
//! thirty-two hexadecimal characters; it fails with `InvalidHex` when fewer
//! than thirty-two remain or any of them is not hexadecimal. A read formats
//! each byte as two uppercase hexadecimal digits.

use vstd::prelude::*;
use vstd::arithmetic::div_mod::lemma_fundamental_div_mod_converse;
use vstd::string::StrSliceExecFns;
use vstd::utf8::{encode_utf8, decode_utf8, valid_utf8};
use crate::error::BinaryError;
use crate::stream::{BinaryStream, window, advanced, wrote, bounds_failed};
use crate::strings::decode_utf8_lossy;

verus! {

/// A 128-bit UUID codec.
pub struct Uuid {}

/// The uppercase hexadecimal digit for a value below sixteen, as an ASCII
/// byte.
pub open spec fn hex_digit(n: nat) -> u8 {
    if n < 10 {
        (48 + n) as u8
    } else {
        (55 + n) as u8
    }
}

/// The value of an ASCII hexadecimal digit, either case; sixteen for any
/// byte that is no hexadecimal digit.
pub open spec fn hex_val(b: u8) -> nat {
    if 48 <= b <= 57 {
        (b - 48) as nat
    } else if 65 <= b <= 70 {
        (b - 55) as nat
    } else if 97 <= b <= 102 {
        (b - 87) as nat
    } else {
        16
    }
}

/// Whether a byte is an ASCII hexadecimal digit of either case.
pub open spec fn is_hex_digit(b: u8) -> bool {
    hex_val(b) < 16
}

/// The hexadecimal text of a byte sequence: two uppercase digits per byte,
/// as ASCII bytes, with no separators.
pub open spec fn hex_ascii(b: Seq<u8>) -> Seq<u8>
    decreases b.len(),
{
    if b.len() == 0 {
        Seq::empty()
    } else {
        hex_ascii(b.drop_last()) + seq![
            hex_digit((b.last() / 16) as nat),
            hex_digit((b.last() % 16) as nat),
        ]
    }
}

/// The byte sequence with every ASCII dash removed.
pub open spec fn strip_dashes(b: Seq<u8>) -> Seq<u8>
    decreases b.len(),
{
    if b.len() == 0 {
        Seq::empty()
    } else if b.first() == 45 {
        strip_dashes(b.drop_first())
    } else {
        seq![b.first()] + strip_dashes(b.drop_first())
    }
}

/// The sixteen bytes denoted by the first thirty-two characters of a
/// hexadecimal text, two characters per byte.
pub open spec fn parsed_uuid(c: Seq<u8>) -> Seq<u8> {
    Seq::new(16, |i: int| (hex_val(c[2 * i]) * 16 + hex_val(c[2 * i + 1])) as u8)
}

/// Removing dashes distributes over appending one byte.
proof fn lemma_strip_dashes_push(s: Seq<u8>, x: u8)
    ensures
        strip_dashes(s.push(x)) == if x == 45 {
            strip_dashes(s)
        } else {
            strip_dashes(s).push(x)
        },
    decreases s.len(),
{
    let whole = s.push(x);
    if s.len() == 0 {
        assert(whole.len() == 1);
        assert(whole.first() == x);
        assert(whole.drop_first() =~= Seq::<u8>::empty());
        assert(strip_dashes(Seq::<u8>::empty()) == Seq::<u8>::empty());
        if x != 45 {
            assert(strip_dashes(whole) =~= strip_dashes(s).push(x));
        } else {
            assert(strip_dashes(whole) =~= strip_dashes(s));
        }
    } else {
        assert(whole.first() == s.first());
        assert(whole.drop_first() =~= s.drop_first().push(x));
        lemma_strip_dashes_push(s.drop_first(), x);
        if x == 45 {
            assert(strip_dashes(whole) =~= strip_dashes(s));
        } else if s.first() == 45 {
            assert(strip_dashes(whole) =~= strip_dashes(s).push(x));
        } else {
            assert(strip_dashes(whole) =~= strip_dashes(s).push(x));
        }
    }
}

/// A byte sequence without dashes is unchanged by dash removal.
proof fn lemma_strip_dashes_id(s: Seq<u8>)
    requires
        forall|i: int| 0 <= i < s.len() ==> s[i] != 45,
    ensures
        strip_dashes(s) == s,
    decreases s.len(),
{
    if s.len() > 0 {
        lemma_strip_dashes_id(s.drop_first());
        assert(strip_dashes(s) =~= s);
    }
}

/// The shape of a hexadecimal text: twice as long as the bytes, the digits
/// of byte `i` at positions `2 * i` and `2 * i + 1`.
proof fn lemma_hex_ascii_form(b: Seq<u8>)
    ensures
        hex_ascii(b) == Seq::new(
            2 * b.len(),
            |i: int|
                if i % 2 == 0 {
                    hex_digit((b[i / 2] / 16) as nat)
                } else {
                    hex_digit((b[i / 2] % 16) as nat)
                },
        ),
    decreases b.len(),
{
    if b.len() > 0 {
        lemma_hex_ascii_form(b.drop_last());
    }
    assert(hex_ascii(b) =~= Seq::new(
        2 * b.len(),
        |i: int|
            if i % 2 == 0 {
                hex_digit((b[i / 2] / 16) as nat)
            } else {
                hex_digit((b[i / 2] % 16) as nat)
            },
    ));
}

/// A sequence of ASCII bytes is valid UTF-8.
proof fn lemma_ascii_valid_utf8(b: Seq<u8>)
    requires
        forall|i: int| 0 <= i < b.len() ==> b[i] < 128,
    ensures
        valid_utf8(b),
    decreases b.len(),
{
    if b.len() > 0 {
        let b0 = b[0];
        assert(b0 & 0x7f == b0) by (bit_vector)
            requires
                b0 < 128,
        ;
        assert(vstd::utf8::valid_first_scalar(b));
        assert(vstd::utf8::pop_first_scalar(b) =~= b.drop_first());
        lemma_ascii_valid_utf8(b.drop_first());
    }
}

/// Formatting bytes as hexadecimal text and parsing that text returns the
/// same bytes: a UUID value survives a read followed by a write, and the
/// text between them carries no dash and only hexadecimal digits.
pub proof fn lemma_uuid_round_trip(b: Seq<u8>)
    requires
        b.len() == 16,
    ensures
        strip_dashes(hex_ascii(b)) == hex_ascii(b),
        hex_ascii(b).len() == 32,
        forall|i: int| 0 <= i < 32 ==> is_hex_digit(#[trigger] hex_ascii(b)[i]),
        parsed_uuid(hex_ascii(b)) == b,
{
    lemma_hex_ascii_form(b);
    assert forall|i: int| 0 <= i < 32 implies is_hex_digit(#[trigger] hex_ascii(b)[i]) by {
        let k = i / 2;
        assert(0 <= k < 16);
        assert(b[k] / 16 < 16 && b[k] % 16 < 16);
    }
    lemma_strip_dashes_id(hex_ascii(b));
    assert forall|i: int| 0 <= i < 16 implies parsed_uuid(hex_ascii(b))[i] == b[i] by {
        lemma_fundamental_div_mod_converse(
            b[i] as int,
            16,
            b[i] as int / 16,
            b[i] as int % 16,
        );
    }
    assert(parsed_uuid(hex_ascii(b)) =~= b);
}

/// The same bytes with lowercase hexadecimal letters raised to uppercase
/// and everything else untouched.
pub open spec fn upper_hex(s: Seq<u8>) -> Seq<u8> {
    s.map(
        |_i: int, b: u8|
            if 97 <= b <= 102 {
                (b - 32) as u8
            } else {
                b
            },
    )
}

/// Parsing thirty-two dash-free hexadecimal characters and formatting the
/// bytes again returns the same text, case-normalized to uppercase.
pub proof fn lemma_uuid_normalize(t: Seq<u8>)
    requires
        t.len() == 32,
        forall|i: int| 0 <= i < 32 ==> is_hex_digit(#[trigger] t[i]),
    ensures
        hex_ascii(parsed_uuid(t)) == upper_hex(t),
{
    let b = parsed_uuid(t);
    lemma_hex_ascii_form(b);
    assert forall|i: int| 0 <= i < 32 implies hex_ascii(b)[i] == upper_hex(t)[i] by {
        let k = i / 2;
        assert(0 <= k < 16);
        assert(b[k] == (hex_val(t[2 * k]) * 16 + hex_val(t[2 * k + 1])) as u8);
        lemma_fundamental_div_mod_converse(
            b[k] as int,
            16,
            hex_val(t[2 * k]) as int,
            hex_val(t[2 * k + 1]) as int,
        );
        if i % 2 == 0 {
            assert(i == 2 * k);
        } else {
            assert(i == 2 * k + 1);
        }
    }
    assert(hex_ascii(b) =~= upper_hex(t));
}

/// The uppercase hexadecimal digit of a value below sixteen.
fn hex_digit_of(n: u8) -> (r: u8)
    requires
        n < 16,
    ensures
        r == hex_digit(n as nat),
{
    if n < 10 {
        48 + n
    } else {
        55 + n
    }
}

/// The value of an ASCII hexadecimal digit, or nothing for any other byte.
fn hex_val_of(b: u8) -> (r: Option<u8>)
    ensures
        match r {
            Some(v) => is_hex_digit(b) && v as nat == hex_val(b),
            None => !is_hex_digit(b),
        },
{
    if 48 <= b && b <= 57 {
        Some(b - 48)
    } else if 65 <= b && b <= 70 {
        Some(b - 55)
    } else if 97 <= b && b <= 102 {
        Some(b - 87)
    } else {
        None
    }
}

impl Uuid {
    /// Reads sixteen raw bytes from the stream and formats them as
    /// thirty-two uppercase hexadecimal characters without separators.
    pub fn read(stream: &mut BinaryStream) -> (r: Result<String, BinaryError>)
        ensures
            match r {
                Ok(text) => text@ == decode_utf8(hex_ascii(window(*old(stream), 16)))
                    && encode_utf8(text@) == hex_ascii(window(*old(stream), 16)) && advanced(
                    *old(stream),
                    *final(stream),
                    16,
                ),
                Err(e) => e == BinaryError::BoundsError && bounds_failed(*old(stream), *final(stream), 16),
            },
    {
        match stream.read(16) {
            Ok(bytes) => {
                let mut ascii: Vec<u8> = Vec::new();
                let mut i: usize = 0;
                while i < 16
                    invariant
                        i <= 16,
                        bytes@.len() == 16,
                        ascii@ == hex_ascii(bytes@.take(i as int)),
                    decreases 16 - i,
                {
                    let b = bytes[i];
                    ascii.push(hex_digit_of(b / 16));
                    ascii.push(hex_digit_of(b % 16));
                    i = i + 1;
                    proof {
                        let t = bytes@.take(i as int);
                        assert(t.drop_last() =~= bytes@.take(i - 1));
                        assert(ascii@ =~= hex_ascii(t));
                    }
                }
                proof {
                    assert(bytes@.take(16) =~= bytes@);
                    lemma_hex_ascii_form(bytes@);
                    assert forall|k: int| 0 <= k < ascii@.len() implies ascii@[k] < 128 by {
                        assert(0 <= k / 2 < 16);
                    }
                    lemma_ascii_valid_utf8(ascii@);
                    vstd::utf8::decode_utf8_encode_utf8(ascii@);
                }
                Ok(decode_utf8_lossy(ascii.as_slice()))
            },
            Err(e) => Err(e),
        }
    }

    /// Strips dashes from a UUID text, parses its first thirty-two
    /// hexadecimal characters, and writes the sixteen bytes to the stream;
    /// fails with `InvalidHex`, writing nothing, when fewer than thirty-two
    /// hexadecimal characters remain or any of them is not hexadecimal.
    pub fn write(stream: &mut BinaryStream, value: String) -> (r: Result<(), BinaryError>)
        ensures
            ({
                let cleaned = strip_dashes(encode_utf8(value@));
                match r {
                    Ok(_) => cleaned.len() >= 32 && (forall|i: int|
                        0 <= i < 32 ==> is_hex_digit(#[trigger] cleaned[i])) && wrote(
                        *old(stream),
                        *final(stream),
                        parsed_uuid(cleaned),
                    ),
                    Err(e) => e == BinaryError::InvalidHex && (cleaned.len() < 32 || exists|i: int|
                        0 <= i < 32 && !is_hex_digit(#[trigger] cleaned[i])) && *final(stream)
                        == *old(stream),
                }
            }),
    {
        let sb = value.as_str().as_bytes_vec();
        let n = sb.len();
        let mut cleaned: Vec<u8> = Vec::new();
        let mut i: usize = 0;
        while i < n
            invariant
                i <= n,
                n == sb@.len(),
                cleaned@ == strip_dashes(sb@.take(i as int)),
            decreases n - i,
        {
            let b = sb[i];
            proof {
                assert(sb@.take(i + 1).drop_last() =~= sb@.take(i as int));
                assert(sb@.take(i + 1) =~= sb@.take(i as int).push(sb@[i as int]));
                lemma_strip_dashes_push(sb@.take(i as int), sb@[i as int]);
            }
            if b != 45 {
                cleaned.push(b);
            }
            i = i + 1;
        }
        proof {
            assert(sb@.take(n as int) =~= sb@);
        }
        if cleaned.len() < 32 {
            return Err(BinaryError::InvalidHex);
        }
        let mut out: Vec<u8> = Vec::new();
        let mut j: usize = 0;
        while j < 16
            invariant
                j <= 16,
                cleaned@.len() >= 32,
                cleaned@ == strip_dashes(encode_utf8(value@)),
                out@.len() == j,
                forall|k: int| 0 <= k < 2 * j ==> is_hex_digit(#[trigger] cleaned@[k]),
                forall|k: int| 0 <= k < j ==> out@[k] == parsed_uuid(cleaned@)[k],
            decreases 16 - j,
        {
            let hi = hex_val_of(cleaned[2 * j]);
            let lo = hex_val_of(cleaned[2 * j + 1]);
            match (hi, lo) {
                (Some(h), Some(l)) => {
                    out.push(h * 16 + l);
                },
                _ => {
                    return Err(BinaryError::InvalidHex);
                },
            }
            j = j + 1;
        }
        proof {
            assert(out@ =~= parsed_uuid(cleaned@));
        }
        stream.write(out);
        Ok(())
    }
}

impl BinaryStream {
    /// Reads sixteen raw bytes from the stream as thirty-two uppercase
    /// hexadecimal characters without separators.
    pub fn read_uuid(&mut self) -> (r: Result<String, BinaryError>)
        ensures
            match r {
                Ok(text) => text@ == decode_utf8(hex_ascii(window(*old(self), 16)))
                    && encode_utf8(text@) == hex_ascii(window(*old(self), 16)) && advanced(
                    *old(self),
                    *final(self),
                    16,
                ),
                Err(e) => e == BinaryError::BoundsError && bounds_failed(*old(self), *final(self), 16),
            },
    {
        Uuid::read(self)
    }

    /// Parses a UUID text and writes its sixteen bytes to the stream; fails
    /// with `InvalidHex`, writing nothing, on malformed text.
    pub fn write_uuid(&mut self, value: String) -> (r: Result<(), BinaryError>)
        ensures
            ({
                let cleaned = strip_dashes(encode_utf8(value@));
                match r {
                    Ok(_) => cleaned.len() >= 32 && (forall|i: int|
                        0 <= i < 32 ==> is_hex_digit(#[trigger] cleaned[i])) && wrote(
                        *old(self),
                        *final(self),
                        parsed_uuid(cleaned),
                    ),
                    Err(e) => e == BinaryError::InvalidHex && (cleaned.len() < 32 || exists|i: int|
                        0 <= i < 32 && !is_hex_digit(#[trigger] cleaned[i])) && *final(self)
                        == *old(self),
                }
            }),
    {
        Uuid::write(self, value)
    }
}

} // verus!
