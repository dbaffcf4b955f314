//! Byte-order selector consumed by every multi-byte fixed-width codec.

use vstd::prelude::*;

verus! {

/// Byte order for multi-byte values: `Big` stores the most-significant byte
/// first, `Little` the least-significant byte first. The default is `Big`.
#[derive(Clone, Copy, Debug, PartialEq, Eq, Structural)]
pub enum Endianness {
    Big,
    Little,
}

impl Default for Endianness {
    fn default() -> (r: Self)
        ensures
            r == Endianness::Big,
    {
        Endianness::Big
    }
}

/// The byte order that an optional argument selects: the order given, or
/// `Big` when none is.
pub open spec fn endian_of(e: Option<Endianness>) -> Endianness {
    match e {
        Some(x) => x,
        None => Endianness::Big,
    }
}

/// Resolves an optional byte-order argument to the order it selects.
pub fn resolve_endian(e: Option<Endianness>) -> (r: Endianness)
    ensures
        r == endian_of(e),
{
    match e {
        Some(x) => x,
        None => Endianness::Big,
    }
}

} // verus!
