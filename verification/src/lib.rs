//! A binary codec library: a cursor-addressed byte buffer together with typed
//! encoders and decoders for fixed-width integers, IEEE-754 bit patterns,
//! booleans, UUIDs, base-128 variable-length integers, zigzag-mapped signed
//! variants, and length-prefixed UTF-8 strings.

use vstd::prelude::*;

pub mod endian;
pub mod error;
pub mod floats;
pub mod numeric;
pub mod signed;
pub mod unsigned;
pub mod strings;
pub mod varints;
pub mod uuid;
pub mod stream;

pub use endian::Endianness;
pub use error::BinaryError;
pub use floats::{Float32, Float64};
pub use stream::BinaryStream;
pub use signed::{Int8, Int16, Int24, Int32, Int64, Short, Long};
pub use strings::{String16, String32, VarString};
pub use uuid::Uuid;
pub use varints::{VarInt, VarLong, ZigZag, ZigZong};
pub use unsigned::{Uint8, Uint16, Uint24, Uint32, Uint64, UShort, ULong, Bool};

verus! {

/// Returns the name of the companion stub package.
pub fn foo() -> (r: String)
    ensures
        r@ == "@serenityjs/netbeans"@,
{
    String::from_str("@serenityjs/netbeans")
}

} // verus!
