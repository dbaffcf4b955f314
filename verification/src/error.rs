//! The failures a codec operation can report. Every fallible operation
//! returns one of these as a value; nothing in the library panics.

use vstd::prelude::*;

verus! {

/// A recoverable codec failure.
#[derive(Clone, Copy, Debug, PartialEq, Eq, Structural)]
pub enum BinaryError {
    /// A read asked for more bytes than remain between the cursor and the
    /// end of the buffer.
    BoundsError,
    /// A variable-length integer ran past its maximum group count.
    MalformedVarint,
    /// A UUID text was not 32 hexadecimal characters.
    InvalidHex,
}

impl BinaryError {
    /// A short description of the failure.
    pub fn message(&self) -> (r: &'static str)
        ensures
            *self == BinaryError::BoundsError ==> r@ == "length is greater than the remaining bytes"@,
            *self == BinaryError::MalformedVarint ==> r@ == "variable-length integer is too big"@,
            *self == BinaryError::InvalidHex ==> r@ == "invalid hexadecimal text"@,
    {
        match self {
            BinaryError::BoundsError => "length is greater than the remaining bytes",
            BinaryError::MalformedVarint => "variable-length integer is too big",
            BinaryError::InvalidHex => "invalid hexadecimal text",
        }
    }
}

} // verus!
