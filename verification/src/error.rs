//! The ways in which decoding a hex string can fail.

use vstd::prelude::*;
use crate::decimal::{decimal, push_decimal};

verus! {

/// Why a string was rejected by [`decode`](crate::decoding::decode) or
/// [`decode_to_fixed`](crate::decoding::decode_to_fixed).
#[derive(Debug, Clone, Copy, PartialEq, Eq, Structural)]
pub enum FromHexError {
    /// A character that is none of `0-9`, `a-f`, `A-F` was found. `index` counts
    /// characters from the start of the input, beginning at zero.
    InvalidHexCharacter { c: char, index: usize },
    /// The input has an odd number of characters; two digits make one byte.
    OddLength,
    /// The input is decoded into a container of fixed size, and its length is
    /// not twice the number of bytes that the container holds.
    InvalidStringLength,
}

impl FromHexError {
    /// The text that describes this error to a reader.
    pub open spec fn message(self) -> Seq<char> {
        match self {
            FromHexError::InvalidHexCharacter { c, index } => "Invalid character '"@.push(c)
                + "' at position "@ + decimal(index as nat),
            FromHexError::OddLength => "Odd number of digits"@,
            FromHexError::InvalidStringLength => "Invalid string length"@,
        }
    }

    /// Renders this error as text for a reader. The offending character is
    /// written as it is, its position in decimal.
    pub fn to_string(&self) -> (s: String)
        ensures
            s@ == self.message(),
    {
        match *self {
            FromHexError::InvalidHexCharacter { c, index } => {
                let mut s = String::from_str("Invalid character '");
                s.push(c);
                s.append("' at position ");
                push_decimal(&mut s, index);
                s
            },
            FromHexError::OddLength => String::from_str("Odd number of digits"),
            FromHexError::InvalidStringLength => String::from_str("Invalid string length"),
        }
    }
}

} // verus!
