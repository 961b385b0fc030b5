//! Turning bytes into hexadecimal text.

use vstd::prelude::*;
use crate::digit::{digit_char, hex_digit};

verus! {

/// The hex string that writes `bytes`: two digits for each byte, the high
/// half first, with letters in the chosen case.
pub open spec fn spec_encode(bytes: Seq<u8>, uppercase: bool) -> Seq<char> {
    Seq::new(
        2 * bytes.len(),
        |i: int|
            if i % 2 == 0 {
                hex_digit(bytes[i / 2] as int / 16, uppercase)
            } else {
                hex_digit(bytes[i / 2] as int % 16, uppercase)
            },
    )
}

/// Encodes `bytes` as a string of hex digits, two for each byte, the high
/// half first. Letters are capitals if `uppercase` is set and small
/// otherwise.
pub fn encode(bytes: &[u8], uppercase: bool) -> (s: String)
    ensures
        s@ == spec_encode(bytes@, uppercase),
        s@.len() == 2 * bytes@.len(),
{
    let mut s = String::new();
    for i in 0..bytes.len()
        invariant
            s@ == spec_encode(bytes@.take(i as int), uppercase),
    {
        let byte = bytes[i];
        s.push(digit_char(byte / 16, uppercase));
        s.push(digit_char(byte % 16, uppercase));
    }
    s
}

} // verus!
