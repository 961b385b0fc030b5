//! Turning hexadecimal text into bytes.

use vstd::prelude::*;
use crate::digit::{digit_value, is_hex_digit, parse_digit};
use crate::error::FromHexError;

verus! {

/// An outcome of decoding, with the bytes as a mathematical sequence.
pub type Decoded = Result<Seq<u8>, FromHexError>;

/// Whether every character of `s` is a hex digit.
pub open spec fn is_hex_string(s: Seq<char>) -> bool {
    forall|i: int| 0 <= i < s.len() ==> is_hex_digit(#[trigger] s[i])
}

/// Whether `i` is the place of the first character of `s` that is no hex
/// digit.
pub open spec fn is_first_invalid(s: Seq<char>, i: int) -> bool {
    &&& 0 <= i < s.len()
    &&& !is_hex_digit(s[i])
    &&& forall|j: int| 0 <= j < i ==> is_hex_digit(#[trigger] s[j])
}

/// The place of the first character of `s` that is no hex digit, where there
/// is one.
pub open spec fn first_invalid(s: Seq<char>) -> int
    recommends
        !is_hex_string(s),
{
    choose|i: int| is_first_invalid(s, i)
}

/// The byte written by the digit pair `high`, `low`.
pub open spec fn pair_value(high: char, low: char) -> u8
    recommends
        is_hex_digit(high),
        is_hex_digit(low),
{
    (16 * digit_value(high) + digit_value(low)) as u8
}

/// The bytes written by the digit pairs of `s`, in order. A last character
/// without a partner is left out.
pub open spec fn packed_bytes(s: Seq<char>) -> Seq<u8>
    recommends
        is_hex_string(s),
{
    Seq::new(s.len() / 2, |k: int| pair_value(s[2 * k], s[2 * k + 1]))
}

/// What decoding `s` gives: the bytes of its digit pairs, or the reason why
/// `s` is rejected. An odd length is reported before any character is looked
/// at; otherwise the first character that is no hex digit is reported.
pub open spec fn spec_decode(s: Seq<char>) -> Decoded {
    if s.len() % 2 != 0 {
        Err(FromHexError::OddLength)
    } else if is_hex_string(s) {
        Ok(packed_bytes(s))
    } else {
        Err(
            FromHexError::InvalidHexCharacter {
                c: s[first_invalid(s)],
                index: first_invalid(s) as usize,
            },
        )
    }
}

/// What decoding `s` into a container of `n` bytes gives. A length other
/// than `2 * n` is reported before anything else.
pub open spec fn spec_decode_to_fixed(s: Seq<char>, n: nat) -> Decoded {
    if s.len() != 2 * n {
        Err(FromHexError::InvalidStringLength)
    } else {
        spec_decode(s)
    }
}

/// Where `i` is the place of the first character of `s` that is no hex digit,
/// `first_invalid(s)` is `i`: there is only one such place.
pub proof fn lemma_first_invalid_is(s: Seq<char>, i: int)
    requires
        is_first_invalid(s, i),
    ensures
        !is_hex_string(s),
        first_invalid(s) == i,
{
}

/// A string with a character that is no hex digit has a first such
/// character, and `first_invalid` is its place.
pub proof fn lemma_first_invalid_exists(s: Seq<char>)
    requires
        !is_hex_string(s),
    ensures
        is_first_invalid(s, first_invalid(s)),
{
    let i = choose|i: int| 0 <= i < s.len() && !is_hex_digit(#[trigger] s[i]);
    lemma_first_invalid_at_or_before(s, i);
}

/// At or before a character that is no hex digit stands the first one.
proof fn lemma_first_invalid_at_or_before(s: Seq<char>, i: int)
    requires
        0 <= i < s.len(),
        !is_hex_digit(s[i]),
    ensures
        is_first_invalid(s, first_invalid(s)),
    decreases i,
{
    if is_first_invalid(s, i) {
        lemma_first_invalid_is(s, i);
    } else {
        let j = choose|j: int| 0 <= j < i && !is_hex_digit(#[trigger] s[j]);
        lemma_first_invalid_at_or_before(s, j);
    }
}

/// Reads `input` pair by pair into `out`, one byte for each pair, and stops
/// at the first character that is no hex digit.
fn decode_pairs(input: &str, out: &mut [u8]) -> (r: Result<(), FromHexError>)
    requires
        input@.len() == 2 * old(out)@.len(),
        input@.len() <= usize::MAX,
    ensures
        final(out)@.len() == old(out)@.len(),
        match r {
            Ok(()) => spec_decode(input@) == Decoded::Ok(final(out)@),
            Err(e) => spec_decode(input@) == Decoded::Err(e),
        },
{
    let mut index: usize = 0;
    let mut high: u8 = 0;
    for c in chars: input.chars()
        invariant
            index == chars.index(),
            chars.seq() == input@,
            input@.len() == 2 * out@.len(),
            input@.len() <= usize::MAX,
            out@.len() == old(out)@.len(),
            forall|j: int| 0 <= j < index ==> is_hex_digit(#[trigger] input@[j]),
            index % 2 == 1 ==> high as int == digit_value(input@[index - 1]),
            forall|k: int|
                0 <= k < index / 2 ==> #[trigger] out@[k] == pair_value(
                    input@[2 * k],
                    input@[2 * k + 1],
                ),
    {
        match parse_digit(c) {
            Some(v) => {
                if index % 2 == 0 {
                    high = v;
                } else {
                    out[index / 2] = high * 16 + v;
                }
            },
            None => {
                proof {
                    lemma_first_invalid_is(input@, index as int);
                }
                return Err(FromHexError::InvalidHexCharacter { c, index });
            },
        }
        index += 1;
    }
    assert(out@ =~= packed_bytes(input@));
    Ok(())
}

/// Decodes a string of hex digits into the bytes that it writes, two digits
/// to a byte, the high half first. Letters are accepted in either case.
///
/// # Errors
///
/// [`FromHexError::OddLength`] if the number of characters is odd, whatever
/// the characters are. Otherwise [`FromHexError::InvalidHexCharacter`] with
/// the first character that is no hex digit and its place, counted in
/// characters from zero.
pub fn decode(input: &str) -> (r: Result<Vec<u8>, FromHexError>)
    ensures
        match r {
            Ok(bytes) => spec_decode(input@) == Decoded::Ok(bytes@),
            Err(e) => spec_decode(input@) == Decoded::Err(e),
        },
        r matches Ok(bytes) ==> 2 * bytes@.len() == input@.len(),
{
    let len = input.unicode_len();
    if len % 2 != 0 {
        return Err(FromHexError::OddLength);
    }
    let mut out = vec![0u8; len / 2];
    match decode_pairs(input, out.as_mut_slice()) {
        Ok(()) => Ok(out),
        Err(e) => Err(e),
    }
}

/// Decodes a string of exactly `2 * N` hex digits into an array of `N`
/// bytes, two digits to a byte, the high half first.
///
/// # Errors
///
/// [`FromHexError::InvalidStringLength`] if the number of characters is not
/// `2 * N`, whatever the characters are and whether that number is odd or
/// even. Otherwise [`FromHexError::InvalidHexCharacter`] with the first
/// character that is no hex digit and its place, counted in characters from
/// zero.
pub fn decode_to_fixed<const N: usize>(input: &str) -> (r: Result<[u8; N], FromHexError>)
    ensures
        match r {
            Ok(bytes) => spec_decode_to_fixed(input@, N as nat) == Decoded::Ok(bytes@),
            Err(e) => spec_decode_to_fixed(input@, N as nat) == Decoded::Err(e),
        },
{
    let len = input.unicode_len();
    if len % 2 != 0 || len / 2 != N {
        return Err(FromHexError::InvalidStringLength);
    }
    let mut out = [0u8; N];
    match decode_pairs(input, &mut out) {
        Ok(()) => Ok(out),
        Err(e) => Err(e),
    }
}

} // verus!
